//! Patching of a shell rc file: a theme line, a plugins line and environment
//! exports are brought to a desired state without touching anything else.

use crate::text::{
    chars_of, find_char, join, join_texts, lemma_texts_push, lines_of, position_of, same_text, scan, slice_of,
    split_lines, split_words, starts_with, string_of, text_of_lines, texts, trim, trimmed,
    unlines, words,
};
use crate::common::error::{SetupError, SetupErrorView};
use crate::common::exchange::{
    stray_reply_text, Reply, ReplyView, Request, RequestView, Step, StepView,
};
use crate::common::logging::{Log, LogLineView};
use crate::configurators::{
    file_texts, idle, Configurator, Progress, ProgressView, Stage, Turn,
};
use vstd::string::StringExecFns;
use vstd::prelude::*;

verus! {

/// The text with which an active theme line begins.
pub open spec fn theme_prefix() -> Seq<char> {
    "ZSH_THEME"@
}

/// The text with which an active plugins line begins.
pub open spec fn plugins_prefix() -> Seq<char> {
    "plugins="@
}

/// The canonical line that selects `theme`.
pub open spec fn theme_line(theme: Seq<char>) -> Seq<char> {
    "ZSH_THEME=\""@ + theme + "\""@
}

/// The canonical line that lists `plugins`.
pub open spec fn plugins_line(plugins: Seq<Seq<char>>) -> Seq<char> {
    "plugins=("@ + join(plugins, " "@) + ")"@
}

/// The comment that precedes every export this patcher appends.
pub open spec fn attribution_line() -> Seq<char> {
    "# Added by mac-setup"@
}

/// The line that exports `key` with `value`.
pub open spec fn export_line(key: Seq<char>, value: Seq<char>) -> Seq<char> {
    "export "@ + key + "="@ + value
}

/// A line whose first visible character is `#`.
pub open spec fn is_comment(line: Seq<char>) -> bool {
    trimmed(line).len() > 0 && trimmed(line)[0] == '#'
}

/// A line that is neither blank nor a comment.
pub open spec fn is_content(line: Seq<char>) -> bool {
    trimmed(line).len() > 0 && trimmed(line)[0] != '#'
}

/// A line that is no comment and, once trimmed, starts with `prefix`.
pub open spec fn is_active(line: Seq<char>, prefix: Seq<char>) -> bool {
    !is_comment(line) && prefix.is_prefix_of(trimmed(line))
}

/// The test for an active line with `prefix`.
pub open spec fn active_with(prefix: Seq<char>) -> spec_fn(Seq<char>) -> bool {
    |l: Seq<char>| is_active(l, prefix)
}

/// The test for a content line.
pub open spec fn content() -> spec_fn(Seq<char>) -> bool {
    |l: Seq<char>| is_content(l)
}

/// The index of the first active line with `prefix` at or after `from`, or
/// the number of lines when there is none.
pub open spec fn first_active_from(lines: Seq<Seq<char>>, prefix: Seq<char>, from: int) -> int {
    scan(lines, active_with(prefix), from)
}

/// The index of the first active line with `prefix`, or the number of lines
/// when there is none.
pub open spec fn first_active(lines: Seq<Seq<char>>, prefix: Seq<char>) -> int {
    first_active_from(lines, prefix, 0)
}

/// The index of the first content line at or after `from`, or the number of
/// lines when there is none.
pub open spec fn first_content_from(lines: Seq<Seq<char>>, from: int) -> int {
    scan(lines, content(), from)
}

/// Where a missing line is put: before the first content line, or at the top
/// when the document has no content line.
pub open spec fn insertion_point(lines: Seq<Seq<char>>) -> int {
    let k = first_content_from(lines, 0);
    if k < lines.len() {
        k
    } else {
        0
    }
}

/// The plugins that a plugins line lists: the words between its first `(`
/// and its first `)`; none when the `)` is missing or does not come after
/// the `(`.
pub open spec fn listed_plugins(line: Seq<char>) -> Seq<Seq<char>> {
    let a = find_char(line, '(', 0);
    let b = find_char(line, ')', 0);
    if 0 <= a < b < line.len() {
        words(line.subrange(a + 1, b))
    } else {
        Seq::empty()
    }
}

/// `existing`, followed by each item of `required` that is not yet present
/// when its turn comes.
pub open spec fn merged(existing: Seq<Seq<char>>, required: Seq<Seq<char>>) -> Seq<Seq<char>>
    decreases required.len(),
{
    if required.len() == 0 {
        existing
    } else {
        let sofar = merged(existing, required.drop_last());
        if sofar.contains(required.last()) {
            sofar
        } else {
            sofar.push(required.last())
        }
    }
}

/// The document with its first active `prefix` line replaced by `new_line`,
/// or with `new_line` inserted at `at` when it has no such line.
pub open spec fn with_line(
    lines: Seq<Seq<char>>,
    prefix: Seq<char>,
    new_line: Seq<char>,
    at: int,
) -> Seq<Seq<char>> {
    let k = first_active(lines, prefix);
    if 0 <= k < lines.len() {
        lines.update(k, new_line)
    } else {
        lines.insert(at, new_line)
    }
}

/// The document with `required` merged into its first active plugins line, or
/// with a plugins line of exactly `required` inserted at `at` when it has none.
pub open spec fn with_plugins(
    lines: Seq<Seq<char>>,
    required: Seq<Seq<char>>,
    at: int,
) -> Seq<Seq<char>> {
    let k = first_active(lines, plugins_prefix());
    if 0 <= k < lines.len() {
        lines.update(k, plugins_line(merged(listed_plugins(lines[k]), required)))
    } else {
        lines.insert(at, plugins_line(required))
    }
}

/// Whether a line sets or exports `key`.
pub open spec fn mentions_key(line: Seq<char>, key: Seq<char>) -> bool {
    ("export "@ + key).is_prefix_of(trimmed(line)) || (key + "="@).is_prefix_of(trimmed(line))
}

/// Whether some line of the document sets or exports `key`.
pub open spec fn has_export(lines: Seq<Seq<char>>, key: Seq<char>) -> bool {
    exists|i: int| 0 <= i < lines.len() && mentions_key(#[trigger] lines[i], key)
}

/// The three lines appended for a missing export.
pub open spec fn export_block(key: Seq<char>, value: Seq<char>) -> Seq<Seq<char>> {
    seq![Seq::<char>::empty(), attribution_line(), export_line(key, value)]
}

/// The document, with an export block for `key` at its end unless some line
/// already sets or exports `key`.
pub open spec fn with_export(lines: Seq<Seq<char>>, key: Seq<char>, value: Seq<char>) -> Seq<
    Seq<char>,
> {
    if has_export(lines, key) {
        lines
    } else {
        lines + export_block(key, value)
    }
}

/// The document after each export, in order, has been ensured.
pub open spec fn with_exports(lines: Seq<Seq<char>>, exports: Seq<(Seq<char>, Seq<char>)>) -> Seq<
    Seq<char>,
>
    decreases exports.len(),
{
    if exports.len() == 0 {
        lines
    } else {
        with_export(
            with_exports(lines, exports.drop_last()),
            exports.last().0,
            exports.last().1,
        )
    }
}

/// The document after the whole patch: theme, then plugins, then exports. A
/// theme line and a plugins line that are both missing go to the same place,
/// the theme line first.
pub open spec fn patched_lines(
    lines: Seq<Seq<char>>,
    theme: Seq<char>,
    plugins: Seq<Seq<char>>,
    exports: Seq<(Seq<char>, Seq<char>)>,
) -> Seq<Seq<char>> {
    let at = insertion_point(lines);
    let themed = with_line(lines, theme_prefix(), theme_line(theme), at);
    let next = if first_active(lines, theme_prefix()) < lines.len() {
        at
    } else {
        at + 1
    };
    with_exports(with_plugins(themed, plugins, next), exports)
}

/// The rc file text after the whole patch.
pub open spec fn patched_text(
    content: Seq<char>,
    theme: Seq<char>,
    plugins: Seq<Seq<char>>,
    exports: Seq<(Seq<char>, Seq<char>)>,
) -> Seq<char> {
    unlines(patched_lines(split_lines(content), theme, plugins, exports))
}

/// The texts of a vector of strings.
pub open spec fn line_texts(v: Seq<String>) -> Seq<Seq<char>> {
    Seq::new(v.len(), |i: int| v[i]@)
}

/// The texts of a slice of string slices.
pub open spec fn slice_texts(v: Seq<&str>) -> Seq<Seq<char>> {
    Seq::new(v.len(), |i: int| v[i]@)
}

/// The texts of a slice of pairs of string slices.
pub open spec fn pair_texts(v: Seq<(&str, &str)>) -> Seq<(Seq<char>, Seq<char>)> {
    Seq::new(v.len(), |i: int| (v[i].0@, v[i].1@))
}

/// Whether `line` is no comment and, once trimmed, starts with `prefix`.
pub fn is_active_line(line: &str, prefix: &str) -> (b: bool)
    ensures
        b == is_active(line@, prefix@),
{
    let t = trim(&chars_of(line));
    if t.len() > 0 && t[0] == '#' {
        false
    } else {
        starts_with(&t, &chars_of(prefix))
    }
}

/// Whether `line` is neither blank nor a comment.
pub fn is_content_line(line: &str) -> (b: bool)
    ensures
        b == is_content(line@),
{
    let t = trim(&chars_of(line));
    t.len() > 0 && t[0] != '#'
}

/// The index of the first active line with `prefix`, or the number of lines
/// when there is none.
pub fn find_active(lines: &Vec<String>, prefix: &str) -> (k: usize)
    ensures
        k == first_active(line_texts(lines@), prefix@),
        k <= lines.len(),
{
    let mut i: usize = 0;
    while i < lines.len() && !is_active_line(lines[i].as_str(), prefix)
        invariant
            i <= lines.len(),
            first_active(line_texts(lines@), prefix@) == first_active_from(
                line_texts(lines@),
                prefix@,
                i as int,
            ),
        decreases lines.len() - i,
    {
        i += 1;
    }
    i
}

/// Where a missing line is put: the index of the first content line, or 0
/// when the document has none.
pub fn find_insertion_point(lines: &Vec<String>) -> (k: usize)
    ensures
        k == insertion_point(line_texts(lines@)),
        k <= lines.len(),
{
    let mut i: usize = 0;
    while i < lines.len() && !is_content_line(lines[i].as_str())
        invariant
            i <= lines.len(),
            first_content_from(line_texts(lines@), 0) == first_content_from(
                line_texts(lines@),
                i as int,
            ),
        decreases lines.len() - i,
    {
        i += 1;
    }
    if i < lines.len() {
        i
    } else {
        0
    }
}

/// Whether `line` sets or exports `key`.
pub fn line_mentions_key(line: &str, key: &str) -> (b: bool)
    ensures
        b == mentions_key(line@, key@),
{
    let t = trim(&chars_of(line));
    let exported = "export ".to_owned().concat(key);
    let assigned = key.to_owned().concat("=");
    starts_with(&t, &chars_of(exported.as_str())) || starts_with(&t, &chars_of(assigned.as_str()))
}

/// Whether some line of the document sets or exports `key`.
pub fn has_export_line(lines: &Vec<String>, key: &str) -> (b: bool)
    ensures
        b == has_export(line_texts(lines@), key@),
{
    let mut i: usize = 0;
    while i < lines.len()
        invariant
            i <= lines.len(),
            forall|j: int| 0 <= j < i ==> !mentions_key(#[trigger] line_texts(lines@)[j], key@),
        decreases lines.len() - i,
    {
        if line_mentions_key(lines[i].as_str(), key) {
            assert(mentions_key(line_texts(lines@)[i as int], key@));
            return true;
        }
        i += 1;
    }
    false
}

/// Whether `items` holds the text `x`.
pub fn contains_text(items: &Vec<Vec<char>>, x: &Vec<char>) -> (b: bool)
    ensures
        b == texts(items@).contains(x@),
{
    let mut i: usize = 0;
    while i < items.len()
        invariant
            i <= items.len(),
            forall|j: int| 0 <= j < i ==> texts(items@)[j] != x@,
        decreases items.len() - i,
    {
        if same_text(&items[i], x) {
            assert(texts(items@)[i as int] == x@);
            return true;
        }
        i += 1;
    }
    false
}

/// The canonical line that lists `plugins`.
pub fn render_plugins_line(plugins: &Vec<Vec<char>>) -> (line: String)
    ensures
        line@ == plugins_line(texts(plugins@)),
{
    let listed = join_texts(plugins, &chars_of(" "));
    "plugins=(".to_owned().concat(string_of(&listed).as_str()).concat(")")
}

/// The strings with the given texts.
pub fn strings_of(v: &Vec<Vec<char>>) -> (out: Vec<String>)
    ensures
        line_texts(out@) == texts(v@),
{
    let mut out: Vec<String> = Vec::new();
    let mut i: usize = 0;
    while i < v.len()
        invariant
            i <= v.len(),
            out.len() == i,
            forall|j: int| 0 <= j < i ==> out@[j]@ == v@[j]@,
        decreases v.len() - i,
    {
        out.push(string_of(&v[i]));
        i += 1;
    }
    assert(line_texts(out@) =~= texts(v@));
    out
}

/// The texts of the given strings.
pub fn texts_of(v: &Vec<String>) -> (out: Vec<Vec<char>>)
    ensures
        texts(out@) == line_texts(v@),
{
    let mut out: Vec<Vec<char>> = Vec::new();
    let mut i: usize = 0;
    while i < v.len()
        invariant
            i <= v.len(),
            out.len() == i,
            forall|j: int| 0 <= j < i ==> out@[j]@ == v@[j]@,
        decreases v.len() - i,
    {
        out.push(chars_of(v[i].as_str()));
        i += 1;
    }
    assert(texts(out@) =~= line_texts(v@));
    out
}

/// Configurator for the shell rc file: the theme, the plugins and the
/// environment exports that the file is to end up with.
pub struct ZshrcConfigurator {
    pub theme: String,
    pub plugins: Vec<String>,
    pub env_vars: Vec<(String, String)>,
}

impl ZshrcConfigurator {
    /// Update an existing line or add a new one: replaces the first active
    /// line that starts with `prefix` by `new_line`; when there is none,
    /// inserts `new_line` before the first content line, or at the top of a
    /// document without a content line.
    pub fn update_or_add_line(&self, lines: &mut Vec<String>, prefix: &str, new_line: &str)
        ensures
            line_texts(final(lines)@) == with_line(
                line_texts(old(lines)@),
                prefix@,
                new_line@,
                insertion_point(line_texts(old(lines)@)),
            ),
    {
        let at = find_insertion_point(lines);
        self.place_line(lines, prefix, new_line, at);
    }

    /// Extend the plugins list with new plugins, avoiding duplicates: merges
    /// `plugins_to_add` into the first active plugins line, keeping what it
    /// lists in its order; when there is none, inserts a plugins line of
    /// exactly `plugins_to_add` before the first content line, or at the top
    /// of a document without a content line.
    pub fn extend_plugins(&self, lines: &mut Vec<String>, plugins_to_add: &[&str])
        ensures
            line_texts(final(lines)@) == with_plugins(
                line_texts(old(lines)@),
                slice_texts(plugins_to_add@),
                insertion_point(line_texts(old(lines)@)),
            ),
    {
        let at = find_insertion_point(lines);
        self.place_plugins(lines, plugins_to_add, at);
    }

    /// Replaces the first active line that starts with `prefix` by
    /// `new_line`; when there is none, inserts `new_line` at `insert_at`.
    /// Returns whether a line was inserted.
    pub fn place_line(
        &self,
        lines: &mut Vec<String>,
        prefix: &str,
        new_line: &str,
        insert_at: usize,
    ) -> (inserted: bool)
        requires
            insert_at <= old(lines).len(),
        ensures
            line_texts(final(lines)@) == with_line(
                line_texts(old(lines)@),
                prefix@,
                new_line@,
                insert_at as int,
            ),
            inserted == (first_active(line_texts(old(lines)@), prefix@) >= old(lines).len()),
            inserted ==> final(lines).len() == old(lines).len() + 1,
            !inserted ==> final(lines).len() == old(lines).len(),
    {
        let k = find_active(lines, prefix);
        if k < lines.len() {
            lines.set(k, new_line.to_owned());
            assert(line_texts(lines@) =~= line_texts(old(lines)@).update(k as int, new_line@));
            false
        } else {
            lines.insert(insert_at, new_line.to_owned());
            assert(line_texts(lines@) =~= line_texts(old(lines)@).insert(
                insert_at as int,
                new_line@,
            ));
            true
        }
    }

    /// Merges `plugins_to_add` into the first active plugins line, keeping
    /// what it lists in its order; when there is none, inserts a plugins line
    /// of exactly `plugins_to_add` at `insert_at`.
    pub fn place_plugins(
        &self,
        lines: &mut Vec<String>,
        plugins_to_add: &[&str],
        insert_at: usize,
    )
        requires
            insert_at <= old(lines).len(),
        ensures
            line_texts(final(lines)@) == with_plugins(
                line_texts(old(lines)@),
                slice_texts(plugins_to_add@),
                insert_at as int,
            ),
    {
        let k = find_active(lines, "plugins=");
        let ghost required = slice_texts(plugins_to_add@);
        if k < lines.len() {
            let line = chars_of(lines[k].as_str());
            let a = position_of(&line, '(', 0);
            let b = position_of(&line, ')', 0);
            let mut listed: Vec<Vec<char>> = Vec::new();
            if a < b && b < line.len() {
                listed = split_words(&slice_of(&line, a + 1, b));
            }
            assert(texts(listed@) =~= listed_plugins(line@));
            let ghost before = texts(listed@);
            let mut i: usize = 0;
            assert(required.take(0) =~= Seq::<Seq<char>>::empty());
            while i < plugins_to_add.len()
                invariant
                    i <= plugins_to_add.len(),
                    required == slice_texts(plugins_to_add@),
                    texts(listed@) == merged(before, required.take(i as int)),
                decreases plugins_to_add.len() - i,
            {
                let plugin = chars_of(plugins_to_add[i]);
                proof {
                    assert(required.take(i + 1).drop_last() =~= required.take(i as int));
                    assert(required.take(i + 1).last() == plugin@);
                }
                if !contains_text(&listed, &plugin) {
                    proof {
                        lemma_texts_push(listed@, plugin);
                    }
                    listed.push(plugin);
                }
                i += 1;
            }
            assert(required.take(required.len() as int) =~= required);
            lines.set(k, render_plugins_line(&listed));
            assert(line_texts(lines@) =~= line_texts(old(lines)@).update(
                k as int,
                plugins_line(merged(listed_plugins(line_texts(old(lines)@)[k as int]), required)),
            ));
        } else {
            let mut listed: Vec<Vec<char>> = Vec::new();
            let mut i: usize = 0;
            while i < plugins_to_add.len()
                invariant
                    i <= plugins_to_add.len(),
                    listed.len() == i,
                    forall|j: int| 0 <= j < i ==> listed@[j]@ == plugins_to_add@[j]@,
                decreases plugins_to_add.len() - i,
            {
                listed.push(chars_of(plugins_to_add[i]));
                i += 1;
            }
            assert(texts(listed@) =~= required);
            lines.insert(insert_at, render_plugins_line(&listed));
            assert(line_texts(lines@) =~= line_texts(old(lines)@).insert(
                insert_at as int,
                plugins_line(required),
            ));
        }
    }

    /// Appends an export block for `key` unless some line already sets or
    /// exports `key`, whatever its value.
    pub fn ensure_export(&self, lines: &mut Vec<String>, key: &str, value: &str)
        ensures
            line_texts(final(lines)@) == with_export(line_texts(old(lines)@), key@, value@),
    {
        if !has_export_line(lines, key) {
            lines.push(String::new());
            lines.push("# Added by mac-setup".to_owned());
            lines.push("export ".to_owned().concat(key).concat("=").concat(value));
            assert(line_texts(lines@) =~= line_texts(old(lines)@) + export_block(key@, value@));
        }
    }

    /// The rc file text with the theme set, the plugins present and the
    /// exports ensured; lines that the patch does not touch keep their order.
    /// A theme line and a plugins line that are both missing are placed at
    /// the same point, the theme line first.
    pub fn modify_zshrc_content(
        &self,
        content: &str,
        theme: &str,
        plugins_to_add: &[&str],
        env_vars: &[(&str, &str)],
    ) -> (patched: String)
        ensures
            patched@ == patched_text(
                content@,
                theme@,
                slice_texts(plugins_to_add@),
                pair_texts(env_vars@),
            ),
    {
        let mut lines = strings_of(&lines_of(&chars_of(content)));
        let at = find_insertion_point(&lines);
        let theme_line = "ZSH_THEME=\"".to_owned().concat(theme).concat("\"");
        let inserted = self.place_line(&mut lines, "ZSH_THEME", theme_line.as_str(), at);
        let next = if inserted {
            at + 1
        } else {
            at
        };
        self.place_plugins(&mut lines, plugins_to_add, next);
        let ghost base = line_texts(lines@);
        let ghost exports = pair_texts(env_vars@);
        let mut i: usize = 0;
        assert(exports.take(0) =~= Seq::<(Seq<char>, Seq<char>)>::empty());
        while i < env_vars.len()
            invariant
                i <= env_vars.len(),
                exports == pair_texts(env_vars@),
                line_texts(lines@) == with_exports(base, exports.take(i as int)),
            decreases env_vars.len() - i,
        {
            proof {
                assert(exports.take(i + 1).drop_last() =~= exports.take(i as int));
            }
            self.ensure_export(&mut lines, env_vars[i].0, env_vars[i].1);
            i += 1;
        }
        assert(exports.take(exports.len() as int) =~= exports);
        string_of(&text_of_lines(&texts_of(&lines)))
    }
}

/// The texts of a vector of pairs of strings.
pub open spec fn owned_pair_texts(v: Seq<(String, String)>) -> Seq<(Seq<char>, Seq<char>)> {
    Seq::new(v.len(), |i: int| (v[i].0@, v[i].1@))
}

/// Where the rc file lies.
pub open spec fn rc_path() -> Seq<char> {
    "~/.zshrc"@
}

/// The failure of reading the rc file, given the host's reply.
pub open spec fn read_failure(reply: ReplyView) -> SetupErrorView {
    match reply {
        ReplyView::IoFailure(msg) => SetupErrorView::IoError("Failed to read .zshrc: "@ + msg),
        _ => SetupErrorView::IoError("Failed to read .zshrc: "@ + stray_reply_text()),
    }
}

/// The failure of writing the rc file, given the host's reply.
pub open spec fn write_failure(reply: ReplyView) -> SetupErrorView {
    match reply {
        ReplyView::IoFailure(msg) => SetupErrorView::IoError("Failed to write .zshrc: "@ + msg),
        _ => SetupErrorView::IoError("Failed to write .zshrc: "@ + stray_reply_text()),
    }
}

/// What is printed when the patch of the rc file starts.
pub open spec fn starting_notice() -> Seq<char> {
    "Configuring .zshrc at \"~/.zshrc\"...\n"@
}

/// The line that tells of one export of the directive.
pub open spec fn export_notice(export: (Seq<char>, Seq<char>)) -> Seq<char> {
    "  - Export "@ + export.0 + "="@ + export.1 + "\n"@
}

/// What is printed when the patched rc file has been written: that it was
/// configured, and the theme, the plugins and each export of the directive.
pub open spec fn configured_notice(
    theme: Seq<char>,
    plugins: Seq<Seq<char>>,
    exports: Seq<(Seq<char>, Seq<char>)>,
) -> Seq<Seq<char>> {
    seq![
        ".zshrc configured successfully\n"@,
        "  - Theme set to: "@ + theme + "\n"@,
        "  - Plugins: "@ + join(plugins, ", "@) + "\n"@,
    ] + Seq::new(exports.len(), |i: int| export_notice(exports[i]))
}

/// The details of a reply that tells of no success.
fn failure_details(reply: &Reply) -> (msg: String)
    ensures
        msg@ == match reply@ {
            ReplyView::IoFailure(m) => m,
            _ => stray_reply_text(),
        },
{
    match reply {
        Reply::IoFailure(m) => m.clone(),
        _ => "the reply does not answer the request".to_owned(),
    }
}

impl Default for ZshrcConfigurator {
    fn default() -> (r: ZshrcConfigurator)
        ensures
            r.theme@ == "stefc"@,
            line_texts(r.plugins@) == seq!["z"@, "gh"@],
            owned_pair_texts(r.env_vars@) == seq![("HOMEBREW_NO_AUTO_UPDATE"@, "1"@)],
    {
        let mut plugins: Vec<String> = Vec::new();
        plugins.push("z".to_owned());
        plugins.push("gh".to_owned());
        let mut env_vars: Vec<(String, String)> = Vec::new();
        env_vars.push(("HOMEBREW_NO_AUTO_UPDATE".to_owned(), "1".to_owned()));
        assert(line_texts(plugins@) =~= seq!["z"@, "gh"@]);
        assert(owned_pair_texts(env_vars@) =~= seq![("HOMEBREW_NO_AUTO_UPDATE"@, "1"@)]);
        ZshrcConfigurator { theme: "stefc".to_owned(), plugins, env_vars }
    }
}

impl ZshrcConfigurator {
    /// The rc file text after this configurator's patch.
    pub open spec fn patched(&self, content: Seq<char>) -> Seq<char> {
        patched_text(
            content,
            self.theme@,
            line_texts(self.plugins@),
            owned_pair_texts(self.env_vars@),
        )
    }

    /// What is printed, beside the report, of the host's reply to what the
    /// configurator asked last: the start of the patch when the probe found
    /// the rc file, the directive when the patched file has been written,
    /// nothing otherwise.
    pub open spec fn printed_spec(&self, progress: ProgressView, reply: ReplyView) -> Seq<
        Seq<char>,
    > {
        if progress.stage == Stage::Probing && reply == ReplyView::Exists(true) {
            seq![starting_notice()]
        } else if progress.stage == Stage::Acting && progress.ran && progress.cursor != 0 && reply
            == ReplyView::Written {
            configured_notice(
                self.theme@,
                line_texts(self.plugins@),
                owned_pair_texts(self.env_vars@),
            )
        } else {
            Seq::empty()
        }
    }

    /// What the host prints, beside the report, of its reply to what the
    /// configurator asked last. `progress` is the progress before the reply
    /// is taken.
    pub fn printed(&self, progress: &Progress, reply: &Reply) -> (chunks: Vec<String>)
        ensures
            line_texts(chunks@) == self.printed_spec(progress@, reply@),
    {
        let mut chunks: Vec<String> = Vec::new();
        let written = match reply {
            Reply::Written => true,
            _ => false,
        };
        match progress.stage {
            Stage::Probing => {
                if reply.is_present() {
                    chunks.push("Configuring .zshrc at \"~/.zshrc\"...\n".to_owned());
                }
            },
            Stage::Acting => {
                if progress.ran && progress.cursor != 0 && written {
                    chunks.push(".zshrc configured successfully\n".to_owned());
                    chunks.push(
                        "  - Theme set to: ".to_owned().concat(self.theme.as_str()).concat("\n"),
                    );
                    let listed = join_texts(&texts_of(&self.plugins), &chars_of(", "));
                    chunks.push(
                        "  - Plugins: ".to_owned().concat(string_of(&listed).as_str()).concat("\n"),
                    );
                    let ghost head = line_texts(chunks@);
                    let ghost exports = owned_pair_texts(self.env_vars@);
                    let mut i: usize = 0;
                    while i < self.env_vars.len()
                        invariant
                            i <= self.env_vars.len(),
                            exports == owned_pair_texts(self.env_vars@),
                            line_texts(chunks@) == head + Seq::new(
                                i as nat,
                                |j: int| export_notice(exports[j]),
                            ),
                        decreases self.env_vars.len() - i,
                    {
                        let ghost before = line_texts(chunks@);
                        chunks.push(
                            "  - Export ".to_owned().concat(self.env_vars[i].0.as_str()).concat(
                                "=",
                            ).concat(self.env_vars[i].1.as_str()).concat("\n"),
                        );
                        assert(line_texts(chunks@) =~= before.push(export_notice(exports[i as int])));
                        assert(line_texts(chunks@) =~= head + Seq::new(
                            (i + 1) as nat,
                            |j: int| export_notice(exports[j]),
                        ));
                        i += 1;
                    }
                    assert(line_texts(chunks@) =~= configured_notice(
                        self.theme@,
                        line_texts(self.plugins@),
                        exports,
                    ));
                }
            },
            _ => {},
        }
        assert(line_texts(chunks@) =~= self.printed_spec(progress@, reply@));
        chunks
    }

    /// Check if the rc file exists, as the host's reply to the probe tells.
    pub fn file_exists(&self, reply: &Reply) -> (present: bool)
        ensures
            present == (reply@ == ReplyView::Exists(true)),
    {
        reply.is_present()
    }

    /// The rc file text with this configurator's theme set, its plugins
    /// present and its exports ensured.
    pub fn run_configure(&self, content: &str) -> (patched: String)
        ensures
            patched@ == self.patched(content@),
    {
        let mut plugins: Vec<&str> = Vec::new();
        let mut i: usize = 0;
        while i < self.plugins.len()
            invariant
                i <= self.plugins.len(),
                plugins.len() == i,
                forall|j: int| 0 <= j < i ==> plugins@[j]@ == self.plugins@[j]@,
            decreases self.plugins.len() - i,
        {
            plugins.push(self.plugins[i].as_str());
            i += 1;
        }
        let mut env_vars: Vec<(&str, &str)> = Vec::new();
        let mut k: usize = 0;
        while k < self.env_vars.len()
            invariant
                k <= self.env_vars.len(),
                env_vars.len() == k,
                forall|j: int|
                    0 <= j < k ==> env_vars@[j].0@ == self.env_vars@[j].0@ && env_vars@[j].1@
                        == self.env_vars@[j].1@,
            decreases self.env_vars.len() - k,
        {
            env_vars.push((self.env_vars[k].0.as_str(), self.env_vars[k].1.as_str()));
            k += 1;
        }
        assert(slice_texts(plugins@) =~= line_texts(self.plugins@));
        assert(pair_texts(env_vars@) =~= owned_pair_texts(self.env_vars@));
        self.modify_zshrc_content(
            content,
            self.theme.as_str(),
            plugins.as_slice(),
            env_vars.as_slice(),
        )
    }

    /// One turn of acting for a configurator that is due: started, it asks
    /// for the rc file to be read; given the file's text, it asks for the
    /// patched text to be written; given the reply to the write, it ends. A
    /// failed read or write ends it with an I/O failure, and nothing is
    /// written after a failed read.
    pub open spec fn due_act(&self, progress: ProgressView, reply: Option<ReplyView>) -> Turn {
        let ended = ProgressView { stage: Stage::Finished, ..progress };
        match reply {
            None => Turn {
                progress: ProgressView { stage: Stage::Acting, cursor: 0, ..progress },
                added: Seq::empty(),
                step: StepView::Ask(RequestView::ReadFile(rc_path())),
            },
            Some(r) => if progress.cursor == 0 {
                match r {
                    ReplyView::Content(text) => Turn {
                        progress: ProgressView { stage: Stage::Acting, cursor: 1, ..progress },
                        added: Seq::empty(),
                        step: StepView::Ask(
                            RequestView::WriteFile {
                                path: rc_path(),
                                content: self.patched(text),
                            },
                        ),
                    },
                    _ => Turn {
                        progress: ended,
                        added: Seq::empty(),
                        step: StepView::Done(Err(read_failure(r))),
                    },
                }
            } else {
                match r {
                    ReplyView::Written => Turn {
                        progress: ended,
                        added: Seq::empty(),
                        step: StepView::Done(Ok(())),
                    },
                    _ => Turn {
                        progress: ended,
                        added: Seq::empty(),
                        step: StepView::Done(Err(write_failure(r))),
                    },
                }
            },
        }
    }
}

impl Configurator for ZshrcConfigurator {
    open spec fn label(&self) -> Seq<char> {
        "ZSH"@
    }

    open spec fn probe_spec(&self) -> RequestView {
        RequestView::PathExists(rc_path())
    }

    open spec fn detected_spec(&self, reply: ReplyView) -> bool {
        reply == ReplyView::Exists(true)
    }

    open spec fn listing_spec(&self) -> Option<RequestView> {
        None
    }

    open spec fn should_run_spec(&self, present: bool, listing: Seq<char>) -> bool {
        present
    }

    open spec fn act(&self, progress: ProgressView, reply: Option<ReplyView>) -> Turn {
        if progress.ran {
            self.due_act(progress, reply)
        } else {
            idle(progress)
        }
    }

    proof fn acting_undue_is_idle(&self, progress: ProgressView, reply: Option<ReplyView>) {
    }

    open spec fn files(&self) -> Seq<Seq<char>> {
        Seq::empty()
    }

    fn name(&self) -> (name: &'static str) {
        "ZSH"
    }

    fn probe(&self) -> (request: Request) {
        Request::PathExists("~/.zshrc".to_owned())
    }

    fn detected(&self, reply: &Reply) -> (present: bool) {
        self.file_exists(reply)
    }

    fn listing(&self) -> (query: Option<Request>) {
        None
    }

    fn should_run(&self, present: bool, listing: &str) -> (due: bool) {
        present
    }

    fn configure<L: Log>(&self, progress: &mut Progress, logger: &mut L, reply: Option<&Reply>) -> (step: Step) {
        assert(logger.lines() + Seq::<LogLineView>::empty() =~= logger.lines());
        if !progress.ran {
            return Step::Done(Ok(()));
        }
        match reply {
            None => {
                progress.stage = Stage::Acting;
                progress.cursor = 0;
                Step::Ask(Request::ReadFile("~/.zshrc".to_owned()))
            },
            Some(r) => {
                if progress.cursor == 0 {
                    match r {
                        Reply::Content(text) => {
                            progress.stage = Stage::Acting;
                            progress.cursor = 1;
                            Step::Ask(
                                Request::WriteFile {
                                    path: "~/.zshrc".to_owned(),
                                    content: self.run_configure(text.as_str()),
                                },
                            )
                        },
                        _ => {
                            progress.stage = Stage::Finished;
                            Step::Done(
                                Err(
                                    SetupError::IoError(
                                        "Failed to read .zshrc: ".to_owned().concat(
                                            failure_details(r).as_str(),
                                        ),
                                    ),
                                ),
                            )
                        },
                    }
                } else {
                    progress.stage = Stage::Finished;
                    match r {
                        Reply::Written => Step::Done(Ok(())),
                        _ => Step::Done(
                            Err(
                                SetupError::IoError(
                                    "Failed to write .zshrc: ".to_owned().concat(
                                        failure_details(r).as_str(),
                                    ),
                                ),
                            ),
                        ),
                    }
                }
            },
        }
    }

    fn affected_files(&self) -> (files: Vec<String>) {
        let files: Vec<String> = Vec::new();
        assert(file_texts(files@) =~= Seq::<Seq<char>>::empty());
        files
    }
}

} // verus!
