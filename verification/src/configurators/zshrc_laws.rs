//! What holds of the rc file patch for every document and directive.

use crate::configurators::zshrc::{
    active_with, attribution_line, export_block, export_line, first_active, has_export,
    insertion_point, is_active, listed_plugins, mentions_key, merged, patched_lines,
    patched_text, plugins_line, plugins_prefix, theme_line, theme_prefix, with_export,
    with_exports, with_line, with_plugins,
};
use crate::text::{
    back_space, find_char, is_char, is_clean_line, is_space, is_word, join, lemma_back_space_bounds,
    lemma_scan, lemma_scan_is, lemma_trimmed_tight, skip_space, split_lines, trimmed,
    words,
};
use crate::text_lemmas::{
    lemma_join_keep, lemma_lines_hold_no_feed, lemma_split_of_unlines, lemma_words_keep,
    lemma_words_of_join,
};
use vstd::prelude::*;

verus! {

/// A text without a line feed.
pub open spec fn is_single_line(s: Seq<char>) -> bool {
    forall|i: int| 0 <= i < s.len() ==> #[trigger] s[i] != '\n'
}

/// A plugin name that a plugins line can hold: a word without `)`.
pub open spec fn is_plugin_name(p: Seq<char>) -> bool {
    is_word(p) && forall|i: int| 0 <= i < p.len() ==> #[trigger] p[i] != ')'
}

/// A directive whose lines are read back as they were written: the theme and
/// the export keys hold no line feed, the export values are clean lines, and
/// every plugin is a plugin name.
pub open spec fn is_plain_directive(
    theme: Seq<char>,
    plugins: Seq<Seq<char>>,
    exports: Seq<(Seq<char>, Seq<char>)>,
) -> bool {
    &&& is_single_line(theme)
    &&& forall|i: int| 0 <= i < plugins.len() ==> is_plugin_name(#[trigger] plugins[i])
    &&& forall|i: int|
        0 <= i < exports.len() ==> is_single_line((#[trigger] exports[i]).0) && is_clean_line(
            exports[i].1,
        )
}

/// The canonical theme line is an active theme line, no plugins line, and
/// clean when the theme holds no line feed.
pub proof fn lemma_theme_line_shape(theme: Seq<char>)
    ensures
        is_active(theme_line(theme), theme_prefix()),
        !is_active(theme_line(theme), plugins_prefix()),
        is_single_line(theme) ==> is_clean_line(theme_line(theme)),
{
    reveal_strlit("ZSH_THEME");
    reveal_strlit("ZSH_THEME=\"");
    reveal_strlit("\"");
    reveal_strlit("plugins=");
    let line = theme_line(theme);
    let head = "ZSH_THEME=\""@;
    assert(line[0] == head[0]);
    assert(line.last() == '"');
    lemma_trimmed_tight(line);
    assert(line.subrange(0, 9) =~= theme_prefix());
    assert(line.subrange(0, 8)[0] == 'Z');
    assert(plugins_prefix()[0] == 'p');
    if is_single_line(theme) {
        assert forall|i: int| 0 <= i < line.len() implies #[trigger] line[i] != '\n' by {
            if i < head.len() {
                assert(line[i] == head[i]);
            } else if i < head.len() + theme.len() {
                assert(line[i] == theme[i - head.len()]);
            }
        }
    }
}

/// The canonical plugins line of plugin names is an active plugins line, no
/// theme line, clean, and lists exactly those names.
pub proof fn lemma_plugins_line_shape(plugins: Seq<Seq<char>>)
    requires
        forall|i: int| 0 <= i < plugins.len() ==> is_plugin_name(#[trigger] plugins[i]),
    ensures
        is_active(plugins_line(plugins), plugins_prefix()),
        !is_active(plugins_line(plugins), theme_prefix()),
        is_clean_line(plugins_line(plugins)),
        listed_plugins(plugins_line(plugins)) == plugins,
{
    reveal_strlit("ZSH_THEME");
    reveal_strlit("plugins=(");
    reveal_strlit(")");
    reveal_strlit(" ");
    reveal_strlit("plugins=");
    let line = plugins_line(plugins);
    let head = "plugins=("@;
    let listed = join(plugins, " "@);
    assert(" "@ =~= seq![' ']);
    assert(line[0] == head[0]);
    assert(line.last() == ')');
    lemma_trimmed_tight(line);
    assert(line.subrange(0, 8) =~= plugins_prefix());
    assert(line.subrange(0, 9)[0] == 'p');
    assert(theme_prefix()[0] == 'Z');
    let plain = |c: char| c != ')' && c != '\n';
    assert forall|i: int, j: int|
        0 <= i < plugins.len() && 0 <= j < plugins[i].len() implies plain(
        #[trigger] plugins[i][j],
    ) by {
        assert(is_plugin_name(plugins[i]));
        assert(!is_space(plugins[i][j]));
    }
    lemma_join_keep(plugins, " "@, plain);
    assert forall|i: int| 0 <= i < line.len() implies #[trigger] line[i] != '\n' by {
        if i < head.len() {
            assert(line[i] == head[i]);
        } else if i < head.len() + listed.len() {
            assert(line[i] == listed[i - head.len()]);
            assert(plain(listed[i - head.len()]));
        }
    }
    // the first `(` ends the head, the first `)` ends the line
    assert forall|i: int| 0 <= i < 8 implies !is_char('(')(#[trigger] line[i]) by {
        assert(line[i] == head[i]);
    }
    assert(line[8] == head[8]);
    lemma_scan_is(line, is_char('('), 0, 8);
    let close = line.len() - 1;
    assert forall|i: int| 0 <= i < close implies !is_char(')')(#[trigger] line[i]) by {
        if i < head.len() {
            assert(line[i] == head[i]);
        } else {
            assert(line[i] == listed[i - head.len()]);
            assert(plain(listed[i - head.len()]));
        }
    }
    lemma_scan_is(line, is_char(')'), 0, close);
    assert(line.subrange(9, close) =~= listed);
    assert forall|i: int| 0 <= i < plugins.len() implies is_word(#[trigger] plugins[i]) by {
        assert(is_plugin_name(plugins[i]));
    }
    lemma_words_of_join(plugins);
}

/// Every plugin that a line lists is a plugin name.
pub proof fn lemma_listed_are_names(line: Seq<char>)
    ensures
        forall|i: int|
            0 <= i < listed_plugins(line).len() ==> is_plugin_name(
                #[trigger] listed_plugins(line)[i],
            ),
{
    let a = find_char(line, '(', 0);
    let b = find_char(line, ')', 0);
    lemma_scan(line, is_char(')'), 0);
    if 0 <= a < b < line.len() {
        let inner = line.subrange(a + 1, b);
        let plain = |c: char| c != ')';
        assert forall|i: int| 0 <= i < inner.len() implies plain(#[trigger] inner[i]) by {
            assert(inner[i] == line[a + 1 + i]);
            assert(!is_char(')')(line[a + 1 + i]));
        }
        lemma_words_keep(inner, 0, plain);
        assert forall|i: int| 0 <= i < words(inner).len() implies is_plugin_name(
            #[trigger] words(inner)[i],
        ) by {
            let w = words(inner)[i];
            assert(is_word(w));
            assert forall|j: int| 0 <= j < w.len() implies #[trigger] w[j] != ')' by {
                assert(plain(words(inner)[i][j]));
            }
        }
    }
}

/// Merging keeps what was there, in place, and ends with every required
/// item present; what it adds is required.
pub proof fn lemma_merged(existing: Seq<Seq<char>>, required: Seq<Seq<char>>)
    ensures
        existing.is_prefix_of(merged(existing, required)),
        forall|i: int| 0 <= i < required.len() ==> merged(existing, required).contains(
            #[trigger] required[i],
        ),
        forall|i: int|
            0 <= i < merged(existing, required).len() ==> existing.contains(
                #[trigger] merged(existing, required)[i],
            ) || required.contains(merged(existing, required)[i]),
    decreases required.len(),
{
    let all = merged(existing, required);
    if required.len() == 0 {
        assert(existing.subrange(0, existing.len() as int) =~= existing);
        assert forall|i: int| 0 <= i < all.len() implies existing.contains(#[trigger] all[i]) by {
            assert(existing[i] == all[i]);
        }
    } else {
        let front = required.drop_last();
        let sofar = merged(existing, front);
        lemma_merged(existing, front);
        assert(all.subrange(0, existing.len() as int) =~= sofar.subrange(
            0,
            existing.len() as int,
        ));
        assert forall|i: int| 0 <= i < required.len() implies all.contains(
            #[trigger] required[i],
        ) by {
            if i < front.len() {
                assert(front[i] == required[i]);
                let at = choose|j: int| 0 <= j < sofar.len() && sofar[j] == front[i];
                assert(all[at] == required[i]);
            } else if sofar.contains(required.last()) {
            } else {
                assert(all[sofar.len() as int] == required[i]);
            }
        }
        assert forall|i: int| 0 <= i < all.len() implies existing.contains(#[trigger] all[i])
            || required.contains(all[i]) by {
            if i < sofar.len() {
                assert(all[i] == sofar[i]);
                if !existing.contains(sofar[i]) {
                    let at = choose|j: int| 0 <= j < front.len() && front[j] == sofar[i];
                    assert(required[at] == all[i]);
                }
            } else {
                assert(all[i] == required[required.len() - 1]);
            }
        }
    }
}

/// Merging items that are all present already changes nothing.
pub proof fn lemma_merged_present(existing: Seq<Seq<char>>, required: Seq<Seq<char>>)
    requires
        forall|i: int| 0 <= i < required.len() ==> existing.contains(#[trigger] required[i]),
    ensures
        merged(existing, required) == existing,
    decreases required.len(),
{
    if required.len() > 0 {
        let front = required.drop_last();
        assert forall|i: int| 0 <= i < front.len() implies existing.contains(
            #[trigger] front[i],
        ) by {
            assert(front[i] == required[i]);
        }
        lemma_merged_present(existing, front);
        assert(existing.contains(required[required.len() - 1]));
    }
}

/// Where the first active line is: nothing before it is active, and it is.
pub proof fn lemma_first_active(lines: Seq<Seq<char>>, prefix: Seq<char>)
    ensures
        0 <= first_active(lines, prefix) <= lines.len(),
        forall|j: int|
            0 <= j < first_active(lines, prefix) ==> !is_active(#[trigger] lines[j], prefix),
        first_active(lines, prefix) < lines.len() ==> is_active(
            lines[first_active(lines, prefix)],
            prefix,
        ),
{
    lemma_scan(lines, active_with(prefix), 0);
    assert forall|j: int| 0 <= j < first_active(lines, prefix) implies !is_active(
        #[trigger] lines[j],
        prefix,
    ) by {
        assert(!active_with(prefix)(lines[j]));
    }
}

/// An active line with nothing active before it is the first active line.
pub proof fn lemma_first_active_is(lines: Seq<Seq<char>>, prefix: Seq<char>, k: int)
    requires
        0 <= k < lines.len(),
        is_active(lines[k], prefix),
        forall|j: int| 0 <= j < k ==> !is_active(#[trigger] lines[j], prefix),
    ensures
        first_active(lines, prefix) == k,
{
    assert forall|j: int| 0 <= j < k implies !active_with(prefix)(#[trigger] lines[j]) by {
        assert(!is_active(lines[j], prefix));
    }
    lemma_scan_is(lines, active_with(prefix), 0, k);
}

/// Replacing the first active line, or inserting where there is none, by an
/// active line leaves that line the first active one.
pub proof fn lemma_placed_is_first(
    lines: Seq<Seq<char>>,
    prefix: Seq<char>,
    new_line: Seq<char>,
    at: int,
) -> (k: int)
    requires
        0 <= at <= lines.len(),
        is_active(new_line, prefix),
    ensures
        k == first_active(with_line(lines, prefix, new_line, at), prefix),
        0 <= k < with_line(lines, prefix, new_line, at).len(),
        with_line(lines, prefix, new_line, at)[k] == new_line,
{
    let found = first_active(lines, prefix);
    let after = with_line(lines, prefix, new_line, at);
    lemma_first_active(lines, prefix);
    if found < lines.len() {
        assert forall|j: int| 0 <= j < found implies !is_active(#[trigger] after[j], prefix) by {
            assert(after[j] == lines[j]);
        }
        lemma_first_active_is(after, prefix, found);
        found
    } else {
        assert forall|j: int| 0 <= j < at implies !is_active(#[trigger] after[j], prefix) by {
            assert(after[j] == lines[j]);
        }
        lemma_first_active_is(after, prefix, at);
        at
    }
}

/// Placing a line for one prefix leaves the first active line of another
/// prefix what it was, when neither line is active for the other's prefix.
pub proof fn lemma_placed_keeps_other(
    lines: Seq<Seq<char>>,
    prefix: Seq<char>,
    new_line: Seq<char>,
    at: int,
    other: Seq<char>,
) -> (k: int)
    requires
        0 <= at <= lines.len(),
        first_active(lines, other) < lines.len(),
        !is_active(lines[first_active(lines, other)], prefix),
        !is_active(new_line, other),
    ensures
        k == first_active(with_line(lines, prefix, new_line, at), other),
        0 <= k < with_line(lines, prefix, new_line, at).len(),
        with_line(lines, prefix, new_line, at)[k] == lines[first_active(lines, other)],
{
    let kept = first_active(lines, other);
    let found = first_active(lines, prefix);
    let after = with_line(lines, prefix, new_line, at);
    lemma_first_active(lines, prefix);
    lemma_first_active(lines, other);
    if found < lines.len() {
        assert(found != kept);
        assert forall|j: int| 0 <= j < kept implies !is_active(#[trigger] after[j], other) by {
            if j != found {
                assert(after[j] == lines[j]);
            }
        }
        lemma_first_active_is(after, other, kept);
        kept
    } else if at <= kept {
        assert forall|j: int| 0 <= j < kept + 1 implies !is_active(#[trigger] after[j], other) by {
            if j < at {
                assert(after[j] == lines[j]);
            } else if j > at {
                assert(after[j] == lines[j - 1]);
            }
        }
        assert(after[kept + 1] == lines[kept]);
        lemma_first_active_is(after, other, kept + 1);
        kept + 1
    } else {
        assert forall|j: int| 0 <= j < kept implies !is_active(#[trigger] after[j], other) by {
            assert(after[j] == lines[j]);
        }
        assert(after[kept] == lines[kept]);
        lemma_first_active_is(after, other, kept);
        kept
    }
}

/// Lines added at the end leave the first active line what it was.
pub proof fn lemma_first_active_extended(
    lines: Seq<Seq<char>>,
    longer: Seq<Seq<char>>,
    prefix: Seq<char>,
)
    requires
        lines.is_prefix_of(longer),
        first_active(lines, prefix) < lines.len(),
    ensures
        first_active(longer, prefix) == first_active(lines, prefix),
        longer[first_active(lines, prefix)] == lines[first_active(lines, prefix)],
{
    let k = first_active(lines, prefix);
    lemma_first_active(lines, prefix);
    assert forall|j: int| 0 <= j <= k implies #[trigger] longer[j] == lines[j] by {
        assert(longer.subrange(0, lines.len() as int)[j] == lines[j]);
    }
    assert forall|j: int| 0 <= j < k implies !is_active(#[trigger] longer[j], prefix) by {
        assert(longer[j] == lines[j]);
    }
    lemma_first_active_is(longer, prefix, k);
}

/// A document all of whose lines are clean.
pub open spec fn is_clean_document(lines: Seq<Seq<char>>) -> bool {
    forall|i: int| 0 <= i < lines.len() ==> is_clean_line(#[trigger] lines[i])
}

/// An export line sets its own key, and is clean when its key holds no line
/// feed and its value is clean.
pub proof fn lemma_export_line_shape(key: Seq<char>, value: Seq<char>)
    ensures
        mentions_key(export_line(key, value), key),
        is_single_line(key) && is_clean_line(value) ==> is_clean_line(export_line(key, value)),
{
    reveal_strlit("export ");
    reveal_strlit("=");
    let line = export_line(key, value);
    let head = "export "@;
    let sign = (head.len() + key.len()) as int;
    assert(line[0] == head[0]);
    assert(line[sign] == '=');
    assert(skip_space(line, 0) == 0);
    lemma_back_space_bounds(line, line.len() as int);
    let end = back_space(line, line.len() as int);
    if end <= sign {
        assert(is_space(line[sign]));
    }
    assert(trimmed(line) == line.subrange(0, end));
    assert(trimmed(line).subrange(0, sign) =~= head + key);
    if is_single_line(key) && is_clean_line(value) {
        assert forall|i: int| 0 <= i < line.len() implies #[trigger] line[i] != '\n' by {
            if i < head.len() {
                assert(line[i] == head[i]);
            } else if i < sign {
                assert(line[i] == key[i - head.len()]);
            } else if i > sign {
                assert(line[i] == value[i - sign - 1]);
            }
        }
        if value.len() > 0 {
            assert(line.last() == value.last());
        }
    }
}

/// The lines of an export block are clean when its export line is.
pub proof fn lemma_export_block_clean(key: Seq<char>, value: Seq<char>)
    requires
        is_single_line(key),
        is_clean_line(value),
    ensures
        is_clean_document(export_block(key, value)),
{
    reveal_strlit("# Added by mac-setup");
    lemma_export_line_shape(key, value);
    let note = attribution_line();
    assert(note.last() == 'p');
    assert(is_clean_line(note));
    assert(is_clean_line(Seq::<char>::empty()));
}

/// Ensuring exports only adds lines at the end, leaves every key set or
/// exported, and keeps a clean document clean.
pub proof fn lemma_with_exports(lines: Seq<Seq<char>>, exports: Seq<(Seq<char>, Seq<char>)>)
    ensures
        lines.is_prefix_of(with_exports(lines, exports)),
        forall|i: int|
            0 <= i < exports.len() ==> has_export(
                with_exports(lines, exports),
                (#[trigger] exports[i]).0,
            ),
        is_clean_document(lines) && (forall|i: int|
            0 <= i < exports.len() ==> is_single_line((#[trigger] exports[i]).0) && is_clean_line(
                exports[i].1,
            )) ==> is_clean_document(with_exports(lines, exports)),
    decreases exports.len(),
{
    let all = with_exports(lines, exports);
    if exports.len() == 0 {
        assert(lines.subrange(0, lines.len() as int) =~= lines);
    } else {
        let front = exports.drop_last();
        let sofar = with_exports(lines, front);
        let key = exports.last().0;
        let value = exports.last().1;
        lemma_with_exports(lines, front);
        lemma_export_line_shape(key, value);
        let block = export_block(key, value);
        assert(all.subrange(0, lines.len() as int) =~= sofar.subrange(0, lines.len() as int));
        assert(sofar.is_prefix_of(all)) by {
            assert(all.subrange(0, sofar.len() as int) =~= sofar);
        }
        if !has_export(sofar, key) {
            assert(all[sofar.len() as int + 2] == export_line(key, value));
        }
        assert forall|i: int| 0 <= i < exports.len() implies has_export(
            all,
            (#[trigger] exports[i]).0,
        ) by {
            if i < front.len() {
                assert(front[i] == exports[i]);
                let at = choose|j: int|
                    0 <= j < sofar.len() && mentions_key(#[trigger] sofar[j], exports[i].0);
                assert(all[at] == sofar[at]);
            }
        }
        if is_clean_document(lines) && (forall|i: int|
            0 <= i < exports.len() ==> is_single_line((#[trigger] exports[i]).0) && is_clean_line(
                exports[i].1,
            )) {
            assert forall|i: int| 0 <= i < front.len() implies is_single_line(
                (#[trigger] front[i]).0,
            ) && is_clean_line(front[i].1) by {
                assert(front[i] == exports[i]);
            }
            assert(is_single_line(exports[exports.len() - 1].0));
            lemma_export_block_clean(key, value);
            assert forall|i: int| 0 <= i < all.len() implies is_clean_line(#[trigger] all[i]) by {
                if i < sofar.len() {
                    assert(all[i] == sofar[i]);
                } else {
                    assert(all[i] == block[i - sofar.len()]);
                }
            }
        }
    }
}

/// Ensuring exports whose keys are all set or exported already changes
/// nothing.
pub proof fn lemma_with_exports_present(
    lines: Seq<Seq<char>>,
    exports: Seq<(Seq<char>, Seq<char>)>,
)
    requires
        forall|i: int| 0 <= i < exports.len() ==> has_export(lines, (#[trigger] exports[i]).0),
    ensures
        with_exports(lines, exports) == lines,
    decreases exports.len(),
{
    if exports.len() > 0 {
        let front = exports.drop_last();
        assert forall|i: int| 0 <= i < front.len() implies has_export(
            lines,
            (#[trigger] front[i]).0,
        ) by {
            assert(front[i] == exports[i]);
        }
        lemma_with_exports_present(lines, front);
        assert(has_export(lines, exports[exports.len() - 1].0));
    }
}

/// Where the patch leaves its theme line and its plugins line, and what the
/// plugins line lists.
pub struct Patched {
    pub theme_at: int,
    pub plugins_at: int,
    pub listed: Seq<Seq<char>>,
}

/// After the patch the first active theme line is the canonical one, the
/// first active plugins line is canonical and lists every required plugin,
/// every export key is set or exported, and a clean document is still clean.
pub proof fn lemma_patched_shape(
    lines: Seq<Seq<char>>,
    theme: Seq<char>,
    plugins: Seq<Seq<char>>,
    exports: Seq<(Seq<char>, Seq<char>)>,
) -> (p: Patched)
    requires
        is_plain_directive(theme, plugins, exports),
    ensures
        ({
            let after = patched_lines(lines, theme, plugins, exports);
            &&& 0 <= p.theme_at < after.len()
            &&& p.theme_at == first_active(after, theme_prefix())
            &&& after[p.theme_at] == theme_line(theme)
            &&& 0 <= p.plugins_at < after.len()
            &&& p.plugins_at == first_active(after, plugins_prefix())
            &&& after[p.plugins_at] == plugins_line(p.listed)
            &&& forall|i: int| 0 <= i < p.listed.len() ==> is_plugin_name(#[trigger] p.listed[i])
            &&& forall|i: int| 0 <= i < plugins.len() ==> p.listed.contains(#[trigger] plugins[i])
            &&& forall|i: int|
                0 <= i < exports.len() ==> has_export(after, (#[trigger] exports[i]).0)
            &&& is_clean_document(lines) ==> is_clean_document(after)
        }),
{
    let at = insertion_point(lines);
    lemma_scan(lines, crate::configurators::zshrc::content(), 0);
    lemma_first_active(lines, theme_prefix());
    let banner = theme_line(theme);
    lemma_theme_line_shape(theme);
    let themed = with_line(lines, theme_prefix(), banner, at);
    let t1 = lemma_placed_is_first(lines, theme_prefix(), banner, at);
    let next = if first_active(lines, theme_prefix()) < lines.len() {
        at
    } else {
        at + 1
    };
    assert(0 <= next <= themed.len());
    // the plugins line
    let found = first_active(themed, plugins_prefix());
    lemma_first_active(themed, plugins_prefix());
    let listed = if found < themed.len() {
        merged(listed_plugins(themed[found]), plugins)
    } else {
        plugins
    };
    if found < themed.len() {
        let was = listed_plugins(themed[found]);
        lemma_listed_are_names(themed[found]);
        lemma_merged(was, plugins);
        assert forall|i: int| 0 <= i < listed.len() implies is_plugin_name(
            #[trigger] listed[i],
        ) by {
            if was.contains(listed[i]) {
                let j = choose|j: int| 0 <= j < was.len() && was[j] == listed[i];
                assert(is_plugin_name(was[j]));
            } else {
                let j = choose|j: int| 0 <= j < plugins.len() && plugins[j] == listed[i];
                assert(is_plugin_name(plugins[j]));
            }
        }
    } else {
        assert forall|i: int| 0 <= i < plugins.len() implies listed.contains(
            #[trigger] plugins[i],
        ) by {
            assert(listed[i] == plugins[i]);
        }
    }
    let roster = plugins_line(listed);
    lemma_plugins_line_shape(listed);
    let both = with_plugins(themed, plugins, next);
    assert(both == with_line(themed, plugins_prefix(), roster, next));
    let q2 = lemma_placed_is_first(themed, plugins_prefix(), roster, next);
    let t2 = lemma_placed_keeps_other(themed, plugins_prefix(), roster, next, theme_prefix());
    // the exports
    let after = with_exports(both, exports);
    lemma_with_exports(both, exports);
    lemma_first_active_extended(both, after, theme_prefix());
    lemma_first_active_extended(both, after, plugins_prefix());
    if is_clean_document(lines) {
        assert forall|i: int| 0 <= i < themed.len() implies is_clean_line(
            #[trigger] themed[i],
        ) by {
            if first_active(lines, theme_prefix()) < lines.len() {
                if i != first_active(lines, theme_prefix()) {
                    assert(themed[i] == lines[i]);
                }
            } else if i < at {
                assert(themed[i] == lines[i]);
            } else if i > at {
                assert(themed[i] == lines[i - 1]);
            }
        }
        assert forall|i: int| 0 <= i < both.len() implies is_clean_line(#[trigger] both[i]) by {
            if found < themed.len() {
                if i != found {
                    assert(both[i] == themed[i]);
                }
            } else if i < next {
                assert(both[i] == themed[i]);
            } else if i > next {
                assert(both[i] == themed[i - 1]);
            }
        }
    }
    Patched { theme_at: t2, plugins_at: q2, listed }
}

/// Applying the patch to a document that came out of the same patch changes
/// nothing.
pub proof fn lemma_patched_lines_idempotent(
    lines: Seq<Seq<char>>,
    theme: Seq<char>,
    plugins: Seq<Seq<char>>,
    exports: Seq<(Seq<char>, Seq<char>)>,
)
    requires
        is_plain_directive(theme, plugins, exports),
    ensures
        patched_lines(patched_lines(lines, theme, plugins, exports), theme, plugins, exports)
            == patched_lines(lines, theme, plugins, exports),
{
    let once = patched_lines(lines, theme, plugins, exports);
    let p = lemma_patched_shape(lines, theme, plugins, exports);
    let at = insertion_point(once);
    let themed = with_line(once, theme_prefix(), theme_line(theme), at);
    assert(themed =~= once);
    lemma_plugins_line_shape(p.listed);
    lemma_merged_present(p.listed, plugins);
    let both = with_plugins(themed, plugins, at);
    assert(both =~= once);
    lemma_with_exports_present(once, exports);
}

/// Idempotence: patching the output of a patch with the same directive gives
/// that output again, character for character. It is stated for directives
/// whose lines are read back as written and for documents none of whose
/// lines ends in a carriage return.
pub proof fn patch_is_idempotent(
    content: Seq<char>,
    theme: Seq<char>,
    plugins: Seq<Seq<char>>,
    exports: Seq<(Seq<char>, Seq<char>)>,
)
    requires
        is_plain_directive(theme, plugins, exports),
        forall|i: int|
            0 <= i < split_lines(content).len() ==> !(#[trigger] split_lines(content)[i].len() > 0
                && split_lines(content)[i].last() == '\r'),
    ensures
        patched_text(patched_text(content, theme, plugins, exports), theme, plugins, exports)
            == patched_text(content, theme, plugins, exports),
{
    let lines = split_lines(content);
    lemma_lines_hold_no_feed(content, 0);
    assert forall|i: int| 0 <= i < lines.len() implies is_clean_line(#[trigger] lines[i]) by {
        assert(!(lines[i].len() > 0 && lines[i].last() == '\r'));
        assert forall|j: int| 0 <= j < lines[i].len() implies #[trigger] lines[i][j] != '\n' by {
            assert(split_lines(content)[i][j] != '\n');
        }
    }
    let once = patched_lines(lines, theme, plugins, exports);
    let p = lemma_patched_shape(lines, theme, plugins, exports);
    lemma_split_of_unlines(once);
    lemma_patched_lines_idempotent(lines, theme, plugins, exports);
}

/// Theme replace-in-place: when line `k` is the first active theme line,
/// setting the theme gives a document of the same length in which line `k`
/// is the canonical theme line and every other line is untouched.
pub proof fn theme_is_replaced_in_place(
    lines: Seq<Seq<char>>,
    theme: Seq<char>,
    k: int,
    at: int,
)
    requires
        0 <= k < lines.len(),
        is_active(lines[k], theme_prefix()),
        forall|j: int| 0 <= j < k ==> !is_active(#[trigger] lines[j], theme_prefix()),
    ensures
        with_line(lines, theme_prefix(), theme_line(theme), at).len() == lines.len(),
        with_line(lines, theme_prefix(), theme_line(theme), at)[k] == theme_line(theme),
        forall|j: int|
            0 <= j < lines.len() && j != k ==> #[trigger] with_line(
                lines,
                theme_prefix(),
                theme_line(theme),
                at,
            )[j] == lines[j],
{
    lemma_first_active_is(lines, theme_prefix(), k);
}

/// Plugin union: merging keeps the listed plugins first and in their order,
/// ends with every required plugin present, and what it adds is required,
/// differs from everything before it, and so occurs once.
pub proof fn plugin_union_keeps_order_without_duplicates(
    existing: Seq<Seq<char>>,
    required: Seq<Seq<char>>,
)
    ensures
        existing.is_prefix_of(merged(existing, required)),
        forall|i: int| 0 <= i < required.len() ==> merged(existing, required).contains(
            #[trigger] required[i],
        ),
        forall|i: int|
            existing.len() <= i < merged(existing, required).len() ==> required.contains(
                #[trigger] merged(existing, required)[i],
            ),
        forall|i: int, j: int|
            existing.len() <= i < merged(existing, required).len() && 0 <= j < i
                ==> #[trigger] merged(existing, required)[i] != #[trigger] merged(
                existing,
                required,
            )[j],
    decreases required.len(),
{
    let all = merged(existing, required);
    lemma_merged(existing, required);
    if required.len() > 0 {
        let front = required.drop_last();
        let sofar = merged(existing, front);
        plugin_union_keeps_order_without_duplicates(existing, front);
        assert forall|i: int| existing.len() <= i < all.len() implies required.contains(
            #[trigger] all[i],
        ) by {
            if i < sofar.len() {
                assert(all[i] == sofar[i]);
                let at = choose|j: int| 0 <= j < front.len() && front[j] == sofar[i];
                assert(required[at] == all[i]);
            } else {
                assert(all[i] == required[required.len() - 1]);
            }
        }
        assert forall|i: int, j: int| existing.len() <= i < all.len() && 0 <= j < i implies #[trigger] all[i]
            != #[trigger] all[j] by {
            if i < sofar.len() {
                assert(all[i] == sofar[i] && all[j] == sofar[j]);
            } else {
                assert(all[j] == sofar[j]);
                assert(!sofar.contains(required.last()));
            }
        }
    }
}

/// Export non-clobber: when some line already sets or exports the key,
/// ensuring the export leaves the document as it is, whatever the values.
pub proof fn export_is_never_overwritten(lines: Seq<Seq<char>>, key: Seq<char>, value: Seq<char>)
    requires
        has_export(lines, key),
    ensures
        with_export(lines, key, value) == lines,
        with_exports(lines, seq![(key, value)]) == lines,
{
    let one = seq![(key, value)];
    assert(one.drop_last() =~= Seq::<(Seq<char>, Seq<char>)>::empty());
    assert(one.last() == (key, value));
    assert(with_exports(lines, one.drop_last()) == lines);
}

/// Missing-line insertion point: patching the empty document gives the theme
/// line, then the plugins line, then the export blocks that those two lines
/// leave to be added; nothing comes before the theme line.
pub proof fn empty_document_gets_theme_then_plugins(
    theme: Seq<char>,
    plugins: Seq<Seq<char>>,
    exports: Seq<(Seq<char>, Seq<char>)>,
)
    ensures
        patched_lines(Seq::empty(), theme, plugins, exports) == with_exports(
            seq![theme_line(theme), plugins_line(plugins)],
            exports,
        ),
        patched_lines(Seq::empty(), theme, plugins, exports).len() >= 2,
        patched_lines(Seq::empty(), theme, plugins, exports)[0] == theme_line(theme),
        patched_lines(Seq::empty(), theme, plugins, exports)[1] == plugins_line(plugins),
{
    let none = Seq::<Seq<char>>::empty();
    let banner = theme_line(theme);
    let roster = plugins_line(plugins);
    lemma_theme_line_shape(theme);
    let themed = with_line(none, theme_prefix(), banner, 0);
    assert(themed =~= seq![banner]);
    lemma_first_active(themed, plugins_prefix());
    assert(first_active(themed, plugins_prefix()) == 1) by {
        if first_active(themed, plugins_prefix()) < 1 {
            assert(themed[0] == banner);
        }
    }
    let both = with_plugins(themed, plugins, 1);
    assert(both =~= seq![banner, roster]);
    lemma_with_exports(both, exports);
    let after = with_exports(both, exports);
    assert(after.subrange(0, 2)[0] == both[0]);
    assert(after.subrange(0, 2)[1] == both[1]);
}

/// No reordering: replacing the first active line, or inserting a line
/// where there is none, leaves every other line where it was relative to
/// the others. Taking the placed line out of the result gives the document
/// without its first active line, or the document itself after an insertion.
pub proof fn placing_keeps_the_other_lines(
    lines: Seq<Seq<char>>,
    prefix: Seq<char>,
    new_line: Seq<char>,
    at: int,
)
    requires
        0 <= at <= lines.len(),
    ensures
        first_active(lines, prefix) < lines.len() ==> with_line(lines, prefix, new_line, at).remove(
            first_active(lines, prefix),
        ) == lines.remove(first_active(lines, prefix)),
        first_active(lines, prefix) >= lines.len() ==> with_line(lines, prefix, new_line, at).remove(
            at,
        ) == lines,
{
    let k = first_active(lines, prefix);
    lemma_first_active(lines, prefix);
    let after = with_line(lines, prefix, new_line, at);
    if k < lines.len() {
        assert(after.remove(k) =~= lines.remove(k));
    } else {
        assert(after.remove(at) =~= lines);
    }
}

} // verus!
