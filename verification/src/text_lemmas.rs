//! Facts about splitting and joining that the patch laws rest on.

use crate::text::{
    find_char, is_char, is_clean_line, is_space, is_word, join, lemma_scan, lemma_scan_is,
    lemma_scan_shift, lines_from, not_space, skip_space, skip_word, space, split_lines,
    strip_cr, unlines,
    words, words_from,
};
use vstd::prelude::*;

verus! {

/// The words found in the second part of a concatenation are the words of
/// that part.
pub proof fn lemma_words_shift(p: Seq<char>, s: Seq<char>, k: int)
    requires
        0 <= k <= s.len(),
    ensures
        words_from(p + s, p.len() + k) == words_from(s, k),
    decreases s.len() - k,
{
    let a = skip_space(s, k);
    lemma_scan(s, not_space(), k);
    lemma_scan_shift(p, s, not_space(), k);
    let b = skip_word(s, a);
    lemma_scan(s, space(), a);
    lemma_scan_shift(p, s, space(), a);
    if a < b {
        lemma_words_shift(p, s, b);
        assert((p + s).subrange(p.len() + a, p.len() + b) =~= s.subrange(a, b));
    }
}

/// A whitespace character at `from` belongs to no word.
pub proof fn lemma_words_skip_space(s: Seq<char>, from: int)
    requires
        0 <= from < s.len(),
        is_space(s[from]),
    ensures
        words_from(s, from) == words_from(s, from + 1),
{
    lemma_scan(s, not_space(), from + 1);
}

/// Every word of a text is a word, and holds only characters of the text.
pub proof fn lemma_words_keep(s: Seq<char>, from: int, ok: spec_fn(char) -> bool)
    requires
        0 <= from <= s.len(),
        forall|i: int| 0 <= i < s.len() ==> ok(#[trigger] s[i]),
    ensures
        forall|i: int|
            0 <= i < words_from(s, from).len() ==> is_word(#[trigger] words_from(s, from)[i]),
        forall|i: int, j: int|
            0 <= i < words_from(s, from).len() && 0 <= j < words_from(s, from)[i].len() ==> ok(
                #[trigger] words_from(s, from)[i][j],
            ),
    decreases s.len() - from,
{
    let a = skip_space(s, from);
    lemma_scan(s, not_space(), from);
    let b = skip_word(s, a);
    lemma_scan(s, space(), a);
    if a < b {
        lemma_words_keep(s, b, ok);
        let w = s.subrange(a, b);
        let rest = words_from(s, b);
        assert(words_from(s, from) == seq![w] + rest);
        assert forall|j: int| 0 <= j < w.len() implies !is_space(#[trigger] w[j]) && ok(w[j]) by {
            assert(w[j] == s[a + j]);
        }
        assert forall|i: int| 0 <= i < words_from(s, from).len() implies is_word(
            #[trigger] words_from(s, from)[i],
        ) by {
            if i > 0 {
                assert(words_from(s, from)[i] == rest[i - 1]);
            }
        }
        assert forall|i: int, j: int|
            0 <= i < words_from(s, from).len() && 0 <= j < words_from(s, from)[i].len() implies ok(
            #[trigger] words_from(s, from)[i][j],
        ) by {
            if i > 0 {
                assert(words_from(s, from)[i] == rest[i - 1]);
            }
        }
    }
}

/// The characters of a joined text come from its items and its separator.
pub proof fn lemma_join_keep(items: Seq<Seq<char>>, sep: Seq<char>, ok: spec_fn(char) -> bool)
    requires
        forall|i: int, j: int|
            0 <= i < items.len() && 0 <= j < items[i].len() ==> ok(#[trigger] items[i][j]),
        forall|j: int| 0 <= j < sep.len() ==> ok(#[trigger] sep[j]),
    ensures
        forall|j: int| 0 <= j < join(items, sep).len() ==> ok(#[trigger] join(items, sep)[j]),
    decreases items.len(),
{
    if items.len() >= 2 {
        let rest = items.drop_first();
        assert forall|i: int, j: int| 0 <= i < rest.len() && 0 <= j < rest[i].len() implies ok(
            #[trigger] rest[i][j],
        ) by {
            assert(rest[i] == items[i + 1]);
        }
        lemma_join_keep(rest, sep, ok);
        let head = items[0] + sep;
        assert forall|j: int| 0 <= j < join(items, sep).len() implies ok(
            #[trigger] join(items, sep)[j],
        ) by {
            if j < items[0].len() {
                assert(join(items, sep)[j] == items[0][j]);
            } else if j < head.len() {
                assert(join(items, sep)[j] == sep[j - items[0].len()]);
            } else {
                assert(join(items, sep)[j] == join(rest, sep)[j - head.len()]);
            }
        }
    }
}

/// Joining words with single spaces and splitting the result at whitespace
/// gives the words back.
pub proof fn lemma_words_of_join(tokens: Seq<Seq<char>>)
    requires
        forall|i: int| 0 <= i < tokens.len() ==> is_word(#[trigger] tokens[i]),
    ensures
        words(join(tokens, seq![' '])) == tokens,
    decreases tokens.len(),
{
    let sep = seq![' '];
    let joined = join(tokens, sep);
    if tokens.len() == 0 {
        assert(words(joined) =~= tokens);
    } else {
        let first = tokens[0];
        assert(is_word(first));
        if tokens.len() == 1 {
            lemma_scan_is(joined, space(), 0, first.len() as int);
            assert(joined.subrange(0, first.len() as int) =~= first);
            assert(words_from(joined, joined.len() as int) =~= Seq::<Seq<char>>::empty());
            assert(words(joined) =~= tokens);
        } else {
            let rest = tokens.drop_first();
            assert forall|i: int| 0 <= i < rest.len() implies is_word(#[trigger] rest[i]) by {
                assert(rest[i] == tokens[i + 1]);
            }
            lemma_words_of_join(rest);
            let tail = join(rest, sep);
            let head = first + sep;
            assert(joined =~= head + tail);
            assert(joined[first.len() as int] == ' ');
            assert forall|i: int| 0 <= i < first.len() implies !is_space(#[trigger] joined[i]) by {
                assert(joined[i] == first[i]);
            }
            lemma_scan_is(joined, space(), 0, first.len() as int);
            assert(joined.subrange(0, first.len() as int) =~= first);
            lemma_words_skip_space(joined, first.len() as int);
            lemma_words_shift(head, tail, 0);
            assert(words(joined) =~= seq![first] + rest);
            assert(seq![first] + rest =~= tokens);
        }
    }
}

/// The lines found in the second part of a concatenation are the lines of
/// that part.
pub proof fn lemma_lines_shift(p: Seq<char>, s: Seq<char>, k: int)
    requires
        0 <= k <= s.len(),
    ensures
        lines_from(p + s, p.len() + k) == lines_from(s, k),
    decreases s.len() - k,
{
    let n = find_char(s, '\n', k);
    lemma_scan(s, is_char('\n'), k);
    lemma_scan_shift(p, s, is_char('\n'), k);
    if n < s.len() {
        lemma_lines_shift(p, s, n + 1);
        assert((p + s).subrange(p.len() + k, p.len() + n) =~= s.subrange(k, n));
    } else if k < s.len() {
        assert((p + s).subrange(p.len() + k, (p + s).len() as int) =~= s.subrange(
            k,
            s.len() as int,
        ));
    }
}

/// No line of a text holds a line feed.
pub proof fn lemma_lines_hold_no_feed(t: Seq<char>, from: int)
    requires
        0 <= from <= t.len(),
    ensures
        forall|i: int, j: int|
            0 <= i < lines_from(t, from).len() && 0 <= j < lines_from(t, from)[i].len()
                ==> #[trigger] lines_from(t, from)[i][j] != '\n',
    decreases t.len() - from,
{
    let n = find_char(t, '\n', from);
    lemma_scan(t, is_char('\n'), from);
    if n < t.len() {
        lemma_lines_hold_no_feed(t, n + 1);
        let raw = t.subrange(from, n);
        let line = strip_cr(raw);
        let rest = lines_from(t, n + 1);
        assert(lines_from(t, from) == seq![line] + rest);
        assert forall|j: int| 0 <= j < line.len() implies #[trigger] line[j] != '\n' by {
            assert(line[j] == raw[j]);
            assert(raw[j] == t[from + j]);
        }
        assert forall|i: int, j: int|
            0 <= i < lines_from(t, from).len() && 0 <= j < lines_from(
                t,
                from,
            )[i].len() implies #[trigger] lines_from(t, from)[i][j] != '\n' by {
            if i > 0 {
                assert(lines_from(t, from)[i] == rest[i - 1]);
            }
        }
    } else if from < t.len() {
        let line = t.subrange(from, t.len() as int);
        assert forall|j: int| 0 <= j < line.len() implies #[trigger] line[j] != '\n' by {
            assert(line[j] == t[from + j]);
        }
    }
}

/// Writing out clean lines and splitting the text again gives the lines back.
pub proof fn lemma_split_of_unlines(lines: Seq<Seq<char>>)
    requires
        lines.len() > 0,
        forall|i: int| 0 <= i < lines.len() ==> is_clean_line(#[trigger] lines[i]),
    ensures
        split_lines(unlines(lines)) == lines,
    decreases lines.len(),
{
    let feed = seq!['\n'];
    let text = unlines(lines);
    let first = lines[0];
    assert(is_clean_line(first));
    if lines.len() == 1 {
        assert(text =~= first + feed);
        lemma_scan_is(text, is_char('\n'), 0, first.len() as int);
        assert(text.subrange(0, first.len() as int) =~= first);
        assert(lines_from(text, text.len() as int) =~= Seq::<Seq<char>>::empty());
        assert(split_lines(text) =~= lines);
    } else {
        let rest = lines.drop_first();
        assert forall|i: int| 0 <= i < rest.len() implies is_clean_line(#[trigger] rest[i]) by {
            assert(rest[i] == lines[i + 1]);
        }
        lemma_split_of_unlines(rest);
        let head = first + feed;
        let tail = unlines(rest);
        assert(text =~= head + tail);
        assert(text[first.len() as int] == '\n');
        assert forall|i: int| 0 <= i < first.len() implies #[trigger] text[i] != '\n' by {
            assert(text[i] == first[i]);
        }
        lemma_scan_is(text, is_char('\n'), 0, first.len() as int);
        assert(text.subrange(0, first.len() as int) =~= first);
        lemma_lines_shift(head, tail, 0);
        assert(split_lines(text) =~= seq![first] + rest);
        assert(seq![first] + rest =~= lines);
    }
}

} // verus!
