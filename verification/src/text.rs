//! Character-sequence primitives: whitespace, trimming, prefixes, searching,
//! splitting and joining. Everything is specified over `Seq<char>`.

use vstd::prelude::*;

verus! {

/// Appending one character to a `String` (`String::push`): the text grows by
/// exactly that character at its end.
pub assume_specification[ String::push ](s: &mut String, ch: char)
    ensures
        final(s)@ == old(s)@.push(ch),
;

/// Whether `c` has the Unicode property `White_Space`.
pub open spec fn is_space(c: char) -> bool {
    let u = c as u32;
    ||| 0x09 <= u <= 0x0D
    ||| u == 0x20
    ||| u == 0x85
    ||| u == 0xA0
    ||| u == 0x1680
    ||| 0x2000 <= u <= 0x200A
    ||| u == 0x2028
    ||| u == 0x2029
    ||| u == 0x202F
    ||| u == 0x205F
    ||| u == 0x3000
}

/// Tests a character for the Unicode property `White_Space`.
pub fn is_whitespace(c: char) -> (b: bool)
    ensures
        b == is_space(c),
{
    let u: u32 = c as u32;
    (0x09 <= u && u <= 0x0D) || u == 0x20 || u == 0x85 || u == 0xA0 || u == 0x1680 || (0x2000 <= u
        && u <= 0x200A) || u == 0x2028 || u == 0x2029 || u == 0x202F || u == 0x205F || u == 0x3000
}

/// The characters of a string slice, in order.
pub fn chars_of(s: &str) -> (out: Vec<char>)
    ensures
        out@ == s@,
{
    let mut out: Vec<char> = Vec::new();
    for c in it: s.chars()
        invariant
            it.seq() == s@,
            out@ == it.seq().take(it.index() as int),
    {
        out.push(c);
    }
    out
}

/// The string made of the given characters, in order.
pub fn string_of(chars: &Vec<char>) -> (out: String)
    ensures
        out@ == chars@,
{
    let mut out = String::new();
    let mut i: usize = 0;
    while i < chars.len()
        invariant
            i <= chars.len(),
            out@ == chars@.take(i as int),
        decreases chars.len() - i,
    {
        out.push(chars[i]);
        i += 1;
    }
    out
}

/// The first index at or after `from` whose item satisfies `stop`, or
/// the length of `s` when none does.
pub open spec fn scan<T>(s: Seq<T>, stop: spec_fn(T) -> bool, from: int) -> int
    decreases s.len() - from,
{
    if 0 <= from < s.len() && !stop(s[from]) {
        scan(s, stop, from + 1)
    } else {
        from
    }
}

/// The test for a character that is no whitespace.
pub open spec fn not_space() -> spec_fn(char) -> bool {
    |c: char| !is_space(c)
}

/// The test for a whitespace character.
pub open spec fn space() -> spec_fn(char) -> bool {
    |c: char| is_space(c)
}

/// The test for the character `c`.
pub open spec fn is_char(c: char) -> spec_fn(char) -> bool {
    |x: char| x == c
}

/// The first index at or after `from` that holds no whitespace, or the length
/// of `s` when only whitespace follows.
pub open spec fn skip_space(s: Seq<char>, from: int) -> int {
    scan(s, not_space(), from)
}

/// The first index at or after `from` that holds whitespace, or the length of
/// `s` when none follows.
pub open spec fn skip_word(s: Seq<char>, from: int) -> int {
    scan(s, space(), from)
}

/// The first index at or after `from` that holds `c`, or the length of `s`
/// when `c` does not occur there.
pub open spec fn find_char(s: Seq<char>, c: char, from: int) -> int {
    scan(s, is_char(c), from)
}

/// The end of the last run of non-whitespace that ends at or before `upto`:
/// the least index such that everything from it up to `upto` is whitespace.
pub open spec fn back_space(s: Seq<char>, upto: int) -> int
    decreases upto,
{
    if 0 < upto <= s.len() && is_space(s[upto - 1]) {
        back_space(s, upto - 1)
    } else {
        upto
    }
}

/// `s` without its leading and trailing whitespace.
pub open spec fn trimmed(s: Seq<char>) -> Seq<char> {
    let a = skip_space(s, 0);
    let b = back_space(s, s.len() as int);
    if a < b {
        s.subrange(a, b)
    } else {
        Seq::empty()
    }
}

/// A word: at least one character, none of them whitespace.
pub open spec fn is_word(t: Seq<char>) -> bool {
    t.len() > 0 && forall|i: int| 0 <= i < t.len() ==> !is_space(#[trigger] t[i])
}

/// The maximal runs of non-whitespace in `s` at or after `from`, in order.
pub open spec fn words_from(s: Seq<char>, from: int) -> Seq<Seq<char>>
    decreases s.len() - from,
{
    let a = skip_space(s, from);
    let b = skip_word(s, a);
    if 0 <= from <= a < b <= s.len() {
        seq![s.subrange(a, b)] + words_from(s, b)
    } else {
        Seq::empty()
    }
}

/// The whitespace-separated words of `s`, in order.
pub open spec fn words(s: Seq<char>) -> Seq<Seq<char>> {
    words_from(s, 0)
}

/// The items written one after another with `sep` between neighbours.
pub open spec fn join(items: Seq<Seq<char>>, sep: Seq<char>) -> Seq<char>
    decreases items.len(),
{
    if items.len() == 0 {
        Seq::empty()
    } else if items.len() == 1 {
        items[0]
    } else {
        items[0] + sep + join(items.drop_first(), sep)
    }
}

/// `l` without one trailing carriage return, if it has one.
pub open spec fn strip_cr(l: Seq<char>) -> Seq<char> {
    if l.len() > 0 && l.last() == '\r' {
        l.drop_last()
    } else {
        l
    }
}

/// The lines of `t` at or after `from`. A line ends at a line feed; a carriage
/// return just before that line feed goes with it. What follows the last line
/// feed is a line of its own unless it is empty, and is kept as it stands.
pub open spec fn lines_from(t: Seq<char>, from: int) -> Seq<Seq<char>>
    decreases t.len() - from,
{
    let n = find_char(t, '\n', from);
    if 0 <= from <= n < t.len() {
        seq![strip_cr(t.subrange(from, n))] + lines_from(t, n + 1)
    } else if 0 <= from < t.len() {
        seq![t.subrange(from, t.len() as int)]
    } else {
        Seq::empty()
    }
}

/// The lines of a text.
pub open spec fn split_lines(t: Seq<char>) -> Seq<Seq<char>> {
    lines_from(t, 0)
}

/// The text of the given lines: a line feed between neighbours and one more
/// at the end.
pub open spec fn unlines(lines: Seq<Seq<char>>) -> Seq<char> {
    join(lines, seq!['\n']) + seq!['\n']
}

/// A line that survives being written out and split again: it holds no line
/// feed and does not end in a carriage return.
pub open spec fn is_clean_line(l: Seq<char>) -> bool {
    &&& forall|i: int| 0 <= i < l.len() ==> #[trigger] l[i] != '\n'
    &&& !(l.len() > 0 && l.last() == '\r')
}

/// Where a scan ends: within bounds, past only items that do not stop it,
/// and on an item that does unless it reaches the end.
pub proof fn lemma_scan<T>(s: Seq<T>, stop: spec_fn(T) -> bool, from: int)
    requires
        0 <= from <= s.len(),
    ensures
        from <= scan(s, stop, from) <= s.len(),
        forall|i: int| from <= i < scan(s, stop, from) ==> !stop(#[trigger] s[i]),
        scan(s, stop, from) < s.len() ==> stop(s[scan(s, stop, from)]),
    decreases s.len() - from,
{
    if from < s.len() && !stop(s[from]) {
        lemma_scan(s, stop, from + 1);
    }
}

/// A scan ends at `m` when nothing before `m` stops it and `m` does.
pub proof fn lemma_scan_is<T>(s: Seq<T>, stop: spec_fn(T) -> bool, from: int, m: int)
    requires
        0 <= from <= m <= s.len(),
        forall|i: int| from <= i < m ==> !stop(#[trigger] s[i]),
        m < s.len() ==> stop(s[m]),
    ensures
        scan(s, stop, from) == m,
    decreases m - from,
{
    if from < m {
        lemma_scan_is(s, stop, from + 1, m);
    }
}

/// Scanning in the second part of a concatenation is scanning that part.
pub proof fn lemma_scan_shift<T>(p: Seq<T>, s: Seq<T>, stop: spec_fn(T) -> bool, k: int)
    requires
        0 <= k <= s.len(),
    ensures
        scan(p + s, stop, p.len() + k) == p.len() + scan(s, stop, k),
    decreases s.len() - k,
{
    if k < s.len() {
        assert((p + s)[p.len() + k] == s[k]);
        if !stop(s[k]) {
            lemma_scan_shift(p, s, stop, k + 1);
        }
    }
}

/// Where the backward scan ends: within bounds, before only whitespace, and
/// after a character that is none unless it reaches the start.
pub proof fn lemma_back_space_bounds(s: Seq<char>, upto: int)
    requires
        0 <= upto <= s.len(),
    ensures
        0 <= back_space(s, upto) <= upto,
        forall|i: int| back_space(s, upto) <= i < upto ==> is_space(#[trigger] s[i]),
        back_space(s, upto) > 0 ==> !is_space(s[back_space(s, upto) - 1]),
    decreases upto,
{
    if 0 < upto && is_space(s[upto - 1]) {
        lemma_back_space_bounds(s, upto - 1);
    }
}

/// Trimming leaves alone a text that neither starts nor ends with whitespace.
pub proof fn lemma_trimmed_tight(s: Seq<char>)
    requires
        s.len() > 0,
        !is_space(s[0]),
        !is_space(s.last()),
    ensures
        trimmed(s) == s,
{
    assert(s.subrange(0, s.len() as int) =~= s);
}

/// The first index at or after `from` that satisfies `stop`.
pub fn scan_spaces(s: &Vec<char>, from: usize) -> (r: usize)
    requires
        from <= s.len(),
    ensures
        r == skip_space(s@, from as int),
        from <= r <= s.len(),
{
    let mut i: usize = from;
    while i < s.len() && is_whitespace(s[i])
        invariant
            from <= i <= s.len(),
            skip_space(s@, from as int) == skip_space(s@, i as int),
        decreases s.len() - i,
    {
        i += 1;
    }
    i
}

/// The end of the word that starts at `from`.
pub fn scan_word(s: &Vec<char>, from: usize) -> (r: usize)
    requires
        from <= s.len(),
    ensures
        r == skip_word(s@, from as int),
        from <= r <= s.len(),
{
    let mut i: usize = from;
    while i < s.len() && !is_whitespace(s[i])
        invariant
            from <= i <= s.len(),
            skip_word(s@, from as int) == skip_word(s@, i as int),
        decreases s.len() - i,
    {
        i += 1;
    }
    i
}

/// The first index at or after `from` that holds `c`, or the length of `s`.
pub fn position_of(s: &Vec<char>, c: char, from: usize) -> (r: usize)
    requires
        from <= s.len(),
    ensures
        r == find_char(s@, c, from as int),
        from <= r <= s.len(),
{
    let mut i: usize = from;
    while i < s.len() && s[i] != c
        invariant
            from <= i <= s.len(),
            find_char(s@, c, from as int) == find_char(s@, c, i as int),
        decreases s.len() - i,
    {
        i += 1;
    }
    i
}

/// A copy of the characters of `s` from `from` up to `to`.
pub fn slice_of(s: &Vec<char>, from: usize, to: usize) -> (out: Vec<char>)
    requires
        from <= to <= s.len(),
    ensures
        out@ == s@.subrange(from as int, to as int),
{
    let mut out: Vec<char> = Vec::new();
    let mut i: usize = from;
    while i < to
        invariant
            from <= i <= to <= s.len(),
            out@ == s@.subrange(from as int, i as int),
        decreases to - i,
    {
        out.push(s[i]);
        i += 1;
    }
    out
}

/// `s` without its leading and trailing whitespace.
pub fn trim(s: &Vec<char>) -> (out: Vec<char>)
    ensures
        out@ == trimmed(s@),
{
    let a = scan_spaces(s, 0);
    let mut b: usize = s.len();
    while b > a && is_whitespace(s[b - 1])
        invariant
            a <= b <= s.len(),
            back_space(s@, s.len() as int) == back_space(s@, b as int),
        decreases b,
    {
        b -= 1;
    }
    proof {
        lemma_scan(s@, not_space(), 0);
        lemma_back_space_bounds(s@, b as int);
        if b == a {
            if a < s.len() {
                // `a` holds no whitespace, so the backward scan stops above it
                assert(back_space(s@, b as int) <= a);
            }
            assert(s@.subrange(a as int, b as int) =~= Seq::<char>::empty());
        }
    }
    slice_of(s, a, b)
}

/// Whether `s` begins with `p`.
pub fn starts_with(s: &Vec<char>, p: &Vec<char>) -> (b: bool)
    ensures
        b == p@.is_prefix_of(s@),
{
    if p.len() > s.len() {
        return false;
    }
    let mut i: usize = 0;
    while i < p.len()
        invariant
            i <= p.len() <= s.len(),
            forall|j: int| 0 <= j < i ==> s@[j] == p@[j],
        decreases p.len() - i,
    {
        if s[i] != p[i] {
            assert(s@.subrange(0, p@.len() as int)[i as int] != p@[i as int]);
            return false;
        }
        i += 1;
    }
    assert(s@.subrange(0, p@.len() as int) =~= p@);
    true
}

/// Whether two texts hold the same characters.
pub fn same_text(a: &Vec<char>, b: &Vec<char>) -> (r: bool)
    ensures
        r == (a@ == b@),
{
    if a.len() != b.len() {
        return false;
    }
    let mut i: usize = 0;
    while i < a.len()
        invariant
            i <= a.len() == b.len(),
            forall|j: int| 0 <= j < i ==> a@[j] == b@[j],
        decreases a.len() - i,
    {
        if a[i] != b[i] {
            return false;
        }
        i += 1;
    }
    assert(a@ =~= b@);
    true
}

/// The texts held by a vector of character vectors.
pub open spec fn texts(v: Seq<Vec<char>>) -> Seq<Seq<char>> {
    Seq::new(v.len(), |i: int| v[i]@)
}

/// The texts of a vector with one more item are the texts with one more
/// text.
pub proof fn lemma_texts_push(v: Seq<Vec<char>>, x: Vec<char>)
    ensures
        texts(v.push(x)) == texts(v).push(x@),
{
    assert(texts(v.push(x)) =~= texts(v).push(x@));
}

/// Joining one more item adds the separator and the item, except after nothing.
pub proof fn lemma_join_push(items: Seq<Seq<char>>, sep: Seq<char>, x: Seq<char>)
    ensures
        join(items.push(x), sep) == if items.len() == 0 {
            x
        } else {
            join(items, sep) + sep + x
        },
    decreases items.len(),
{
    if items.len() == 0 {
        assert(items.push(x)[0] == x);
    } else if items.len() == 1 {
        assert(items.push(x).drop_first() =~= seq![x]);
        assert(join(seq![x], sep) == x) by {
            assert(seq![x][0] == x);
        }
    } else {
        lemma_join_push(items.drop_first(), sep, x);
        assert(items.push(x).drop_first() =~= items.drop_first().push(x));
        assert(items[0] + sep + (join(items.drop_first(), sep) + sep + x) =~= (items[0] + sep
            + join(items.drop_first(), sep)) + sep + x);
    }
}

/// The whitespace-separated words of `s`, in order.
pub fn split_words(s: &Vec<char>) -> (out: Vec<Vec<char>>)
    ensures
        texts(out@) == words(s@),
{
    let mut out: Vec<Vec<char>> = Vec::new();
    let mut i: usize = 0;
    let mut more = true;
    assert(texts(out@) + words_from(s@, 0) =~= words(s@));
    while more
        invariant
            i <= s.len(),
            words(s@) == texts(out@) + words_from(s@, i as int),
            !more ==> words_from(s@, i as int) == Seq::<Seq<char>>::empty(),
        decreases s.len() - i, if more { 1int } else { 0int },
    {
        let a = scan_spaces(s, i);
        let b = scan_word(s, a);
        if a < b {
            let word = slice_of(s, a, b);
            proof {
                lemma_texts_push(out@, word);
                assert(texts(out@).push(word@) + words_from(s@, b as int) =~= texts(out@) + (
                seq![word@] + words_from(s@, b as int)));
            }
            out.push(word);
            i = b;
        } else {
            more = false;
        }
    }
    assert(texts(out@) + Seq::<Seq<char>>::empty() =~= texts(out@));
    out
}

/// The items written one after another with `sep` between neighbours.
pub fn join_texts(items: &Vec<Vec<char>>, sep: &Vec<char>) -> (out: Vec<char>)
    ensures
        out@ == join(texts(items@), sep@),
{
    let mut out: Vec<char> = Vec::new();
    let mut i: usize = 0;
    assert(texts(items@).take(0) =~= Seq::<Seq<char>>::empty());
    while i < items.len()
        invariant
            i <= items.len(),
            out@ == join(texts(items@).take(i as int), sep@),
        decreases items.len() - i,
    {
        proof {
            lemma_join_push(texts(items@).take(i as int), sep@, items@[i as int]@);
            assert(texts(items@).take(i as int).push(items@[i as int]@) =~= texts(items@).take(
                i + 1,
            ));
        }
        if i > 0 {
            out.extend_from_slice(sep.as_slice());
        }
        out.extend_from_slice(items[i].as_slice());
        i += 1;
    }
    assert(texts(items@).take(items@.len() as int) =~= texts(items@));
    out
}

/// The lines of a text.
pub fn lines_of(t: &Vec<char>) -> (out: Vec<Vec<char>>)
    ensures
        texts(out@) == split_lines(t@),
{
    let mut out: Vec<Vec<char>> = Vec::new();
    let mut i: usize = 0;
    assert(texts(out@) + lines_from(t@, 0) =~= split_lines(t@));
    while i < t.len()
        invariant
            i <= t.len(),
            split_lines(t@) == texts(out@) + lines_from(t@, i as int),
        decreases t.len() - i,
    {
        let n = position_of(t, '\n', i);
        let ghost before = out@;
        if n < t.len() {
            let mut line = slice_of(t, i, n);
            if line.len() > 0 && line[line.len() - 1] == '\r' {
                line.pop();
            }
            assert(line@ =~= strip_cr(t@.subrange(i as int, n as int)));
            out.push(line);
            proof {
                lemma_texts_push(before, line);
                assert(texts(before).push(line@) + lines_from(t@, n + 1) =~= texts(before) + (
                seq![line@] + lines_from(t@, n + 1)));
            }
            i = n + 1;
        } else {
            let line = slice_of(t, i, t.len());
            out.push(line);
            proof {
                lemma_texts_push(before, line);
                assert(lines_from(t@, t@.len() as int) =~= Seq::<Seq<char>>::empty());
                assert(texts(before).push(line@) + lines_from(t@, t@.len() as int) =~= texts(before)
                    + seq![line@]);
            }
            i = t.len();
        }
    }
    assert(lines_from(t@, t@.len() as int) =~= Seq::<Seq<char>>::empty());
    assert(texts(out@) + Seq::<Seq<char>>::empty() =~= texts(out@));
    out
}

/// The text of the given lines: a line feed between neighbours and one more
/// at the end.
pub fn text_of_lines(lines: &Vec<Vec<char>>) -> (out: Vec<char>)
    ensures
        out@ == unlines(texts(lines@)),
{
    let mut feed: Vec<char> = Vec::new();
    feed.push('\n');
    assert(feed@ =~= seq!['\n']);
    let mut out = join_texts(lines, &feed);
    out.push('\n');
    assert(out@ =~= unlines(texts(lines@)));
    out
}

/// The character of the decimal digit `d`.
pub open spec fn digit(d: int) -> char {
    if d == 0 {
        '0'
    } else if d == 1 {
        '1'
    } else if d == 2 {
        '2'
    } else if d == 3 {
        '3'
    } else if d == 4 {
        '4'
    } else if d == 5 {
        '5'
    } else if d == 6 {
        '6'
    } else if d == 7 {
        '7'
    } else if d == 8 {
        '8'
    } else {
        '9'
    }
}

/// The decimal digits of `n`, most significant first, without leading zeros.
pub open spec fn digits(n: nat) -> Seq<char>
    decreases n,
{
    if n < 10 {
        seq![digit(n as int)]
    } else {
        digits(n / 10).push(digit((n % 10) as int))
    }
}

/// The decimal numeral of `n`, with a minus sign when it is negative.
pub open spec fn decimal(n: int) -> Seq<char> {
    if n < 0 {
        seq!['-'] + digits((-n) as nat)
    } else {
        digits(n as nat)
    }
}

/// The character of the decimal digit `d`.
pub fn digit_char(d: u64) -> (c: char)
    requires
        d < 10,
    ensures
        c == digit(d as int),
{
    if d == 0 {
        '0'
    } else if d == 1 {
        '1'
    } else if d == 2 {
        '2'
    } else if d == 3 {
        '3'
    } else if d == 4 {
        '4'
    } else if d == 5 {
        '5'
    } else if d == 6 {
        '6'
    } else if d == 7 {
        '7'
    } else if d == 8 {
        '8'
    } else {
        '9'
    }
}

/// Appends the decimal digits of `n`.
pub fn push_digits(out: &mut Vec<char>, n: u64)
    ensures
        final(out)@ == old(out)@ + digits(n as nat),
    decreases n,
{
    if n < 10 {
        out.push(digit_char(n));
        assert(out@ =~= old(out)@ + digits(n as nat));
    } else {
        push_digits(out, n / 10);
        out.push(digit_char(n % 10));
        assert(out@ =~= old(out)@ + digits(n as nat));
    }
}

/// The decimal numeral of `n`.
pub fn decimal_of_usize(n: usize) -> (out: String)
    ensures
        out@ == decimal(n as int),
{
    let mut chars: Vec<char> = Vec::new();
    push_digits(&mut chars, n as u64);
    assert(chars@ =~= digits(n as nat));
    string_of(&chars)
}

/// The decimal numeral of `n`, with a minus sign when it is negative.
pub fn decimal_of_i32(n: i32) -> (out: String)
    ensures
        out@ == decimal(n as int),
{
    let mut chars: Vec<char> = Vec::new();
    if n < 0 {
        chars.push('-');
        let magnitude: u64 = (-(n as i64)) as u64;
        push_digits(&mut chars, magnitude);
        assert(chars@ =~= seq!['-'] + digits((-n) as nat));
    } else {
        push_digits(&mut chars, n as u64);
        assert(chars@ =~= digits(n as nat));
    }
    string_of(&chars)
}

/// Whether two string slices hold the same text.
pub fn same_str(a: &str, b: &str) -> (r: bool)
    ensures
        r == (a@ == b@),
{
    same_text(&chars_of(a), &chars_of(b))
}

/// The text of an optional string.
pub open spec fn option_text(s: Option<String>) -> Option<Seq<char>> {
    match s {
        Some(t) => Some(t@),
        None => None,
    }
}

/// Whether `p` occurs in `s` as a run of neighbouring characters.
pub open spec fn has_subtext(s: Seq<char>, p: Seq<char>) -> bool {
    exists|i: int| 0 <= i <= s.len() - p.len() && #[trigger] s.subrange(i, i + p.len()) == p
}

/// Whether `p` stands in `s` at index `at`.
pub fn occurs_at(s: &Vec<char>, p: &Vec<char>, at: usize) -> (b: bool)
    requires
        at + p.len() <= s.len(),
    ensures
        b == (s@.subrange(at as int, at + p.len()) == p@),
{
    let mut i: usize = 0;
    while i < p.len()
        invariant
            i <= p.len(),
            at + p.len() <= s.len(),
            forall|j: int| 0 <= j < i ==> s@[at + j] == p@[j],
        decreases p.len() - i,
    {
        if s[at + i] != p[i] {
            assert(s@.subrange(at as int, at + p.len())[i as int] != p@[i as int]);
            return false;
        }
        i += 1;
    }
    assert(s@.subrange(at as int, at + p.len()) =~= p@);
    true
}

/// Whether `p` occurs in `s` as a run of neighbouring characters.
pub fn contains_subtext(s: &str, p: &str) -> (b: bool)
    ensures
        b == has_subtext(s@, p@),
{
    let text = chars_of(s);
    let part = chars_of(p);
    if part.len() > text.len() {
        return false;
    }
    let last = text.len() - part.len();
    let mut i: usize = 0;
    while i < last
        invariant
            i <= last,
            last == text.len() - part.len(),
            part.len() <= text.len(),
            text@ == s@,
            part@ == p@,
            forall|j: int| 0 <= j < i ==> #[trigger] text@.subrange(j, j + part@.len()) != part@,
        decreases last - i,
    {
        if occurs_at(&text, &part, i) {
            assert(has_subtext(s@, p@)) by {
                let at = i as int;
                assert(0 <= at <= s@.len() - p@.len());
                assert(s@.subrange(at, at + p@.len()) == p@);
            }
            return true;
        }
        i += 1;
    }
    let found = occurs_at(&text, &part, last);
    if found {
        assert(has_subtext(s@, p@)) by {
            let at = last as int;
            assert(0 <= at <= s@.len() - p@.len());
            assert(s@.subrange(at, at + p@.len()) == p@);
        }
    }
    found
}

} // verus!
