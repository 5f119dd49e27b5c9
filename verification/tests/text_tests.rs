use mac_setup::text::{
    chars_of, contains_subtext, decimal_of_i32, decimal_of_usize, is_whitespace, join_texts,
    lines_of, position_of, same_str, slice_of, split_words, starts_with, string_of,
    text_of_lines, trim,
};

fn chars(s: &str) -> Vec<char> {
    s.chars().collect()
}

fn strings(v: &Vec<Vec<char>>) -> Vec<String> {
    v.iter().map(|l| l.iter().collect::<String>()).collect()
}

#[test]
fn whitespace_agrees_with_the_standard_library_on_every_character() {
    let mut code: u32 = 0;
    while code <= 0x10FFFF {
        if let Some(c) = char::from_u32(code) {
            assert_eq!(is_whitespace(c), c.is_whitespace(), "U+{:04X}", code);
        }
        code += 1;
    }
}

#[test]
fn chars_and_strings_convert_both_ways() {
    assert_eq!(chars_of("héllo ▶"), chars("héllo ▶"));
    assert_eq!(string_of(&chars("héllo ▶")), "héllo ▶");
    assert_eq!(chars_of(""), Vec::<char>::new());
}

#[test]
fn trim_removes_whitespace_at_both_ends_only() {
    for s in ["", "   ", "a", "  a b  ", "\t\n x\u{a0}", "\u{3000}x y\u{2003}", "x  ", "  x"] {
        assert_eq!(string_of(&trim(&chars(s))), s.trim(), "{:?}", s);
    }
}

#[test]
fn words_agree_with_split_whitespace() {
    for s in ["", " ", "a", "a b", "  git   z\tgh \n", "x\u{a0}y", "one", " lead", "trail  "] {
        let expected: Vec<String> = s.split_whitespace().map(|w| w.to_string()).collect();
        assert_eq!(strings(&split_words(&chars(s))), expected, "{:?}", s);
    }
}

#[test]
fn lines_agree_with_the_standard_library() {
    for s in [
        "",
        "\n",
        "a",
        "a\n",
        "a\nb",
        "a\n\nb\n",
        "foo\r\nbar\n\nbaz\r",
        "a\r\r\nb",
        "\r\n",
        "x\ry\n",
    ] {
        let expected: Vec<String> = s.lines().map(|l| l.to_string()).collect();
        assert_eq!(strings(&lines_of(&chars(s))), expected, "{:?}", s);
    }
}

#[test]
fn a_trailing_carriage_return_stays_in_the_last_line() {
    assert_eq!(strings(&lines_of(&chars("baz\r"))), vec!["baz\r".to_string()]);
}

#[test]
fn join_puts_the_separator_between_neighbours() {
    let items = vec![chars("a"), chars("bc"), chars("")];
    assert_eq!(string_of(&join_texts(&items, &chars(", "))), "a, bc, ");
    assert_eq!(string_of(&join_texts(&Vec::new(), &chars(", "))), "");
    assert_eq!(string_of(&join_texts(&vec![chars("solo")], &chars(", "))), "solo");
}

#[test]
fn text_of_lines_ends_every_line_with_a_feed() {
    assert_eq!(string_of(&text_of_lines(&vec![chars("a"), chars("b")])), "a\nb\n");
    assert_eq!(string_of(&text_of_lines(&vec![chars("a")])), "a\n");
    assert_eq!(string_of(&text_of_lines(&Vec::new())), "\n");
}

#[test]
fn written_lines_are_read_back() {
    let lines = vec![chars("x"), chars(""), chars("  y z")];
    assert_eq!(lines_of(&text_of_lines(&lines)), lines);
}

#[test]
fn position_of_finds_the_first_occurrence() {
    let s = chars("plugins=(a) (b)");
    assert_eq!(position_of(&s, '(', 0), 8);
    assert_eq!(position_of(&s, ')', 0), 10);
    assert_eq!(position_of(&s, '(', 9), 12);
    assert_eq!(position_of(&s, '#', 0), s.len());
}

#[test]
fn slice_of_copies_a_range() {
    assert_eq!(slice_of(&chars("abcdef"), 1, 4), chars("bcd"));
    assert_eq!(slice_of(&chars("abc"), 2, 2), chars(""));
}

#[test]
fn starts_with_tests_a_prefix() {
    assert!(starts_with(&chars("ZSH_THEME=x"), &chars("ZSH_THEME")));
    assert!(starts_with(&chars("abc"), &chars("")));
    assert!(!starts_with(&chars("ab"), &chars("abc")));
    assert!(!starts_with(&chars("xbc"), &chars("a")));
}

#[test]
fn same_str_compares_texts() {
    assert!(same_str("macos", "macos"));
    assert!(!same_str("macos", "macOS"));
    assert!(!same_str("a", "ab"));
    assert!(same_str("", ""));
}

#[test]
fn subtext_search_agrees_with_contains() {
    let hay = "Plugins:\n  Chromium-3-Oxide/everforest-medium (abc)\n";
    for needle in ["", "Chromium-3-Oxide/everforest-medium", "everforest", "missing", "\n", ")\n"] {
        assert_eq!(contains_subtext(hay, needle), hay.contains(needle), "{:?}", needle);
    }
    assert!(!contains_subtext("ab", "abc"));
    assert!(contains_subtext("abc", "abc"));
    assert!(contains_subtext("", ""));
}

#[test]
fn decimal_numerals_are_exact() {
    assert_eq!(decimal_of_usize(0), "0");
    assert_eq!(decimal_of_usize(7), "7");
    assert_eq!(decimal_of_usize(10), "10");
    assert_eq!(decimal_of_usize(1203), "1203");
    assert_eq!(decimal_of_usize(usize::MAX), usize::MAX.to_string());
    assert_eq!(decimal_of_i32(0), "0");
    assert_eq!(decimal_of_i32(127), "127");
    assert_eq!(decimal_of_i32(-1), "-1");
    assert_eq!(decimal_of_i32(i32::MIN), i32::MIN.to_string());
    assert_eq!(decimal_of_i32(i32::MAX), i32::MAX.to_string());
}
