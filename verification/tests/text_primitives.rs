use sourcelines::text::{count_words, str_contains, str_eq, str_starts_with, trim_str};

#[test]
fn trim_strips_surrounding_whitespace() {
    assert_eq!(trim_str("  int x;  \n"), "int x;");
    assert_eq!(trim_str("\t\r\n"), "");
    assert_eq!(trim_str(""), "");
    assert_eq!(trim_str("word"), "word");
}

#[test]
fn trim_keeps_inner_whitespace() {
    assert_eq!(trim_str(" a  b "), "a  b");
}

#[test]
fn starts_with_is_a_prefix_test() {
    assert!(str_starts_with("// comment", "//"));
    assert!(!str_starts_with("x // comment", "//"));
    assert!(str_starts_with("anything", ""));
    assert!(!str_starts_with("/", "//"));
}

#[test]
fn contains_is_a_substring_test() {
    assert!(str_contains("end */ more", "*/"));
    assert!(str_contains("*/", "*/"));
    assert!(!str_contains("* /", "*/"));
    assert!(str_contains("abc", ""));
}

#[test]
fn word_counting_matches_whitespace_splitting() {
    for s in ["", "   ", "one", " one ", "one two", "  a\tb\nc  ", "x\u{a0}y"] {
        assert_eq!(count_words(s), s.split_whitespace().count(), "input {s:?}");
    }
}

#[test]
fn string_equality() {
    assert!(str_eq("abc", "abc"));
    assert!(!str_eq("abc", "abd"));
    assert!(!str_eq("abc", "ab"));
    assert!(str_eq("", ""));
}
