use clio::text::{contains_char, decimal_string, ends_with_char, same_text, starts_with};

#[test]
fn decimal_string_renders_without_leading_zeros() {
    assert_eq!(decimal_string(0), "0");
    assert_eq!(decimal_string(7), "7");
    assert_eq!(decimal_string(10), "10");
    assert_eq!(decimal_string(404), "404");
    assert_eq!(decimal_string(65535), "65535");
    assert_eq!(decimal_string(u64::MAX), "18446744073709551615");
}

#[test]
fn decimal_string_agrees_with_the_standard_rendering() {
    let mut n: u64 = 1;
    for _ in 0..19 {
        assert_eq!(decimal_string(n), n.to_string());
        assert_eq!(decimal_string(n - 1), (n - 1).to_string());
        n *= 10;
    }
}

#[test]
fn starts_with_compares_whole_prefixes() {
    assert!(starts_with("http://x", "http://"));
    assert!(starts_with("http://", "http://"));
    assert!(!starts_with("http:/", "http://"));
    assert!(!starts_with("https://x", "http://"));
    assert!(starts_with("anything", ""));
    assert!(!starts_with("", "a"));
    assert!(starts_with("héllo", "hé"));
}

#[test]
fn same_text_is_equality() {
    assert!(same_text("-", "-"));
    assert!(!same_text("-", "--"));
    assert!(!same_text("", "-"));
    assert!(same_text("", ""));
}

#[test]
fn ends_with_char_looks_at_the_last_character() {
    assert!(ends_with_char("dir/", '/'));
    assert!(ends_with_char("/", '/'));
    assert!(!ends_with_char("dir", '/'));
    assert!(!ends_with_char("", '/'));
    assert!(!ends_with_char("/dir", '/'));
    assert!(ends_with_char("né", 'é'));
}

#[test]
fn contains_char_finds_any_position() {
    assert!(contains_char("a/b", '/'));
    assert!(contains_char("/", '/'));
    assert!(contains_char("ab/", '/'));
    assert!(!contains_char("ab", '/'));
    assert!(!contains_char("", '/'));
}
