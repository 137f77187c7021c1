use consumable_vec::starts_with;
use consumable_vec::trim;

#[test]
fn trim_removes_leading_and_trailing_whitespace() {
    assert_eq!("data", trim("  data\t\n"));
    assert_eq!("a b", trim(" a b "));
    assert_eq!("data", trim("data"));
}

#[test]
fn trim_of_whitespace_only_is_empty() {
    assert_eq!("", trim(" \t\r\n "));
    assert_eq!("", trim(""));
}

#[test]
fn trim_handles_unicode_whitespace() {
    assert_eq!("data", trim("\u{00A0}\u{2003}data\u{3000}"));
}

#[test]
fn starts_with_is_a_character_prefix_test() {
    assert!(starts_with("data", "da"));
    assert!(starts_with("data", "data"));
    assert!(starts_with("data", ""));
    assert!(!starts_with("data", "ata"));
    assert!(!starts_with("da", "data"));
}
