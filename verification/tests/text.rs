use nb_mcp::text::{
    as_deref, decimal_string, ends_with_char, is_blank, join2, join3, starts_with_char, str_eq,
    strip_prefix,
};

#[test]
fn decimal_string_writes_numbers() {
    assert_eq!(decimal_string(0), "0");
    assert_eq!(decimal_string(7), "7");
    assert_eq!(decimal_string(10), "10");
    assert_eq!(decimal_string(120), "120");
    assert_eq!(decimal_string(u32::MAX), "4294967295");
}

#[test]
fn str_eq_compares_characters() {
    assert!(str_eq("", ""));
    assert!(str_eq("abc", "abc"));
    assert!(!str_eq("abc", "abd"));
    assert!(!str_eq("abc", "ab"));
    assert!(str_eq("caf\u{e9}", "caf\u{e9}"));
    assert!(!str_eq("caf\u{e9}", "cafe"));
}

#[test]
fn is_blank_knows_whitespace() {
    assert!(is_blank(""));
    assert!(is_blank(" \t\r\n"));
    assert!(is_blank("\u{a0}\u{2003}"));
    assert!(!is_blank(" x "));
    assert!(!is_blank("\u{200b}"));
}

#[test]
fn first_and_last_characters() {
    assert!(starts_with_char("#tag", '#'));
    assert!(!starts_with_char("tag#", '#'));
    assert!(!starts_with_char("", '#'));
    assert!(ends_with_char("dir/", '/'));
    assert!(!ends_with_char("/dir", '/'));
    assert!(!ends_with_char("", '/'));
    assert!(ends_with_char("\u{e9}", '\u{e9}'));
}

#[test]
fn strip_prefix_cuts_the_prefix() {
    assert_eq!(strip_prefix("nb.status", "nb."), Some("status"));
    assert_eq!(strip_prefix("nb.", "nb."), Some(""));
    assert_eq!(strip_prefix("status", "nb."), None);
    assert_eq!(strip_prefix("nb", "nb."), None);
    assert_eq!(strip_prefix("\u{e9}t\u{e9}", "\u{e9}"), Some("t\u{e9}"));
    assert_eq!(strip_prefix("abc", ""), Some("abc"));
}

#[test]
fn joins_concatenate() {
    assert_eq!(join2("a", "b"), "ab");
    assert_eq!(join2("", ""), "");
    assert_eq!(join3("a", ":", "b"), "a:b");
}

#[test]
fn as_deref_borrows() {
    assert_eq!(as_deref(&Some("x".to_string())), Some("x"));
    assert_eq!(as_deref(&None), None);
}
