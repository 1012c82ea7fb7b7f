use inkflow::text::{bool_to_str, contains_str, i64_to_dec, join_comma, u64_to_dec};

#[test]
fn decimal_rendering_matches_display() {
    assert_eq!(u64_to_dec(0), "0");
    assert_eq!(u64_to_dec(7), "7");
    assert_eq!(u64_to_dec(1234567890), "1234567890");
    assert_eq!(i64_to_dec(0), "0");
    assert_eq!(i64_to_dec(-5), "-5");
    assert_eq!(i64_to_dec(1700000000000), "1700000000000");
    assert_eq!(i64_to_dec(i64::MIN), "-9223372036854775808");
    assert_eq!(i64_to_dec(i64::MAX), "9223372036854775807");
}

#[test]
fn boolean_keywords() {
    assert_eq!(bool_to_str(true), "true");
    assert_eq!(bool_to_str(false), "false");
}

#[test]
fn comma_join_preserves_order_without_trailing_separator() {
    assert_eq!(join_comma(&vec![]), "");
    assert_eq!(join_comma(&vec!["work".to_string()]), "work");
    assert_eq!(join_comma(&vec!["work".to_string(), "ideas".to_string()]), "work, ideas");
    assert_eq!(
        join_comma(&vec!["a".to_string(), "".to_string(), "b".to_string()]),
        "a, , b"
    );
}

#[test]
fn substring_search() {
    assert!(contains_str("nothing to commit, working tree clean", "nothing to commit"));
    assert!(contains_str("abc", ""));
    assert!(contains_str("abc", "abc"));
    assert!(!contains_str("ab", "abc"));
    assert!(!contains_str("nothing to see", "nothing to commit"));
}
