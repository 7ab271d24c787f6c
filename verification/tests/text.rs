use mondrian_rest::text::{
    bool_to_string, first_two_lines, i64_to_string, join_strings, split_str, str_eq,
    strip_brackets, u64_to_string,
};

#[test]
fn test_split_str() {
    assert_eq!(split_str("a.b.c", '.'), vec!["a", "b", "c"]);
    assert_eq!(split_str("", '.'), vec![""]);
    assert_eq!(split_str("a..b", '.'), vec!["a", "", "b"]);
    assert_eq!(split_str("a.", '.'), vec!["a", ""]);
}

#[test]
fn test_join_strings() {
    let parts: Vec<String> = vec!["a".to_owned(), "b".to_owned(), "c".to_owned()];
    assert_eq!(join_strings(&parts, "&"), "a&b&c");
    let one: Vec<String> = vec!["a".to_owned()];
    assert_eq!(join_strings(&one, "&"), "a");
    let none: Vec<String> = Vec::new();
    assert_eq!(join_strings(&none, "&"), "");
}

#[test]
fn test_strip_brackets() {
    assert_eq!(strip_brackets("[Geography]"), "Geography");
    assert_eq!(strip_brackets("Geography"), "Geography");
    assert_eq!(strip_brackets("[Geography"), "[Geography");
    assert_eq!(strip_brackets("[]"), "");
}

#[test]
fn test_str_eq() {
    assert!(str_eq("abc", "abc"));
    assert!(!str_eq("abc", "abd"));
    assert!(!str_eq("abc", "ab"));
    assert!(str_eq("", ""));
}

#[test]
fn test_first_two_lines() {
    assert_eq!(first_two_lines("one\ntwo\nthree"), "one\ntwo");
    assert_eq!(first_two_lines("one\r\ntwo\r\nthree"), "one\ntwo");
    assert_eq!(first_two_lines("only"), "only");
    assert_eq!(first_two_lines("only\n"), "only");
    assert_eq!(first_two_lines(""), "");
}

#[test]
fn test_decimal_rendering() {
    assert_eq!(u64_to_string(0), "0");
    assert_eq!(u64_to_string(10), "10");
    assert_eq!(u64_to_string(u64::MAX), "18446744073709551615");
    assert_eq!(i64_to_string(-1), "-1");
    assert_eq!(i64_to_string(i64::MAX), "9223372036854775807");
}

#[test]
fn test_bool_to_string() {
    assert_eq!(bool_to_string(true), "true");
    assert_eq!(bool_to_string(false), "false");
}
