use ncm_api::text::{debug_truncate, decimal_string, find, first_chars_of, starts_with, zero_padded_decimal};

#[test]
fn truncate_ascii_cuts_at_max() {
    assert_eq!(debug_truncate("hello world", 5), "hello");
}

#[test]
fn truncate_keeps_short_text() {
    assert_eq!(debug_truncate("hello", 50), "hello");
    assert_eq!(debug_truncate("hello", 5), "hello");
}

#[test]
fn truncate_zero_max_is_empty() {
    assert_eq!(debug_truncate("hello", 0), "");
    assert_eq!(debug_truncate("", 10), "");
}

#[test]
fn truncate_walks_back_to_char_boundary() {
    // each of these characters takes three bytes
    let s = "你好世界";
    assert_eq!(debug_truncate(s, 4), "你");
    assert_eq!(debug_truncate(s, 5), "你");
    assert_eq!(debug_truncate(s, 6), "你好");
    assert_eq!(debug_truncate(s, 2), "");
}

#[test]
fn truncate_mixed_width() {
    let s = "a😀b";
    assert_eq!(debug_truncate(s, 1), "a");
    assert_eq!(debug_truncate(s, 4), "a");
    assert_eq!(debug_truncate(s, 5), "a😀");
    assert_eq!(debug_truncate(s, 6), "a😀b");
}

#[test]
fn decimal_strings() {
    assert_eq!(decimal_string(0), "0");
    assert_eq!(decimal_string(7), "7");
    assert_eq!(decimal_string(1234567890123), "1234567890123");
    assert_eq!(decimal_string(u128::MAX), u128::MAX.to_string());
    assert_eq!(decimal_string(u64::MAX as u128), u64::MAX.to_string());
}

#[test]
fn zero_padding() {
    assert_eq!(zero_padded_decimal(7, 4), "0007");
    assert_eq!(zero_padded_decimal(999, 4), "0999");
    assert_eq!(zero_padded_decimal(12345, 4), "12345");
    assert_eq!(zero_padded_decimal(0, 0), "0");
}

#[test]
fn first_chars_and_search() {
    assert_eq!(first_chars_of("1700000000123", 10), "1700000000");
    assert_eq!(first_chars_of("123", 10), "123");
    assert!(starts_with("/api/x", "/api/"));
    assert!(!starts_with("/weapi/x", "/api/"));
    assert!(!starts_with("/ap", "/api/"));
    assert_eq!(find("/api/a/api", "/api"), Some(0));
    assert_eq!(find("/e/api", "/api"), Some(2));
    assert_eq!(find("/eapi/x", "/api"), None);
    assert_eq!(find("/weapi", "/xyz"), None);
    assert_eq!(find("abc", ""), Some(0));
}
