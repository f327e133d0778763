//! Tests for the text utilities: decimal rendering and form-urlencoding.

use dimo_sdk::text::{i32_to_string, urlencode, usize_to_string};

#[test]
fn decimal_rendering_matches_display() {
    assert_eq!(usize_to_string(0), "0");
    assert_eq!(usize_to_string(7), "7");
    assert_eq!(usize_to_string(1234567890), "1234567890");
    assert_eq!(i32_to_string(-5), "-5");
    assert_eq!(i32_to_string(0), "0");
    assert_eq!(i32_to_string(i32::MIN), "-2147483648");
    assert_eq!(i32_to_string(i32::MAX), "2147483647");
}

#[test]
fn urlencoding_passes_unreserved_bytes_through() {
    assert_eq!(urlencode("AZaz09*-._"), "AZaz09*-._");
}

#[test]
fn urlencoding_escapes_spaces_and_reserved_bytes() {
    assert_eq!(urlencode("a b"), "a+b");
    assert_eq!(urlencode("a/b&c=d"), "a%2Fb%26c%3Dd");
}

#[test]
fn urlencoding_escapes_utf8_bytes() {
    assert_eq!(urlencode("\u{fc}"), "%C3%BC");
}
