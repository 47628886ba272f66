//! The string utilities underneath the parsers: splitting, trimming,
//! number parsing and rendering, and the header map.

use http::header_map::HeaderMap;
use http::text::find_str;
use http::text::parse_u16;
use http::text::parse_usize;
use http::text::split_string;
use http::text::str_eq;
use http::text::trim;
use http::text::usize_to_string;

#[test]
fn split_keeps_empty_parts() {
    let parts = split_string("a::b", ":");
    assert_eq!(parts, vec!["a".to_string(), "".to_string(), "b".to_string()]);
    let parts = split_string("", ":");
    assert_eq!(parts, vec!["".to_string()]);
    let parts = split_string("x\r\ny\r\n", "\r\n");
    assert_eq!(parts, vec!["x".to_string(), "y".to_string(), "".to_string()]);
}

#[test]
fn find_str_gives_first_occurrence() {
    assert_eq!(find_str("abcabc", "bc", 0), Some(1));
    assert_eq!(find_str("abcabc", "bc", 2), Some(4));
    assert_eq!(find_str("abcabc", "zz", 0), None);
    assert_eq!(find_str("", "z", 0), None);
}

#[test]
fn trim_removes_surrounding_space() {
    assert_eq!(trim("  a b\t"), "a b");
    assert_eq!(trim("\r\n x \r\n"), "x");
    assert_eq!(trim("   "), "");
    assert_eq!(trim(""), "");
    assert_eq!(trim("inner"), "inner");
}

#[test]
fn str_eq_compares_content() {
    assert!(str_eq("abc", "abc"));
    assert!(!str_eq("abc", "abd"));
    assert!(!str_eq("abc", "ab"));
}

#[test]
fn parse_usize_accepts_plain_numbers() {
    assert_eq!(parse_usize("0"), Some(0));
    assert_eq!(parse_usize("42"), Some(42));
    assert_eq!(parse_usize("+5"), Some(5));
    assert_eq!(parse_usize("007"), Some(7));
}

#[test]
fn parse_usize_rejects_everything_else() {
    assert_eq!(parse_usize(""), None);
    assert_eq!(parse_usize("+"), None);
    assert_eq!(parse_usize("-1"), None);
    assert_eq!(parse_usize("4 2"), None);
    assert_eq!(parse_usize("abc"), None);
    assert_eq!(parse_usize("99999999999999999999999999"), None);
}

#[test]
fn parse_u16_bounds() {
    assert_eq!(parse_u16("65535"), Some(65535));
    assert_eq!(parse_u16("65536"), None);
    assert_eq!(parse_u16("80"), Some(80));
}

#[test]
fn usize_to_string_renders_decimal() {
    assert_eq!(usize_to_string(0), "0");
    assert_eq!(usize_to_string(7), "7");
    assert_eq!(usize_to_string(12345), "12345");
    assert_eq!(usize_to_string(1000), "1000");
}

#[test]
fn header_map_last_write_wins() {
    let mut map = HeaderMap::new();
    map.insert("A".to_string(), "1".to_string());
    map.insert("B".to_string(), "2".to_string());
    map.insert("A".to_string(), "3".to_string());
    assert_eq!(map.len(), 2);
    assert_eq!(map.get("A").map(|s| s.as_str()), Some("3"));
    assert_eq!(map.get("B").map(|s| s.as_str()), Some("2"));
    assert_eq!(map.get("C"), None);
    assert_eq!(map.key_at(0), "A");
    assert_eq!(map.key_at(1), "B");
    assert_eq!(map.value_at(0), "3");
    assert!(map.contains_key("B"));
    assert!(!map.contains_key("b"));
    assert_eq!(map.render_lines(), "A: 3\r\nB: 2\r\n");
}

#[test]
fn error_messages_for_protocol_errors() {
    assert_eq!(http::Error::BadRequest.message(), "Bad request");
    assert_eq!(http::Error::BadResponse.message(), "Bad response");
    assert_eq!(http::Error::InvalidHeader.message(), "Invalid header");
}
