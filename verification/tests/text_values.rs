//! Coercion of raw property text into numbers, and back.

use itunes_interface::text::{parse_u16, parse_u8, str_eq, trim_spaces, u16_to_dec, u8_to_dec};

#[test]
fn parses_decimal_text() {
    assert_eq!(parse_u8("0"), Some(0));
    assert_eq!(parse_u8("50"), Some(50));
    assert_eq!(parse_u8("255"), Some(255));
    assert_eq!(parse_u16("245"), Some(245));
    assert_eq!(parse_u16("65535"), Some(65535));
}

#[test]
fn rejects_text_that_is_not_a_number_in_range() {
    assert_eq!(parse_u8(""), None);
    assert_eq!(parse_u8("N/A"), None);
    assert_eq!(parse_u8("256"), None);
    assert_eq!(parse_u8("12a"), None);
    assert_eq!(parse_u8(" 50"), None);
    assert_eq!(parse_u16("65536"), None);
    assert_eq!(parse_u16("99999999999"), None);
    assert_eq!(parse_u16("-1"), None);
}

#[test]
fn renders_decimal_text() {
    assert_eq!(u8_to_dec(0), "0");
    assert_eq!(u8_to_dec(7), "7");
    assert_eq!(u8_to_dec(75), "75");
    assert_eq!(u16_to_dec(245), "245");
    assert_eq!(u16_to_dec(65535), "65535");
}

#[test]
fn trims_surrounding_whitespace_only() {
    assert_eq!(trim_spaces(" 245 \r\n"), "245");
    assert_eq!(trim_spaces("245"), "245");
    assert_eq!(trim_spaces("  \t\r\n"), "");
    assert_eq!(trim_spaces(""), "");
    assert_eq!(trim_spaces(" a b "), "a b");
}

#[test]
fn compares_strings_by_characters() {
    assert!(str_eq("True", "True"));
    assert!(!str_eq("True", "False"));
    assert!(!str_eq("True", "True "));
    assert!(str_eq("", ""));
}
