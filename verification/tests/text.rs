use benzene_battery::text::{fmt_i32, parse_i32, str_eq, trim};

#[test]
fn trim_strips_surrounding_whitespace() {
    assert_eq!(trim("  42\n"), "42");
    assert_eq!(trim("\t hello world \r\n"), "hello world");
    assert_eq!(trim(""), "");
    assert_eq!(trim(" \n\t "), "");
    assert_eq!(trim("inner  spaces"), "inner  spaces");
}

#[test]
fn parse_accepts_plain_decimal() {
    assert_eq!(parse_i32("0"), Some(0));
    assert_eq!(parse_i32("42"), Some(42));
    assert_eq!(parse_i32("-17"), Some(-17));
    assert_eq!(parse_i32("+7"), Some(7));
    assert_eq!(parse_i32("007"), Some(7));
}

#[test]
fn parse_handles_the_32_bit_bounds() {
    assert_eq!(parse_i32("2147483647"), Some(i32::MAX));
    assert_eq!(parse_i32("-2147483648"), Some(i32::MIN));
    assert_eq!(parse_i32("2147483648"), None);
    assert_eq!(parse_i32("-2147483649"), None);
    assert_eq!(parse_i32("99999999999999999999"), None);
}

#[test]
fn parse_rejects_non_numeric_text() {
    assert_eq!(parse_i32(""), None);
    assert_eq!(parse_i32("-"), None);
    assert_eq!(parse_i32("+"), None);
    assert_eq!(parse_i32("12a"), None);
    assert_eq!(parse_i32("1 2"), None);
    assert_eq!(parse_i32(" 1"), None);
}

#[test]
fn fmt_renders_canonical_decimal() {
    assert_eq!(fmt_i32(0), "0");
    assert_eq!(fmt_i32(80), "80");
    assert_eq!(fmt_i32(-5), "-5");
    assert_eq!(fmt_i32(i32::MAX), "2147483647");
    assert_eq!(fmt_i32(i32::MIN), "-2147483648");
}

#[test]
fn fmt_then_parse_round_trips() {
    for v in [0, 1, -1, 55, 80, 100, 12345, -98765, i32::MAX, i32::MIN] {
        assert_eq!(parse_i32(fmt_i32(v).as_str()), Some(v));
    }
}

#[test]
fn str_eq_compares_by_characters() {
    assert!(str_eq("abc", "abc"));
    assert!(!str_eq("abc", "abd"));
    assert!(!str_eq("abc", "abcd"));
    assert!(str_eq("", ""));
}
