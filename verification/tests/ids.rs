use users_api::id::{format_id, parse_id};

#[test]
fn formats_zero() {
    assert_eq!(format_id(0), "0");
}

#[test]
fn formats_single_digits() {
    assert_eq!(format_id(7), "7");
    assert_eq!(format_id(9), "9");
}

#[test]
fn formats_several_digits() {
    assert_eq!(format_id(10), "10");
    assert_eq!(format_id(1203), "1203");
    assert_eq!(format_id(9_000_000_000), "9000000000");
}

#[test]
fn formats_largest_id() {
    assert_eq!(format_id(u64::MAX), "18446744073709551615");
}

#[test]
fn formats_like_the_standard_library() {
    for id in [0u64, 1, 9, 10, 11, 99, 100, 101, 65_535, 4_294_967_296, u64::MAX - 1] {
        assert_eq!(format_id(id), id.to_string());
    }
}

#[test]
fn parses_plain_numbers() {
    assert_eq!(parse_id("0"), Some(0));
    assert_eq!(parse_id("5"), Some(5));
    assert_eq!(parse_id("42"), Some(42));
    assert_eq!(parse_id("18446744073709551615"), Some(u64::MAX));
}

#[test]
fn parses_leading_zeros_and_plus() {
    assert_eq!(parse_id("007"), Some(7));
    assert_eq!(parse_id("+5"), Some(5));
    assert_eq!(parse_id("+000"), Some(0));
    assert_eq!(parse_id("00000000000000000000000000000018446744073709551615"), Some(u64::MAX));
}

#[test]
fn rejects_what_is_not_a_number() {
    assert_eq!(parse_id(""), None);
    assert_eq!(parse_id("+"), None);
    assert_eq!(parse_id("++1"), None);
    assert_eq!(parse_id("-1"), None);
    assert_eq!(parse_id("abc"), None);
    assert_eq!(parse_id("1a"), None);
    assert_eq!(parse_id("1 "), None);
    assert_eq!(parse_id(" 1"), None);
    assert_eq!(parse_id("1+"), None);
    assert_eq!(parse_id("1_000"), None);
    assert_eq!(parse_id("1.0"), None);
    assert_eq!(parse_id("٣"), None);
    assert_eq!(parse_id("/"), None);
    assert_eq!(parse_id(":"), None);
}

#[test]
fn rejects_numbers_beyond_64_bits() {
    assert_eq!(parse_id("18446744073709551616"), None);
    assert_eq!(parse_id("18446744073709551620"), None);
    assert_eq!(parse_id("99999999999999999999"), None);
    assert_eq!(parse_id("184467440737095516150"), None);
    assert_eq!(parse_id("+18446744073709551616"), None);
}

#[test]
fn parses_like_the_standard_library() {
    for text in ["", "+", "0", "+0", "12", "012", "-0", "1x", "x1", "18446744073709551615",
        "18446744073709551616", "+18446744073709551615", "1e3", "0x10"]
    {
        assert_eq!(parse_id(text), text.parse::<u64>().ok(), "{:?}", text);
    }
}

#[test]
fn parse_reads_back_what_format_wrote() {
    for id in [0u64, 1, 10, 19, 255, 1_000_000, u64::MAX] {
        assert_eq!(parse_id(&format_id(id)), Some(id));
    }
}
