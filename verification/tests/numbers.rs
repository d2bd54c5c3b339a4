use laravel_maker::number::{decimal_text, parse_number};

#[test]
fn numbers_are_written_in_decimal() {
    assert_eq!(decimal_text(0), "0");
    assert_eq!(decimal_text(7), "7");
    assert_eq!(decimal_text(10), "10");
    assert_eq!(decimal_text(12), "12");
    assert_eq!(decimal_text(3306), "3306");
    assert_eq!(decimal_text(65535), "65535");
    assert_eq!(decimal_text(1000000), "1000000");
    assert_eq!(decimal_text(u64::MAX), "18446744073709551615");
}

#[test]
fn digits_are_read_as_a_number() {
    assert_eq!(parse_number("0", 65535), Some(0));
    assert_eq!(parse_number("8000", 65535), Some(8000));
    assert_eq!(parse_number("65535", 65535), Some(65535));
    assert_eq!(parse_number("255", 255), Some(255));
}

#[test]
fn a_leading_plus_is_allowed() {
    assert_eq!(parse_number("+443", 65535), Some(443));
    assert_eq!(parse_number("+0", 65535), Some(0));
}

#[test]
fn leading_zeros_are_allowed() {
    assert_eq!(parse_number("0080", 65535), Some(80));
    assert_eq!(parse_number("00000000000000000000000000000080", 65535), Some(80));
    assert_eq!(parse_number("+007", 255), Some(7));
}

#[test]
fn numbers_over_the_limit_are_refused() {
    assert_eq!(parse_number("65536", 65535), None);
    assert_eq!(parse_number("256", 255), None);
    assert_eq!(parse_number("99999999999999999999999999", 65535), None);
    assert_eq!(parse_number("18446744073709551615", u64::MAX), Some(u64::MAX));
    assert_eq!(parse_number("18446744073709551616", u64::MAX), None);
    assert_eq!(parse_number("1", 0), None);
    assert_eq!(parse_number("0", 0), Some(0));
}

#[test]
fn other_texts_are_no_numbers() {
    assert_eq!(parse_number("", 65535), None);
    assert_eq!(parse_number("+", 65535), None);
    assert_eq!(parse_number("-", 65535), None);
    assert_eq!(parse_number("-1", 65535), None);
    assert_eq!(parse_number("-0", 65535), None);
    assert_eq!(parse_number("++1", 65535), None);
    assert_eq!(parse_number("1+", 65535), None);
    assert_eq!(parse_number(" 1", 65535), None);
    assert_eq!(parse_number("1 ", 65535), None);
    assert_eq!(parse_number("8 0", 65535), None);
    assert_eq!(parse_number("1_000", 65535), None);
    assert_eq!(parse_number("0x10", 65535), None);
    assert_eq!(parse_number("12.0", 65535), None);
    assert_eq!(parse_number("not-a-number", 65535), None);
    assert_eq!(parse_number("\u{ff18}\u{ff10}", 65535), None);
    assert_eq!(parse_number("\u{661}", 65535), None);
}

#[test]
fn reading_agrees_with_the_standard_library() {
    let texts = [
        "0", "1", "+1", "-1", "", "+", "65535", "65536", "0065535", "12a", "a12", " 12", "١٢",
        "000", "+000", "70000", "4294967296",
    ];
    for text in texts {
        assert_eq!(parse_number(text, 65535), text.parse::<u16>().ok().map(u64::from));
        assert_eq!(parse_number(text, 255), text.parse::<u8>().ok().map(u64::from));
    }
}

#[test]
fn what_is_written_is_read_back() {
    for n in [0u64, 1, 9, 10, 11, 99, 100, 255, 256, 3306, 8000, 65535, u64::MAX] {
        assert_eq!(parse_number(&decimal_text(n), u64::MAX), Some(n));
        assert_eq!(decimal_text(n), n.to_string());
    }
}
