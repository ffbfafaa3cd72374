use send_it::decimal::parse_decimal;
use send_it::settings::edited_limit;

#[test]
fn parses_plain_and_signed_numbers() {
    assert_eq!(parse_decimal("42", u64::MAX), Some(42));
    assert_eq!(parse_decimal("+42", u64::MAX), Some(42));
    assert_eq!(parse_decimal("007", u64::MAX), Some(7));
    assert_eq!(parse_decimal("0", u64::MAX), Some(0));
}

#[test]
fn refuses_what_is_not_a_number() {
    for text in ["", "+", "-", "-1", "12a", " 1", "1 ", "1.5", "١٢", "++1"] {
        assert_eq!(parse_decimal(text, u64::MAX), None, "{:?}", text);
    }
}

#[test]
fn refuses_numbers_above_the_bound() {
    assert_eq!(parse_decimal("100", 100), Some(100));
    assert_eq!(parse_decimal("101", 100), None);
    assert_eq!(parse_decimal("18446744073709551615", u64::MAX), Some(u64::MAX));
    assert_eq!(parse_decimal("18446744073709551616", u64::MAX), None);
    assert_eq!(parse_decimal("99999999999999999999999", u64::MAX), None);
}

#[test]
fn agrees_with_std_parse() {
    for text in ["", "0", "+0", "-0", "12", "+12", "-12", "4294967296", "18446744073709551615",
        "18446744073709551616", "1_000", "abc", "+", "9", "00000000000000000000001"] {
        assert_eq!(parse_decimal(text, u64::MAX), text.parse::<u64>().ok(), "{:?}", text);
        assert_eq!(
            parse_decimal(text, usize::MAX as u64).map(|v| v as usize),
            text.parse::<usize>().ok(),
            "{:?}",
            text
        );
    }
}

#[test]
fn printed_numbers_parse_back() {
    for n in [0u64, 1, 9, 10, 99, 100, 12345, u64::MAX] {
        assert_eq!(parse_decimal(&n.to_string(), u64::MAX), Some(n));
    }
}

#[test]
fn edited_limit_is_clamped() {
    assert_eq!(edited_limit(100, "5", 10, 1000), 10);
    assert_eq!(edited_limit(100, "2000", 10, 1000), 1000);
    assert_eq!(edited_limit(100, "500", 10, 1000), 500);
    assert_eq!(edited_limit(100, "10", 10, 1000), 10);
    assert_eq!(edited_limit(100, "1000", 10, 1000), 1000);
}

#[test]
fn edited_limit_keeps_old_value_for_bad_text() {
    assert_eq!(edited_limit(100, "abc", 10, 1000), 100);
    assert_eq!(edited_limit(100, "", 10, 1000), 100);
    assert_eq!(edited_limit(100, "99999999999999999999999", 10, 1000), 100);
}
