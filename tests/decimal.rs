use role_reactions::decimal::{format_u64, parse_u64};

#[test]
fn formats_zero_and_extremes() {
    assert_eq!(format_u64(0), "0");
    assert_eq!(format_u64(7), "7");
    assert_eq!(format_u64(300), "300");
    assert_eq!(format_u64(u64::MAX), "18446744073709551615");
}

#[test]
fn parses_plain_digits() {
    assert_eq!(parse_u64("0"), Some(0));
    assert_eq!(parse_u64("300"), Some(300));
    assert_eq!(parse_u64("0000400"), Some(400));
    assert_eq!(parse_u64("18446744073709551615"), Some(u64::MAX));
}

#[test]
fn parses_leading_plus_like_std() {
    assert_eq!(parse_u64("+42"), Some(42));
    assert_eq!("+42".parse::<u64>().ok(), Some(42));
}

#[test]
fn rejects_malformed_text() {
    for text in ["", "+", "-1", "12a", "a12", " 1", "1 ", "\u{1F642}", "++1", "1.0"] {
        assert_eq!(parse_u64(text), None, "text {:?}", text);
        assert_eq!(parse_u64(text), text.parse::<u64>().ok(), "text {:?}", text);
    }
}

#[test]
fn rejects_values_past_64_bits() {
    assert_eq!(parse_u64("18446744073709551616"), None);
    assert_eq!(parse_u64("99999999999999999999999"), None);
    assert_eq!(parse_u64("99999999999999999999x"), None);
}

#[test]
fn format_then_parse_round_trips() {
    for n in [0u64, 1, 9, 10, 99, 100, 123456789, 1 << 40, u64::MAX - 1, u64::MAX] {
        assert_eq!(parse_u64(&format_u64(n)), Some(n));
        assert_eq!(format_u64(n), n.to_string());
    }
}
