use cities_client::text::parse_bool;
use cities_client::text::parse_decimal;
use cities_client::text::render_bool;
use cities_client::text::render_decimal;
use cities_client::text::same_text;

#[test]
fn decimal_of_small_numbers() {
    assert_eq!(render_decimal(0), "0");
    assert_eq!(render_decimal(7), "7");
    assert_eq!(render_decimal(9), "9");
    assert_eq!(render_decimal(10), "10");
    assert_eq!(render_decimal(100000), "100000");
}

#[test]
fn decimal_of_large_numbers() {
    assert_eq!(render_decimal(1234567890), "1234567890");
    assert_eq!(render_decimal(u64::MAX), "18446744073709551615");
}

#[test]
fn decimal_is_read_back() {
    assert_eq!(parse_decimal("0"), Some(0));
    assert_eq!(parse_decimal("42"), Some(42));
    assert_eq!(parse_decimal("18446744073709551615"), Some(u64::MAX));
}

#[test]
fn decimal_with_leading_zeros_is_read() {
    assert_eq!(parse_decimal("007"), Some(7));
    assert_eq!(parse_decimal("0000000000000000000000000001"), Some(1));
}

#[test]
fn decimal_that_does_not_fit_is_refused() {
    assert_eq!(parse_decimal("18446744073709551616"), None);
    assert_eq!(parse_decimal("99999999999999999999"), None);
    assert_eq!(parse_decimal("184467440737095516150"), None);
}

#[test]
fn decimal_with_other_characters_is_refused() {
    assert_eq!(parse_decimal(""), None);
    assert_eq!(parse_decimal("12a"), None);
    assert_eq!(parse_decimal("-1"), None);
    assert_eq!(parse_decimal("+1"), None);
    assert_eq!(parse_decimal(" 1"), None);
    assert_eq!(parse_decimal("1.5"), None);
    assert_eq!(parse_decimal("١٢"), None);
}

#[test]
fn decimal_round_trip_on_samples() {
    let samples: [u64; 8] = [0, 1, 9, 10, 99, 100, 4294967296, u64::MAX];
    for n in samples {
        assert_eq!(parse_decimal(&render_decimal(n)), Some(n));
    }
}

#[test]
fn flags_are_written_and_read() {
    assert_eq!(render_bool(true), "true");
    assert_eq!(render_bool(false), "false");
    assert_eq!(parse_bool("true"), Some(true));
    assert_eq!(parse_bool("false"), Some(false));
    assert_eq!(parse_bool(&render_bool(true)), Some(true));
    assert_eq!(parse_bool(&render_bool(false)), Some(false));
}

#[test]
fn other_text_is_no_flag() {
    assert_eq!(parse_bool(""), None);
    assert_eq!(parse_bool("True"), None);
    assert_eq!(parse_bool("1"), None);
    assert_eq!(parse_bool("true "), None);
}

#[test]
fn same_text_compares_characters() {
    assert!(same_text("", ""));
    assert!(same_text("limit", "limit"));
    assert!(same_text("Zürich", "Zürich"));
    assert!(!same_text("limit", "limits"));
    assert!(!same_text("limit", "point"));
    assert!(!same_text("Zürich", "Zurich"));
}
