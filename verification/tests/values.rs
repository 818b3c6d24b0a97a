use metervalues::values::{parse_date, parse_decimal, Date, Decimal};

#[test]
fn dates_are_read_in_iso_form() {
    assert_eq!(parse_date("2026-08-15"), Some(Date { year: 2026, month: 8, day: 15 }));
    assert_eq!(parse_date("2024-02-29"), Some(Date { year: 2024, month: 2, day: 29 }));
    assert_eq!(parse_date("2026-02-29"), None);
    assert_eq!(parse_date("15.08.2026"), None);
    assert_eq!(parse_date(""), None);
}

#[test]
fn decimals_are_read_as_csv_fields_are_deserialized() {
    // csv reads numbers with a fraction as f64, so trailing zeros go.
    assert_eq!(parse_decimal("15234.000"), Some(Decimal { mantissa: 15_234, scale: 0 }));
    assert_eq!(parse_decimal("123.456"), Some(Decimal { mantissa: 123_456, scale: 3 }));
    assert_eq!(parse_decimal("0"), Some(Decimal { mantissa: 0, scale: 0 }));
    assert_eq!(parse_decimal("-1.25"), Some(Decimal { mantissa: -125, scale: 2 }));
    assert_eq!(parse_decimal("1.5e3"), Some(Decimal { mantissa: 1500, scale: 0 }));
    assert_eq!(parse_decimal("abc"), None);
    assert_eq!(parse_decimal(""), None);
}

#[test]
fn long_decimals_are_rounded_through_f64() {
    // 20 significant digits do not survive the f64 on the way.
    let read = parse_decimal("1234567890.1234567891").unwrap();
    assert_ne!(read, Decimal { mantissa: 12_345_678_901_234_567_891, scale: 10 });
}
