use nautilus_architect::common::decimal::Decimal;
use nautilus_architect::common::parse::{
    decimal_or_zero_from_field, optional_decimal_from_field, optional_decimal_or_zero_from_field,
    parse_decimal, parse_optional_decimal,
};
use rust_decimal::Decimal as RustDecimal;

fn to_rust(d: &Decimal) -> RustDecimal {
    RustDecimal::from_i128_with_scale(d.mantissa(), d.scale())
}

#[test]
fn test_deserialize_optional_decimal() {
    let cases: [(&str, Option<RustDecimal>); 3] = [
        ("123.45", Some(RustDecimal::new(12345, 2))),
        ("0", None),
        ("", None),
    ];
    for (input, expected) in cases {
        let result = optional_decimal_from_field(input).unwrap();
        assert_eq!(result.as_ref().map(to_rust), expected);
    }
}

#[test]
fn test_deserialize_decimal_or_zero() {
    let cases: [(&str, RustDecimal); 3] = [
        ("123.45", RustDecimal::new(12345, 2)),
        ("0", RustDecimal::ZERO),
        ("", RustDecimal::ZERO),
    ];
    for (input, expected) in cases {
        let result = decimal_or_zero_from_field(input).unwrap();
        assert_eq!(to_rust(&result), expected);
    }
}

#[test]
fn test_deserialize_optional_decimal_or_zero() {
    let cases: [(Option<String>, RustDecimal); 3] = [
        (Some("123.45".to_string()), RustDecimal::new(12345, 2)),
        (Some("0".to_string()), RustDecimal::ZERO),
        (None, RustDecimal::ZERO),
    ];
    for (input, expected) in cases {
        let result = optional_decimal_or_zero_from_field(&input).unwrap();
        assert_eq!(to_rust(&result), expected);
    }
}

#[test]
fn test_parse_decimal() {
    let cases: [(&str, RustDecimal); 3] = [
        ("123.45", RustDecimal::new(12345, 2)),
        ("0", RustDecimal::ZERO),
        ("0.0", RustDecimal::ZERO),
    ];
    for (input, expected) in cases {
        let result = parse_decimal(input).unwrap();
        assert_eq!(to_rust(&result), expected);
    }
}

#[test]
fn test_parse_decimal_invalid() {
    assert!(parse_decimal("invalid").is_err());
    assert!(parse_decimal("").is_err());
}

#[test]
fn test_parse_optional_decimal() {
    let cases: [(Option<String>, Option<RustDecimal>); 4] = [
        (Some("123.45".to_string()), Some(RustDecimal::new(12345, 2))),
        (Some("0".to_string()), Some(RustDecimal::ZERO)),
        (Some(String::new()), None),
        (None, None),
    ];
    for (input, expected) in cases {
        let result = parse_optional_decimal(&input).unwrap();
        assert_eq!(result.as_ref().map(to_rust), expected);
    }
}

#[test]
fn parse_decimal_keeps_mantissa_and_scale() {
    let d = parse_decimal("-0.0075").unwrap();
    assert_eq!(d.mantissa(), -75);
    assert_eq!(d.scale(), 4);
}

#[test]
fn parse_decimal_error_carries_input() {
    let err = parse_decimal("12x").unwrap_err();
    assert_eq!(err.input, "12x");
    let expected = "12x".parse::<RustDecimal>().unwrap_err().to_string();
    assert_eq!(err.reason, expected);
}

#[test]
fn parse_optional_decimal_invalid_is_error() {
    let err = parse_optional_decimal(&Some("abc".to_string())).unwrap_err();
    assert_eq!(err.input, "abc");
}

#[test]
fn field_helpers_reject_invalid_text() {
    assert!(optional_decimal_from_field("x").is_err());
    assert!(decimal_or_zero_from_field("x").is_err());
    assert!(optional_decimal_or_zero_from_field(&Some("x".to_string())).is_err());
}

#[test]
fn optional_decimal_or_zero_empty_string_is_zero() {
    let d = optional_decimal_or_zero_from_field(&Some(String::new())).unwrap();
    assert!(d.is_zero());
}

#[test]
fn decimal_constructors() {
    let d = Decimal::new(12345, 2);
    assert_eq!((d.mantissa(), d.scale()), (12345, 2));
    assert!(Decimal::zero().is_zero());
    let w = Decimal::from_i128_with_scale(-7, 28);
    assert_eq!(to_rust(&w), RustDecimal::from_i128_with_scale(-7, 28));
}
