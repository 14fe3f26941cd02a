//! The field decoders on their own: exact values, rejections, and the
//! floating-point text grammar.

use xml_records::{is_float_text, parse_i64, parse_u32};

#[test]
fn u32_exact_values() {
    assert_eq!(parse_u32("0"), Some(0));
    assert_eq!(parse_u32("7"), Some(7));
    assert_eq!(parse_u32("0042"), Some(42));
    assert_eq!(parse_u32("4294967295"), Some(u32::MAX));
}

#[test]
fn u32_rejects_overflow_and_non_digits() {
    assert_eq!(parse_u32("4294967296"), None);
    assert_eq!(parse_u32("99999999999999999999"), None);
    assert_eq!(parse_u32(""), None);
    assert_eq!(parse_u32("12x"), None);
    assert_eq!(parse_u32("-1"), None);
    assert_eq!(parse_u32("+1"), None);
    assert_eq!(parse_u32(" 1"), None);
}

#[test]
fn i64_exact_values() {
    assert_eq!(parse_i64("0"), Some(0));
    assert_eq!(parse_i64("1700000000"), Some(1700000000));
    assert_eq!(parse_i64("+17"), Some(17));
    assert_eq!(parse_i64("-17"), Some(-17));
    assert_eq!(parse_i64("9223372036854775807"), Some(i64::MAX));
    assert_eq!(parse_i64("-9223372036854775808"), Some(i64::MIN));
}

#[test]
fn i64_rejects_overflow_and_non_digits() {
    assert_eq!(parse_i64("9223372036854775808"), None);
    assert_eq!(parse_i64("-9223372036854775809"), None);
    assert_eq!(parse_i64(""), None);
    assert_eq!(parse_i64("+"), None);
    assert_eq!(parse_i64("-"), None);
    assert_eq!(parse_i64("1.5"), None);
    assert_eq!(parse_i64("12 "), None);
}

#[test]
fn float_text_accepts_the_standard_grammar() {
    for t in [
        "0", "2.5", "-2.5", "+2.5", ".5", "5.", "1e9", "1E9", "2.5e-3", "2.5E+3", ".5e2",
        "inf", "-inf", "Infinity", "-INFINITY", "nan", "NaN", "+NAN",
    ] {
        assert!(is_float_text(t), "should accept {t:?}");
        assert!(t.parse::<f64>().is_ok(), "std should accept {t:?} too");
    }
}

#[test]
fn float_text_rejects_what_is_not_a_number() {
    for t in [
        "", ".", "+", "-", "e9", "1e", "1e+", "1.2.3", "2,5", " 2.5", "2.5 ", "0x10",
        "nan2", "infi", "in", "--1",
    ] {
        assert!(!is_float_text(t), "should reject {t:?}");
        assert!(t.parse::<f64>().is_err(), "std should reject {t:?} too");
    }
}
