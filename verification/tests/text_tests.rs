use gdyx_study::text::{decimal_string, parse_i64, parse_u64, str_equal};

#[test]
fn decimal_strings_match_to_string() {
    for n in [0i64, 7, 10, 42, -1, -42, 999_990, i64::MAX, i64::MIN] {
        assert_eq!(decimal_string(n), n.to_string());
    }
}

#[test]
fn parse_accepts_digits_with_optional_plus() {
    assert_eq!(parse_u64("0"), Some(0));
    assert_eq!(parse_u64("123"), Some(123));
    assert_eq!(parse_u64("+7"), Some(7));
    assert_eq!(parse_u64("007"), Some(7));
    assert_eq!(parse_u64("18446744073709551615"), Some(u64::MAX));
}

#[test]
fn parse_rejects_what_from_str_rejects() {
    for text in ["", "+", "-1", "-0", "12a", " 1", "1 ", "1_000", "18446744073709551616", "++1", "１"] {
        assert_eq!(parse_u64(text), None, "{text:?}");
        assert!(text.parse::<u64>().is_err(), "{text:?}");
    }
}

#[test]
fn parse_agrees_with_from_str() {
    for text in ["0", "9", "+9", "65536", "4294967296", "99999999999999999999"] {
        assert_eq!(parse_u64(text), text.parse::<u64>().ok(), "{text:?}");
    }
}

#[test]
fn parse_undoes_decimal() {
    for n in [0i64, 1, 51_200, 1_000_000, i64::MAX] {
        assert_eq!(parse_u64(&decimal_string(n)), Some(n as u64));
    }
}

#[test]
fn str_equal_compares_characters() {
    assert!(str_equal("10000", "10000"));
    assert!(!str_equal("10000", "1000"));
    assert!(!str_equal("100.00", "100.0"));
    assert!(str_equal("", ""));
}

#[test]
fn parse_i64_reads_integers_that_fit() {
    assert_eq!(parse_i64("0"), Some(0));
    assert_eq!(parse_i64("10000"), Some(10000));
    assert_eq!(parse_i64("-42"), Some(-42));
    assert_eq!(parse_i64("9223372036854775807"), Some(i64::MAX));
    assert_eq!(parse_i64("-9223372036854775808"), Some(i64::MIN));
    assert_eq!(parse_i64("9223372036854775808"), None);
    assert_eq!(parse_i64("-9223372036854775809"), None);
    assert_eq!(parse_i64("1.5"), None);
    assert_eq!(parse_i64("1e3"), None);
    assert_eq!(parse_i64("+1"), None);
    assert_eq!(parse_i64("-+1"), None);
    assert_eq!(parse_i64("-"), None);
    assert_eq!(parse_i64(""), None);
}
