use spin_apps::decimal::{parse_i64, parse_usize, usize_to_decimal};

#[test]
fn usize_numerals() {
    assert_eq!(parse_usize("42"), Some(42));
    assert_eq!(parse_usize("+7"), Some(7));
    assert_eq!(parse_usize("007"), Some(7));
    assert_eq!(parse_usize("0"), Some(0));
    for bad in ["", "+", "-", "-1", " 1", "1 ", "1a", "٣", "++1"] {
        assert_eq!(parse_usize(bad), None, "{bad:?}");
        assert_eq!(parse_usize(bad), bad.parse::<usize>().ok(), "{bad:?}");
    }
    let max = usize::MAX.to_string();
    assert_eq!(parse_usize(&max), Some(usize::MAX));
    let over = format!("{}0", max);
    assert_eq!(parse_usize(&over), None);
}

#[test]
fn i64_numerals() {
    assert_eq!(parse_i64("-9223372036854775808"), Some(i64::MIN));
    assert_eq!(parse_i64("9223372036854775807"), Some(i64::MAX));
    assert_eq!(parse_i64("9223372036854775808"), None);
    assert_eq!(parse_i64("-9223372036854775809"), None);
    assert_eq!(parse_i64("-0"), Some(0));
    assert_eq!(parse_i64("+15"), Some(15));
    assert_eq!(parse_i64("-15"), Some(-15));
    for bad in ["", "-", "+", "--1", "+-1", "1.5", "1e3"] {
        assert_eq!(parse_i64(bad), None, "{bad:?}");
        assert_eq!(parse_i64(bad), bad.parse::<i64>().ok(), "{bad:?}");
    }
}

#[test]
fn decimal_rendering() {
    assert_eq!(usize_to_decimal(0), "0");
    assert_eq!(usize_to_decimal(9), "9");
    assert_eq!(usize_to_decimal(10), "10");
    assert_eq!(usize_to_decimal(1234567), "1234567");
    assert_eq!(usize_to_decimal(usize::MAX), usize::MAX.to_string());
}

#[test]
fn decimal_round_trip() {
    for n in [0usize, 1, 9, 10, 99, 100, 65535, usize::MAX] {
        assert_eq!(parse_usize(&usize_to_decimal(n)), Some(n));
    }
}
