use rs_tools::timestamp::{open_time_from_u64, parse_decimal_i64, parse_open_time};

fn chars(s: &str) -> Vec<char> {
    s.chars().collect()
}

#[test]
fn numeric_text_keeps_its_unit() {
    assert_eq!(parse_open_time("1710000000"), Some(1710000000));
    assert_eq!(parse_open_time("1710000000000"), Some(1710000000000));
    assert_eq!(parse_open_time("  42\t\n"), Some(42));
    assert_eq!(parse_open_time("+7"), Some(7));
    assert_eq!(parse_open_time("-15"), Some(-15));
    assert_eq!(parse_open_time("\u{3000}8\u{00A0}"), Some(8));
}

#[test]
fn rfc3339_text_in_milliseconds() {
    assert_eq!(parse_open_time("2024-03-09T16:00:00Z"), Some(1710000000000));
    assert_eq!(parse_open_time(" 2024-03-09T16:00:00.250Z "), Some(1710000000250));
    assert_eq!(parse_open_time("2024-03-10T00:00:00+08:00"), Some(1710000000000));
}

#[test]
fn unreadable_text_is_none() {
    assert_eq!(parse_open_time(""), None);
    assert_eq!(parse_open_time("   "), None);
    assert_eq!(parse_open_time("12a"), None);
    assert_eq!(parse_open_time("1_000"), None);
    assert_eq!(parse_open_time("2024-03-09 16:00"), None);
}

#[test]
fn decimal_edges() {
    assert_eq!(parse_decimal_i64(&chars("9223372036854775807")), Some(i64::MAX));
    assert_eq!(parse_decimal_i64(&chars("-9223372036854775808")), Some(i64::MIN));
    assert_eq!(parse_decimal_i64(&chars("9223372036854775808")), None);
    assert_eq!(parse_decimal_i64(&chars("-9223372036854775809")), None);
    assert_eq!(parse_decimal_i64(&chars("000000000000000000000000012")), Some(12));
    assert_eq!(parse_decimal_i64(&chars("99999999999999999999999999999")), None);
    assert_eq!(parse_decimal_i64(&chars("-0")), Some(0));
    assert_eq!(parse_decimal_i64(&chars("+")), None);
    assert_eq!(parse_decimal_i64(&chars("-")), None);
    assert_eq!(parse_decimal_i64(&chars("+-5")), None);
    assert_eq!(parse_decimal_i64(&chars(" 5")), None);
    assert_eq!(parse_decimal_i64(&chars("")), None);
}

#[test]
fn decimal_agrees_with_std() {
    for s in ["0", "12", "-12", "+12", "007", "-", "", "1e3", "９", "-9223372036854775808"] {
        assert_eq!(parse_decimal_i64(&chars(s)), s.parse::<i64>().ok(), "{}", s);
    }
}

#[test]
fn unsigned_open_time() {
    assert_eq!(open_time_from_u64(1710000000000), Some(1710000000000));
    assert_eq!(open_time_from_u64(i64::MAX as u64), Some(i64::MAX));
    assert_eq!(open_time_from_u64(i64::MAX as u64 + 1), None);
    assert_eq!(open_time_from_u64(u64::MAX), None);
}

#[test]
fn integer_text_reads_back() {
    for v in [0i64, 7, -7, 1710000000, 1710000000000, i64::MAX, i64::MIN, -1] {
        assert_eq!(parse_open_time(&v.to_string()), Some(v));
    }
}
