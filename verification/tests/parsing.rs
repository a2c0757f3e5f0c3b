use route_filters::parse::parse_u32;

#[test]
fn parses_plain_decimal_numbers() {
    assert_eq!(parse_u32("0"), Some(0));
    assert_eq!(parse_u32("37"), Some(37));
    assert_eq!(parse_u32("007"), Some(7));
}

#[test]
fn parses_the_largest_value() {
    assert_eq!(parse_u32("4294967295"), Some(u32::MAX));
}

#[test]
fn rejects_values_that_overflow() {
    assert_eq!(parse_u32("4294967296"), None);
    assert_eq!(parse_u32("99999999999999999999"), None);
}

#[test]
fn rejects_non_digit_segments() {
    assert_eq!(parse_u32(""), None);
    assert_eq!(parse_u32("a4"), None);
    assert_eq!(parse_u32("4a"), None);
    assert_eq!(parse_u32("-1"), None);
    assert_eq!(parse_u32("+1"), None);
    assert_eq!(parse_u32("1 "), None);
}
