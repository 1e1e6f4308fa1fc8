use udpt_web::validate::{effective_limit, parse_param_u32, parse_u32};

#[test]
fn parse_plain_numerals() {
    assert_eq!(parse_u32("0"), Some(0));
    assert_eq!(parse_u32("1"), Some(1));
    assert_eq!(parse_u32("123"), Some(123));
    assert_eq!(parse_u32("00042"), Some(42));
    assert_eq!(parse_u32("4294967295"), Some(u32::MAX));
}

#[test]
fn parse_accepts_leading_plus() {
    assert_eq!(parse_u32("+7"), Some(7));
    assert_eq!(parse_u32("+0"), Some(0));
    assert_eq!(parse_u32("+4294967295"), Some(u32::MAX));
}

#[test]
fn parse_rejects_garbage() {
    assert_eq!(parse_u32(""), None);
    assert_eq!(parse_u32("+"), None);
    assert_eq!(parse_u32("-1"), None);
    assert_eq!(parse_u32("12a"), None);
    assert_eq!(parse_u32("a12"), None);
    assert_eq!(parse_u32(" 12"), None);
    assert_eq!(parse_u32("1 2"), None);
    assert_eq!(parse_u32("++1"), None);
}

#[test]
fn parse_rejects_overflow() {
    assert_eq!(parse_u32("4294967296"), None);
    assert_eq!(parse_u32("99999999999999999999"), None);
    assert_eq!(parse_u32("004294967296"), None);
}

#[test]
fn param_defaults_to_zero() {
    assert_eq!(parse_param_u32(None), 0);
    assert_eq!(parse_param_u32(Some("oops")), 0);
    assert_eq!(parse_param_u32(Some("17")), 17);
}

#[test]
fn limit_normalisation() {
    assert_eq!(effective_limit(0), 1000);
    assert_eq!(effective_limit(1), 1);
    assert_eq!(effective_limit(1000), 1000);
    assert_eq!(effective_limit(4096), 4096);
    assert_eq!(effective_limit(4097), 4096);
    assert_eq!(effective_limit(u32::MAX), 4096);
}
