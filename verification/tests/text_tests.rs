use sentri::text::{parse_u64, parse_usize};

#[test]
fn parse_u64_accepts_digit_strings_in_range() {
    assert_eq!(parse_u64("0"), Some(0));
    assert_eq!(parse_u64("42"), Some(42));
    assert_eq!(parse_u64("18446744073709551615"), Some(u64::MAX));
}

#[test]
fn parse_u64_rejects_everything_else() {
    assert_eq!(parse_u64(""), None);
    assert_eq!(parse_u64("12a"), None);
    assert_eq!(parse_u64("-1"), None);
    assert_eq!(parse_u64(" 7"), None);
    assert_eq!(parse_u64("18446744073709551616"), None); // one past u64::MAX
}

#[test]
fn parse_usize_matches_parse_u64_for_small_values() {
    assert_eq!(parse_usize("500"), Some(500));
    assert_eq!(parse_usize("zero"), None);
}
