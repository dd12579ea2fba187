use proximity_display::ranges::{parse_range, RangeParseError};

#[test]
fn parse_range_plain() {
    assert_eq!(parse_range("50..150"), Ok(50..150));
    assert_eq!(parse_range("0..0"), Ok(0..0));
    assert_eq!(parse_range("4294967295..4294967295"), Ok(u32::MAX..u32::MAX));
}

#[test]
fn parse_range_accepts_a_leading_plus() {
    // The standard u32 parser takes an optional plus sign, so the range
    // parser does too.
    assert_eq!(parse_range("+5..10"), Ok(5..10));
    assert_eq!(parse_range("5..+10"), Ok(5..10));
}

#[test]
fn parse_range_rejects_missing_separator() {
    assert_eq!(parse_range("50"), Err(RangeParseError::InvalidFormat));
    assert_eq!(parse_range(""), Err(RangeParseError::InvalidFormat));
    assert_eq!(parse_range("50.150"), Err(RangeParseError::InvalidFormat));
}

#[test]
fn parse_range_rejects_extra_separators() {
    assert_eq!(parse_range("1..2..3"), Err(RangeParseError::InvalidFormat));
    assert_eq!(parse_range("1....2"), Err(RangeParseError::InvalidFormat));
}

#[test]
fn parse_range_rejects_bad_numbers() {
    assert_eq!(parse_range("..5"), Err(RangeParseError::InvalidStart));
    assert_eq!(parse_range("a..5"), Err(RangeParseError::InvalidStart));
    assert_eq!(parse_range("-1..5"), Err(RangeParseError::InvalidStart));
    assert_eq!(parse_range("5.."), Err(RangeParseError::InvalidEnd));
    assert_eq!(parse_range("5..b"), Err(RangeParseError::InvalidEnd));
    assert_eq!(parse_range("5..1 0"), Err(RangeParseError::InvalidEnd));
    assert_eq!(parse_range("..") , Err(RangeParseError::InvalidStart));
}

#[test]
fn parse_range_rejects_overflow() {
    assert_eq!(parse_range("4294967296..5"), Err(RangeParseError::InvalidStart));
    assert_eq!(parse_range("5..4294967296"), Err(RangeParseError::InvalidEnd));
    assert_eq!(
        parse_range("99999999999999999999..5"),
        Err(RangeParseError::InvalidStart)
    );
}

#[test]
fn parse_range_matches_the_standard_parser() {
    // Three dots split into a start and a dot-led end, as the standard
    // split does.
    assert_eq!(parse_range("1...2"), Err(RangeParseError::InvalidEnd));
    assert_eq!(parse_range("+..5"), Err(RangeParseError::InvalidStart));
    assert_eq!(parse_range("++1..5"), Err(RangeParseError::InvalidStart));
}
