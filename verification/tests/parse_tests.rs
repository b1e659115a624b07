use crc_file::{parse, ParseError};

#[test]
fn test_parse() {
    assert_eq!(parse("0x123"), Ok(0x123));
    assert_eq!(parse("123"), Ok(123));
    assert_eq!(parse("0x").unwrap_err(), ParseError::Empty);
    let result = parse("0x10000000000000000").unwrap_err();
    assert_eq!(result, ParseError::PosOverflow);
    let result = parse("abcdefg").unwrap_err();
    assert_eq!(result, ParseError::InvalidDigit);
    let result = parse("0xg").unwrap_err();
    assert_eq!(result, ParseError::InvalidDigit);
    let result = parse("").unwrap_err();
    assert_eq!(result, ParseError::Empty);
}

#[test]
fn test_parse_bounds() {
    assert_eq!(parse("0"), Ok(0));
    assert_eq!(parse("18446744073709551615"), Ok(u64::MAX));
    assert_eq!(parse("18446744073709551616"), Err(ParseError::PosOverflow));
    assert_eq!(parse("0xffffffffffffffff"), Ok(u64::MAX));
    assert_eq!(parse("0xFFFFFFFFFFFFFFFF"), Ok(u64::MAX));
}

#[test]
fn test_parse_sign_and_prefix() {
    // `u64::from_str_radix` accepts one leading `+`, and so does `parse`.
    assert_eq!(parse("+123"), Ok(123));
    assert_eq!(parse("0x+1f"), Ok(0x1f));
    assert_eq!(parse("+"), Err(ParseError::InvalidDigit));
    assert_eq!(parse("0x+"), Err(ParseError::InvalidDigit));
    assert_eq!(parse("-1"), Err(ParseError::InvalidDigit));
    // An upper-case prefix is not recognised: `X` is read as a decimal digit.
    assert_eq!(parse("0X123"), Err(ParseError::InvalidDigit));
}
