use gedcom::parser::level::parse_level;
use gedcom::parser::{ParseError, ParseErrorKind};

#[test]
fn test_parse_level_single_digit_lo() {
    let input = "0";
    let expected = Ok(("", 0));
    let actual = parse_level(input);
    assert_eq!(actual, expected);
}

#[test]
fn test_parse_level_single_digit_hi() {
    let input = "9";
    let expected = Ok(("", 9));
    let actual = parse_level(input);
    assert_eq!(actual, expected);
}

#[test]
fn test_parse_level_double_digit_valid_lo() {
    let input = "10";
    let expected = Ok(("", 10));
    let actual = parse_level(input);
    assert_eq!(actual, expected);
}

#[test]
fn test_parse_level_double_digit_valid_hi() {
    let input = "99";
    let expected = Ok(("", 99));
    let actual = parse_level(input);
    assert_eq!(actual, expected);
}

#[test]
fn test_parse_level_double_digit_invalid_lo() {
    let input = "00";
    let expected = Err(ParseError { remaining: "", kind: ParseErrorKind::Level });
    let actual = parse_level(input);
    assert_eq!(actual, expected);
}

#[test]
fn test_parse_level_double_digit_invalid_hi() {
    let input = "09";
    let expected = Err(ParseError { remaining: "", kind: ParseErrorKind::Level });
    let actual = parse_level(input);
    assert_eq!(actual, expected);
}

#[test]
fn test_parse_level_triple_digit_lo() {
    let input = "100";
    let expected = Ok(("0", 10));
    let actual = parse_level(input);
    assert_eq!(actual, expected);
}

#[test]
fn test_parse_level_triple_digit_hi() {
    let input = "999";
    let expected = Ok(("9", 99));
    let actual = parse_level(input);
    assert_eq!(actual, expected);
}
