use gedcom::parser::line_value::{parse_escape, parse_line_item, parse_optional_line_value};
use gedcom::parser::{ParseError, ParseErrorKind};

#[test]
fn test_parse_escape_valid() {
    let input = "@#ESCAPE@1";
    let expected = Ok(("", String::from("@#ESCAPE@1")));
    let actual = parse_escape(input);
    assert_eq!(actual, expected);
}

#[test]
fn test_parse_escape_invalid_no_leading_at() {
    let input = "#ESCAPE@1";
    let expected = Err(ParseError { remaining: "#ESCAPE@1", kind: ParseErrorKind::At });
    let actual = parse_escape(input);
    assert_eq!(actual, expected);
}

#[test]
fn test_parse_escape_invalid_no_leading_hash() {
    let input = "@ESCAPE@1";
    let expected = Err(ParseError { remaining: "ESCAPE@1", kind: ParseErrorKind::Hash });
    let actual = parse_escape(input);
    assert_eq!(actual, expected);
}

#[test]
fn test_parse_escape_invalid_no_trailing_at() {
    let input = "@#ESCAPE1";
    let expected = Err(ParseError { remaining: "", kind: ParseErrorKind::At });
    let actual = parse_escape(input);
    assert_eq!(actual, expected);
}

#[test]
fn test_parse_escape_invalid_no_trailing_non_at() {
    let input = "@#ESCAPE@";
    let expected = Err(ParseError { remaining: "", kind: ParseErrorKind::NonAt });
    let actual = parse_escape(input);
    assert_eq!(actual, expected);
}

#[test]
fn test_parse_line_item_valid_single_escape() {
    let input = "@#ESCAPE@1";
    let expected = Ok(("", String::from("@#ESCAPE@1")));
    let actual = parse_line_item(input);
    assert_eq!(actual, expected);
}

#[test]
fn test_parse_line_item_valid_multiple_escapes() {
    let input = "@#ESCAPE@1@#ESCAPE@2";
    let expected = Ok(("", String::from("@#ESCAPE@1@#ESCAPE@2")));
    let actual = parse_line_item(input);
    assert_eq!(actual, expected);
}

#[test]
fn test_parse_line_item_valid_single_non_escape() {
    let input = "A";
    let expected = Ok(("", String::from("A")));
    let actual = parse_line_item(input);
    assert_eq!(actual, expected);
}

#[test]
fn test_parse_line_item_valid_multiple_non_escapes() {
    let input = "NON_ESCAPES_WITH_DOUBLE_AT_@@";
    let expected = Ok(("", String::from("NON_ESCAPES_WITH_DOUBLE_AT_@@")));
    let actual = parse_line_item(input);
    assert_eq!(actual, expected);
}

#[test]
fn test_parse_line_item_valid_single_non_escape_with_single_escape() {
    let input = "A@#ESCAPE@1";
    let expected = Ok(("", String::from("A@#ESCAPE@1")));
    let actual = parse_line_item(input);
    assert_eq!(actual, expected);
}

#[test]
fn test_parse_line_item_valid_single_escape_with_single_non_escape() {
    let input = "@#ESCAPE@1A";
    let expected = Ok(("", String::from("@#ESCAPE@1A")));
    let actual = parse_line_item(input);
    assert_eq!(actual, expected);
}

#[test]
fn test_parse_line_item_valid_multiple_escapes_with_multiple_non_escapes() {
    let input = "FOO@#ESCAPE@1BAR@#ESCAPE@2";
    let expected = Ok(("", String::from("FOO@#ESCAPE@1BAR@#ESCAPE@2")));
    let actual = parse_line_item(input);
    assert_eq!(actual, expected);
}

#[test]
fn test_parse_optional_line_value_valid() {
    let input = " FOO";
    let expected = Ok(("", String::from("FOO")));
    let actual = parse_optional_line_value(input);
    assert_eq!(actual, expected);
}

#[test]
fn test_parse_optional_line_value_invalid_no_leading_space() {
    let input = "FOO";
    let expected = Err(ParseError { remaining: "FOO", kind: ParseErrorKind::Delimiter });
    let actual = parse_optional_line_value(input);
    assert_eq!(actual, expected);
}
