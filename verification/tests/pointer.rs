use gedcom::parser::pointer::parse_pointer;
use gedcom::parser::{ParseError, ParseErrorKind};

#[test]
fn test_parse_pointer_valid_alphanum_no_pointer_string() {
    let input = "@A@";
    let expected = Ok(("", String::from("@A@")));
    let actual = parse_pointer(input);
    assert_eq!(actual, expected);
}

#[test]
fn test_parse_pointer_valid_alphanum_valid_pointer_string_short() {
    let input = "@APS1@";
    let expected = Ok(("", String::from("@APS1@")));
    let actual = parse_pointer(input);
    assert_eq!(actual, expected);
}

#[test]
fn test_parse_pointer_valid_alphanum_valid_pointer_string_long() {
    let input = "@A_POINTER_STRING_1@";
    let expected = Ok(("", String::from("@A_POINTER_STRING_1@")));
    let actual = parse_pointer(input);
    assert_eq!(actual, expected);
}

#[test]
fn test_parse_pointer_no_leading_at() {
    let input = "APS1@";
    let expected = Err(ParseError { remaining: "APS1@", kind: ParseErrorKind::At });
    let actual = parse_pointer(input);
    assert_eq!(actual, expected);
}

#[test]
fn test_parse_pointer_no_trailing_at() {
    let input = "@APS1";
    let expected = Err(ParseError { remaining: "", kind: ParseErrorKind::At });
    let actual = parse_pointer(input);
    assert_eq!(actual, expected);
}

#[test]
fn test_parse_pointer_invalid_alphanum_no_pointer_string() {
    let input = "@#@";
    let expected = Err(ParseError { remaining: "#@", kind: ParseErrorKind::Alphanumeric });
    let actual = parse_pointer(input);
    assert_eq!(actual, expected);
}

#[test]
fn test_parse_pointer_no_alphanum_no_pointer_string() {
    let input = "@@";
    let expected = Err(ParseError { remaining: "@", kind: ParseErrorKind::Alphanumeric });
    let actual = parse_pointer(input);
    assert_eq!(actual, expected);
}
