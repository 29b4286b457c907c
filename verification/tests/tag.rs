use gedcom::parser::tag::parse_tag;
use gedcom::parser::{ParseError, ParseErrorKind};

#[test]
fn test_parse_tag_custom_tag_invalid() {
    let input = "INVALID";
    let expected = Err(ParseError { remaining: "", kind: ParseErrorKind::Tag });
    let actual = parse_tag(input);
    assert_eq!(actual, expected);
}

#[test]
fn test_parse_tag_custom_lowercase_tag_invalid() {
    let input = "invalid";
    let expected = Err(ParseError { remaining: "", kind: ParseErrorKind::Tag });
    let actual = parse_tag(input);
    assert_eq!(actual, expected);
}

#[test]
fn test_parse_tag_custom_mixedcase_tag_invalid() {
    let input = "InVaLiD";
    let expected = Err(ParseError { remaining: "", kind: ParseErrorKind::Tag });
    let actual = parse_tag(input);
    assert_eq!(actual, expected);
}
