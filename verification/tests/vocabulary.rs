use gedcom::models::gedcom::GedcomLineTag;
use std::str::FromStr;

#[test]
fn test_from_str_custom_tag_invalid() {
    let input = "INVALID";
    let expected =
        Err("Custom tag value must start with _ and contain only A-Z, a-z, 0-9 and _");
    let actual = GedcomLineTag::from_str(input);
    assert_eq!(actual, expected);
}

#[test]
fn test_from_str_custom_lowercase_tag_invalid() {
    let input = "invalid";
    let expected =
        Err("Custom tag value must start with _ and contain only A-Z, a-z, 0-9 and _");
    let actual = GedcomLineTag::from_str(input);
    assert_eq!(actual, expected);
}

#[test]
fn test_from_str_custom_mixedcase_tag_invalid() {
    let input = "InVaLiD";
    let expected =
        Err("Custom tag value must start with _ and contain only A-Z, a-z, 0-9 and _");
    let actual = GedcomLineTag::from_str(input);
    assert_eq!(actual, expected);
}
