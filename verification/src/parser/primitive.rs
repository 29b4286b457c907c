//! The characters of the grammar.
//!
//! Letters, the underscore, digits, the space, `@`, `#` and the two characters of a line
//! end are the characters of ASCII themselves. The class of other characters is a range
//! of bytes, and a character belongs to it by the low eight bits of its code point.
use crate::parser::util::{char_to_string, tuple_to_string};
use crate::parser::{advances, text_result, ParseError, ParseErrorKind, Parsed};
use crate::text::split_first;
use vstd::prelude::*;

verus! {

pub const AT: char = '@';

pub const CR: char = '\r';

pub const DELIM: char = ' ';

pub const HASH: char = '#';

pub const LF: char = '\n';

/// The low eight bits of the code point of a character.
pub open spec fn low_byte(c: char) -> int {
    (c as u32 % 256) as int
}

/// A letter of ASCII or the underscore.
pub open spec fn is_alpha(c: char) -> bool {
    'A' <= c <= 'Z' || 'a' <= c <= 'z' || c == '_'
}

/// A decimal digit.
pub open spec fn is_digit(c: char) -> bool {
    '0' <= c <= '9'
}

/// The punctuation of ASCII without `#`, `@` and the underscore, and the bytes from 0x80
/// to 0xFE, by the low byte.
pub open spec fn is_otherchar(c: char) -> bool {
    ||| 0x21 <= low_byte(c) <= 0x22
    ||| 0x24 <= low_byte(c) <= 0x2F
    ||| 0x3A <= low_byte(c) <= 0x3F
    ||| 0x5B <= low_byte(c) <= 0x5E
    ||| low_byte(c) == 0x60
    ||| 0x7B <= low_byte(c) <= 0x7E
    ||| 0x80 <= low_byte(c) <= 0xFE
}

/// Reads the first character of a text where it is accepted.
pub open spec fn single(s: Seq<char>, accepted: bool, kind: ParseErrorKind) -> Parsed<Seq<char>> {
    if s.len() > 0 && accepted {
        Ok((s.skip(1), seq![s[0]]))
    } else {
        Err((s, kind))
    }
}

pub open spec fn alpha(s: Seq<char>) -> Parsed<Seq<char>> {
    single(s, s.len() > 0 && is_alpha(s[0]), ParseErrorKind::Alpha)
}

pub open spec fn at(s: Seq<char>) -> Parsed<Seq<char>> {
    single(s, s.len() > 0 && s[0] == AT, ParseErrorKind::At)
}

pub open spec fn carriage_return(s: Seq<char>) -> Parsed<Seq<char>> {
    single(s, s.len() > 0 && s[0] == CR, ParseErrorKind::CarriageReturn)
}

pub open spec fn delim(s: Seq<char>) -> Parsed<Seq<char>> {
    single(s, s.len() > 0 && s[0] == DELIM, ParseErrorKind::Delimiter)
}

pub open spec fn digit(s: Seq<char>) -> Parsed<Seq<char>> {
    single(s, s.len() > 0 && is_digit(s[0]), ParseErrorKind::Digit)
}

pub open spec fn hash(s: Seq<char>) -> Parsed<Seq<char>> {
    single(s, s.len() > 0 && s[0] == HASH, ParseErrorKind::Hash)
}

pub open spec fn line_feed(s: Seq<char>) -> Parsed<Seq<char>> {
    single(s, s.len() > 0 && s[0] == LF, ParseErrorKind::LineFeed)
}

pub open spec fn otherchar(s: Seq<char>) -> Parsed<Seq<char>> {
    single(s, s.len() > 0 && is_otherchar(s[0]), ParseErrorKind::OtherChar)
}

/// Two `@`, which stand for one in a value.
pub open spec fn double_at(s: Seq<char>) -> Parsed<Seq<char>> {
    match at(s) {
        Ok((rest, first)) => match at(rest) {
            Ok((end, second)) => Ok((end, first + second)),
            Err(error) => Err(error),
        },
        Err(error) => Err(error),
    }
}

/// A letter, an underscore or a digit.
pub open spec fn alphanum(s: Seq<char>) -> Parsed<Seq<char>> {
    if alpha(s) is Ok {
        alpha(s)
    } else if digit(s) is Ok {
        digit(s)
    } else {
        Err((s, ParseErrorKind::Alphanumeric))
    }
}

/// What may stand in a value: a letter, an underscore, a space, a digit, two `@`, `#`,
/// or a character of [`is_otherchar`].
pub open spec fn anychar(s: Seq<char>) -> Parsed<Seq<char>> {
    if alpha(s) is Ok {
        alpha(s)
    } else if delim(s) is Ok {
        delim(s)
    } else if digit(s) is Ok {
        digit(s)
    } else if double_at(s) is Ok {
        double_at(s)
    } else if hash(s) is Ok {
        hash(s)
    } else if otherchar(s) is Ok {
        otherchar(s)
    } else {
        Err((s, ParseErrorKind::AnyChar))
    }
}

/// What may stand in a value, without `@`.
pub open spec fn nonat(s: Seq<char>) -> Parsed<Seq<char>> {
    if alpha(s) is Ok {
        alpha(s)
    } else if delim(s) is Ok {
        delim(s)
    } else if digit(s) is Ok {
        digit(s)
    } else if hash(s) is Ok {
        hash(s)
    } else if otherchar(s) is Ok {
        otherchar(s)
    } else {
        Err((s, ParseErrorKind::NonAt))
    }
}

/// Computes [`low_byte`].
fn low(c: char) -> (byte: u8)
    ensures
        byte == low_byte(c),
{
    (c as u32 % 256) as u8
}

/// Reads the first character of a text where it is accepted, see [`single`].
fn read_single<'a>(
    input: &'a str,
    first: Option<(char, &'a str)>,
    accepted: bool,
    kind: ParseErrorKind,
) -> (r: Result<(&'a str, String), ParseError<'a>>)
    requires
        input@.len() == 0 ==> first is None,
        input@.len() > 0 ==> (first matches Some((c, rest)) && c == input@[0] && rest@
            == input@.skip(1)),
    ensures
        text_result(r) == single(input@, accepted, kind),
{
    match first {
        Some((c, rest)) => {
            if accepted {
                Ok(char_to_string((rest, c)))
            } else {
                Err(ParseError { remaining: input, kind })
            }
        },
        None => Err(ParseError { remaining: input, kind }),
    }
}

pub fn parse_alpha(input: &str) -> (r: Result<(&str, String), ParseError<'_>>)
    ensures
        text_result(r) == alpha(input@),
{
    let first = split_first(input);
    let accepted = match first {
        Some((c, _)) => ('A' <= c && c <= 'Z') || ('a' <= c && c <= 'z') || c == '_',
        None => false,
    };
    read_single(input, first, accepted, ParseErrorKind::Alpha)
}

pub fn parse_alphanum(input: &str) -> (r: Result<(&str, String), ParseError<'_>>)
    ensures
        text_result(r) == alphanum(input@),
{
    if let Ok(read) = parse_alpha(input) {
        return Ok(read);
    }
    if let Ok(read) = parse_digit(input) {
        return Ok(read);
    }
    Err(ParseError { remaining: input, kind: ParseErrorKind::Alphanumeric })
}

pub fn parse_anychar(input: &str) -> (r: Result<(&str, String), ParseError<'_>>)
    ensures
        text_result(r) == anychar(input@),
{
    if let Ok(read) = parse_alpha(input) {
        return Ok(read);
    }
    if let Ok(read) = parse_delim(input) {
        return Ok(read);
    }
    if let Ok(read) = parse_digit(input) {
        return Ok(read);
    }
    if let Ok(read) = parse_double_at(input) {
        return Ok(read);
    }
    if let Ok(read) = parse_hash(input) {
        return Ok(read);
    }
    if let Ok(read) = parse_otherchar(input) {
        return Ok(read);
    }
    Err(ParseError { remaining: input, kind: ParseErrorKind::AnyChar })
}

pub fn parse_at(input: &str) -> (r: Result<(&str, String), ParseError<'_>>)
    ensures
        text_result(r) == at(input@),
{
    let first = split_first(input);
    let accepted = match first {
        Some((c, _)) => c == AT,
        None => false,
    };
    read_single(input, first, accepted, ParseErrorKind::At)
}

pub fn parse_carriage_return(input: &str) -> (r: Result<(&str, String), ParseError<'_>>)
    ensures
        text_result(r) == carriage_return(input@),
{
    let first = split_first(input);
    let accepted = match first {
        Some((c, _)) => c == CR,
        None => false,
    };
    read_single(input, first, accepted, ParseErrorKind::CarriageReturn)
}

pub fn parse_delim(input: &str) -> (r: Result<(&str, String), ParseError<'_>>)
    ensures
        text_result(r) == delim(input@),
{
    let first = split_first(input);
    let accepted = match first {
        Some((c, _)) => c == DELIM,
        None => false,
    };
    read_single(input, first, accepted, ParseErrorKind::Delimiter)
}

pub fn parse_digit(input: &str) -> (r: Result<(&str, String), ParseError<'_>>)
    ensures
        text_result(r) == digit(input@),
{
    let first = split_first(input);
    let accepted = match first {
        Some((c, _)) => '0' <= c && c <= '9',
        None => false,
    };
    read_single(input, first, accepted, ParseErrorKind::Digit)
}

pub fn parse_double_at(input: &str) -> (r: Result<(&str, String), ParseError<'_>>)
    ensures
        text_result(r) == double_at(input@),
{
    let (rest, first) = match parse_at(input) {
        Ok(read) => read,
        Err(error) => {
            return Err(error);
        },
    };
    let (end, second) = match parse_at(rest) {
        Ok(read) => read,
        Err(error) => {
            return Err(error);
        },
    };
    Ok(tuple_to_string((end, (first, second))))
}

pub fn parse_hash(input: &str) -> (r: Result<(&str, String), ParseError<'_>>)
    ensures
        text_result(r) == hash(input@),
{
    let first = split_first(input);
    let accepted = match first {
        Some((c, _)) => c == HASH,
        None => false,
    };
    read_single(input, first, accepted, ParseErrorKind::Hash)
}

pub fn parse_line_feed(input: &str) -> (r: Result<(&str, String), ParseError<'_>>)
    ensures
        text_result(r) == line_feed(input@),
{
    let first = split_first(input);
    let accepted = match first {
        Some((c, _)) => c == LF,
        None => false,
    };
    read_single(input, first, accepted, ParseErrorKind::LineFeed)
}

pub fn parse_nonat(input: &str) -> (r: Result<(&str, String), ParseError<'_>>)
    ensures
        text_result(r) == nonat(input@),
{
    if let Ok(read) = parse_alpha(input) {
        return Ok(read);
    }
    if let Ok(read) = parse_delim(input) {
        return Ok(read);
    }
    if let Ok(read) = parse_digit(input) {
        return Ok(read);
    }
    if let Ok(read) = parse_hash(input) {
        return Ok(read);
    }
    if let Ok(read) = parse_otherchar(input) {
        return Ok(read);
    }
    Err(ParseError { remaining: input, kind: ParseErrorKind::NonAt })
}

pub fn parse_otherchar(input: &str) -> (r: Result<(&str, String), ParseError<'_>>)
    ensures
        text_result(r) == otherchar(input@),
{
    let first = split_first(input);
    let accepted = match first {
        Some((c, _)) => {
            let byte = low(c);
            (0x21 <= byte && byte <= 0x22) || (0x24 <= byte && byte <= 0x2F) || (0x3A <= byte
                && byte <= 0x3F) || (0x5B <= byte && byte <= 0x5E) || byte == 0x60 || (0x7B
                <= byte && byte <= 0x7E) || (0x80 <= byte && byte <= 0xFE)
        },
        None => false,
    };
    read_single(input, first, accepted, ParseErrorKind::OtherChar)
}

/// Each of the characters of the grammar, where it is read, is the front of the text.
pub proof fn lemma_characters_advance(s: Seq<char>)
    ensures
        advances(alpha(s), s),
        advances(at(s), s),
        advances(carriage_return(s), s),
        advances(delim(s), s),
        advances(digit(s), s),
        advances(hash(s), s),
        advances(line_feed(s), s),
        advances(otherchar(s), s),
        advances(double_at(s), s),
        advances(alphanum(s), s),
        advances(anychar(s), s),
        advances(nonat(s), s),
{
    if s.len() >= 1 {
        assert(seq![s[0]] + s.skip(1) =~= s);
    }
    if s.len() >= 2 {
        assert(seq![s[0]] + seq![s[1]] + s.skip(1).skip(1) =~= s);
    }
}

} // verus!
