//! The end of a line.
use crate::parser::primitive::{
    carriage_return, lemma_characters_advance, line_feed, parse_carriage_return,
    parse_line_feed,
};
use crate::parser::util::tuple_to_string;
use crate::parser::{
    advances, lemma_fronts_join, text_result, ParseError, ParseErrorKind, Parsed,
};
use vstd::prelude::*;

verus! {

/// A carriage return and then a line feed.
pub open spec fn crlf(s: Seq<char>) -> Parsed<Seq<char>> {
    match carriage_return(s) {
        Ok((rest, first)) => match line_feed(rest) {
            Ok((end, second)) => Ok((end, first + second)),
            Err(error) => Err(error),
        },
        Err(error) => Err(error),
    }
}

/// A line feed and then a carriage return.
pub open spec fn lfcr(s: Seq<char>) -> Parsed<Seq<char>> {
    match line_feed(s) {
        Ok((rest, first)) => match carriage_return(rest) {
            Ok((end, second)) => Ok((end, first + second)),
            Err(error) => Err(error),
        },
        Err(error) => Err(error),
    }
}

/// The end of a line: the two characters in either order, or one of them alone. The
/// pair is taken where it is there.
pub open spec fn terminator(s: Seq<char>) -> Parsed<Seq<char>> {
    if crlf(s) is Ok {
        crlf(s)
    } else if lfcr(s) is Ok {
        lfcr(s)
    } else if carriage_return(s) is Ok {
        carriage_return(s)
    } else if line_feed(s) is Ok {
        line_feed(s)
    } else {
        Err((s, ParseErrorKind::Terminator))
    }
}

/// Reads the end of a line, see [`terminator`].
pub fn parse_terminator(input: &str) -> (r: Result<(&str, String), ParseError<'_>>)
    ensures
        text_result(r) == terminator(input@),
{
    if let Ok(read) = parse_crlf(input) {
        return Ok(read);
    }
    if let Ok(read) = parse_lfcr(input) {
        return Ok(read);
    }
    if let Ok(read) = parse_carriage_return(input) {
        return Ok(read);
    }
    if let Ok(read) = parse_line_feed(input) {
        return Ok(read);
    }
    Err(ParseError { remaining: input, kind: ParseErrorKind::Terminator })
}

pub fn parse_crlf(input: &str) -> (r: Result<(&str, String), ParseError<'_>>)
    ensures
        text_result(r) == crlf(input@),
{
    let (rest, first) = match parse_carriage_return(input) {
        Ok(read) => read,
        Err(error) => {
            return Err(error);
        },
    };
    let (end, second) = match parse_line_feed(rest) {
        Ok(read) => read,
        Err(error) => {
            return Err(error);
        },
    };
    Ok(tuple_to_string((end, (first, second))))
}

pub fn parse_lfcr(input: &str) -> (r: Result<(&str, String), ParseError<'_>>)
    ensures
        text_result(r) == lfcr(input@),
{
    let (rest, first) = match parse_line_feed(input) {
        Ok(read) => read,
        Err(error) => {
            return Err(error);
        },
    };
    let (end, second) = match parse_carriage_return(rest) {
        Ok(read) => read,
        Err(error) => {
            return Err(error);
        },
    };
    Ok(tuple_to_string((end, (first, second))))
}

/// The end of a line, where it is read, is the front of the text.
pub proof fn lemma_terminator_advances(s: Seq<char>)
    ensures
        advances(crlf(s), s),
        advances(lfcr(s), s),
        advances(terminator(s), s),
{
    lemma_characters_advance(s);
    if let Ok((rest, first)) = carriage_return(s) {
        lemma_characters_advance(rest);
        if let Ok((end, second)) = line_feed(rest) {
            lemma_fronts_join(first, rest, second, end, s);
        }
    }
    if let Ok((rest, first)) = line_feed(s) {
        lemma_characters_advance(rest);
        if let Ok((end, second)) = carriage_return(rest) {
            lemma_fronts_join(first, rest, second, end, s);
        }
    }
}

} // verus!
