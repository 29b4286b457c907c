//! Pointers: the labels of records, between two `@`.
use crate::parser::primitive::{
    alphanum, at, lemma_characters_advance, nonat, parse_alphanum, parse_at, parse_nonat,
};
use crate::parser::util::{four_tuple_to_string, joined, lemma_joined_push, vec_to_string};
use crate::parser::{advances, lemma_fronts_join, splits, text_result, ParseError, Parsed};
use vstd::prelude::*;

verus! {

/// A character inside a pointer.
pub open spec fn pointer_char(s: Seq<char>) -> Parsed<Seq<char>> {
    nonat(s)
}

/// The characters inside a pointer, as many as there are; there may be none.
pub open spec fn pointer_string(s: Seq<char>) -> Parsed<Seq<char>>
    decreases s.len(),
{
    match pointer_char(s) {
        Ok((rest, first)) => match pointer_string(rest) {
            Ok((end, more)) => Ok((end, first + more)),
            Err(error) => Err(error),
        },
        Err(_) => Ok((s, Seq::empty())),
    }
}

/// A pointer: `@`, then a letter, an underscore or a digit, then characters other than
/// `@`, then `@`. What is read is the pointer with both `@`.
pub open spec fn pointer(s: Seq<char>) -> Parsed<Seq<char>> {
    match at(s) {
        Err(error) => Err(error),
        Ok((s1, open)) => match alphanum(s1) {
            Err(error) => Err(error),
            Ok((s2, first)) => match pointer_string(s2) {
                Err(error) => Err(error),
                Ok((s3, more)) => match at(s3) {
                    Err(error) => Err(error),
                    Ok((s4, close)) => Ok((s4, open + first + more + close)),
                },
            },
        },
    }
}

/// Reads a pointer, see [`pointer`].
pub fn parse_pointer(input: &str) -> (r: Result<(&str, String), ParseError<'_>>)
    ensures
        text_result(r) == pointer(input@),
{
    let (rest, open) = match parse_at(input) {
        Ok(read) => read,
        Err(error) => {
            return Err(error);
        },
    };
    let (rest, first) = match parse_alphanum(rest) {
        Ok(read) => read,
        Err(error) => {
            return Err(error);
        },
    };
    let (rest, more) = match parse_pointer_string(rest) {
        Ok(read) => read,
        Err(error) => {
            return Err(error);
        },
    };
    let (rest, close) = match parse_at(rest) {
        Ok(read) => read,
        Err(error) => {
            return Err(error);
        },
    };
    Ok(four_tuple_to_string((rest, (open, first, more, close))))
}

pub fn parse_pointer_char(input: &str) -> (r: Result<(&str, String), ParseError<'_>>)
    ensures
        text_result(r) == pointer_char(input@),
{
    parse_nonat(input)
}

pub fn parse_pointer_string(input: &str) -> (r: Result<(&str, String), ParseError<'_>>)
    ensures
        text_result(r) == pointer_string(input@),
{
    let mut rest = input;
    let mut parts: Vec<String> = Vec::new();
    proof {
        assert(pointer_string(input@) == match pointer_string(rest@) {
            Ok((end, more)) => Ok::<(Seq<char>, Seq<char>), _>((end, joined(parts@) + more)),
            Err(error) => Err(error),
        }) by {
            if let Ok((end, more)) = pointer_string(input@) {
                assert(joined(parts@) + more =~= more);
            }
        }
    }
    loop
        invariant
            pointer_string(input@) == match pointer_string(rest@) {
                Ok((end, more)) => Ok::<(Seq<char>, Seq<char>), _>((end, joined(parts@) + more)),
                Err(error) => Err(error),
            },
        decreases rest@.len(),
    {
        match parse_pointer_char(rest) {
            Ok((next, part)) => {
                proof {
                    lemma_joined_push(parts@, part);
                    if let Ok((end, more)) = pointer_string(next@) {
                        assert(joined(parts@) + (part@ + more) =~= joined(parts@) + part@ + more);
                    }
                }
                parts.push(part);
                rest = next;
            },
            Err(_) => {
                proof {
                    assert(joined(parts@) + Seq::<char>::empty() =~= joined(parts@));
                }
                return Ok(vec_to_string((rest, parts)));
            },
        }
    }
}

/// The characters inside a pointer are the front of the text; they are always read.
pub proof fn lemma_pointer_string_splits(s: Seq<char>)
    ensures
        pointer_string(s) is Ok,
        splits(pointer_string(s), s),
    decreases s.len(),
{
    lemma_characters_advance(s);
    match pointer_char(s) {
        Ok((rest, first)) => {
            lemma_pointer_string_splits(rest);
            if let Ok((end, more)) = pointer_string(rest) {
                lemma_fronts_join(first, rest, more, end, s);
            }
        },
        Err(_) => {
            assert(Seq::<char>::empty() + s =~= s);
        },
    }
}

/// A pointer, where it is read, is the front of the text. It has three characters at
/// least, and `@` is its first and its last.
pub proof fn lemma_pointer_advances(s: Seq<char>)
    ensures
        advances(pointer(s), s),
        pointer(s) matches Ok((_, text)) ==> text.len() >= 3 && text.first() == '@'
            && text.last() == '@',
{
    lemma_characters_advance(s);
    if let Ok((s1, open)) = at(s) {
        lemma_characters_advance(s1);
        if let Ok((s2, first)) = alphanum(s1) {
            lemma_pointer_string_splits(s2);
            if let Ok((s3, more)) = pointer_string(s2) {
                lemma_characters_advance(s3);
                if let Ok((s4, close)) = at(s3) {
                    lemma_fronts_join(open, s1, first, s2, s);
                    lemma_fronts_join(open + first, s2, more, s3, s);
                    lemma_fronts_join(open + first + more, s3, close, s4, s);
                }
            }
        }
    }
}

} // verus!
