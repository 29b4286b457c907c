//! The label that a line gives to its record.
use crate::parser::pointer::{lemma_pointer_advances, parse_pointer, pointer};
use crate::parser::primitive::{delim, lemma_characters_advance, parse_delim, DELIM};
use crate::parser::{
    follows, lemma_fronts_join, lemma_rest_follows, text_result, ParseError, Parsed,
};
use vstd::prelude::*;

verus! {

/// The label of a record: a pointer.
pub open spec fn xref_id(s: Seq<char>) -> Parsed<Seq<char>> {
    pointer(s)
}

/// The label of a record where a line has one: a pointer and a space. What is read is
/// the pointer.
pub open spec fn optional_xref_id(s: Seq<char>) -> Parsed<Seq<char>> {
    match xref_id(s) {
        Err(error) => Err(error),
        Ok((rest, label)) => match delim(rest) {
            Err(error) => Err(error),
            Ok((end, _)) => Ok((end, label)),
        },
    }
}

/// Reads the label of a record and the space behind it, see [`optional_xref_id`].
pub fn parse_optional_xref_id(input: &str) -> (r: Result<(&str, String), ParseError<'_>>)
    ensures
        text_result(r) == optional_xref_id(input@),
{
    let (rest, label) = match parse_xref_id(input) {
        Ok(read) => read,
        Err(error) => {
            return Err(error);
        },
    };
    match parse_delim(rest) {
        Ok((end, _)) => Ok((end, label)),
        Err(error) => Err(error),
    }
}

pub fn parse_xref_id(input: &str) -> (r: Result<(&str, String), ParseError<'_>>)
    ensures
        text_result(r) == xref_id(input@),
{
    parse_pointer(input)
}

/// The label of a record, where it is read with its space, is the front of the text but
/// for the space behind it; what is left follows the text.
pub proof fn lemma_optional_xref_id_follows(s: Seq<char>)
    ensures
        optional_xref_id(s) matches Ok((rest, label)) ==> label + seq![DELIM] + rest == s
            && follows(rest, s),
{
    lemma_pointer_advances(s);
    if let Ok((rest, label)) = xref_id(s) {
        lemma_characters_advance(rest);
        if let Ok((end, space)) = delim(rest) {
            lemma_fronts_join(label, rest, space, end, s);
            lemma_rest_follows(label + space, end, s);
        }
    }
}

} // verus!
