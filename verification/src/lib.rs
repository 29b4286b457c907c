//! Conversion of GEDCOM 5.5.1 text into flat relational entities.
//!
//! The work is done in stages, each of which takes the whole result of the one before it:
//! the text is read into lines ([`parser`]), the lines are arranged into a forest by their
//! levels, and the forest is mapped to persons, families and child rows ([`models`]).
pub mod models;
pub mod parser;
pub mod text;

use crate::models::gedcom::tree::{forest, GedcomTree};
use crate::models::relation::api_response::{response, ApiResponse, ApiResponseView};
use crate::parser::{document, parse_gedcom, ParseError, ParseErrorKind};
use vstd::prelude::*;

verus! {

/// The textual form of a date of creation.
pub const DATE_CREATED_FORMAT: &'static str = "%Y-%m-%dT%H:%M:%S";

/// What a text is converted to: the response for the forest of its lines, or the failure
/// of the first line that cannot be read.
pub open spec fn relation(text: Seq<char>) -> Result<ApiResponseView, (Seq<char>, ParseErrorKind)> {
    match document(text) {
        Ok((_, lines)) => Ok(response(forest(lines))),
        Err(error) => Err(error),
    }
}

/// Converts a document, see [`relation`].
pub fn gedcom_to_relation(input: &str) -> (r: Result<ApiResponse, ParseError<'_>>)
    ensures
        match r {
            Ok(mapped) => relation(input@) == Ok::<ApiResponseView, (Seq<char>, ParseErrorKind)>(
                mapped@,
            ),
            Err(error) => relation(input@) == Err::<ApiResponseView, (Seq<char>, ParseErrorKind)>(
                (error.remaining@, error.kind),
            ),
        },
{
    match parse_gedcom(input) {
        Ok((_, gedcom_lines)) => {
            let tree_roots = GedcomTree::from(gedcom_lines);
            Ok(ApiResponse::from(tree_roots))
        },
        Err(error) => Err(error),
    }
}

/// Conversion is a function of the text: the same characters give the same persons,
/// families and child rows, in the same order and with the same numbers, or the same
/// failure at the same place.
pub proof fn lemma_conversion_is_deterministic(first: &str, second: &str)
    requires
        first@ == second@,
    ensures
        relation(first@) == relation(second@),
{
}

} // verus!
