//! The tag of a line.
use crate::models::gedcom::line::{classify, GedcomLineTag, TagView};
use crate::parser::primitive::{alphanum, lemma_characters_advance, parse_alphanum};
use crate::parser::util::{joined, lemma_joined_push, vec_to_string};
use crate::parser::{
    advances, follows, lemma_fronts_join, lemma_rest_follows, splits, ParseError,
    ParseErrorKind, Parsed,
};
use std::str::FromStr;
use vstd::prelude::*;

verus! {

/// Letters, underscores and digits, as many as there are; there may be none.
pub open spec fn word_rest(s: Seq<char>) -> Parsed<Seq<char>>
    decreases s.len(),
{
    match alphanum(s) {
        Ok((rest, first)) => match word_rest(rest) {
            Ok((end, more)) => Ok((end, first + more)),
            Err(error) => Err(error),
        },
        Err(_) => Ok((s, Seq::empty())),
    }
}

/// One or more letters, underscores and digits.
pub open spec fn word(s: Seq<char>) -> Parsed<Seq<char>> {
    match alphanum(s) {
        Ok((rest, first)) => match word_rest(rest) {
            Ok((end, more)) => Ok((end, first + more)),
            Err(error) => Err(error),
        },
        Err(error) => Err(error),
    }
}

/// The tag at the start of a text: the longest word there, which [`classify`] has to
/// know. For a word that is no tag the reason is [`ParseErrorKind::Tag`], at the place
/// behind the word.
pub open spec fn tag(s: Seq<char>) -> Parsed<TagView> {
    match word(s) {
        Err(error) => Err(error),
        Ok((rest, text)) => match classify(text) {
            Some(tag) => Ok((rest, tag)),
            None => Err((rest, ParseErrorKind::Tag)),
        },
    }
}

/// The result of [`parse_tag`], as contracts see it.
pub open spec fn tag_result(r: Result<(&str, GedcomLineTag), ParseError<'_>>) -> Parsed<TagView> {
    match r {
        Ok((rest, value)) => Ok((rest@, value@)),
        Err(error) => Err((error.remaining@, error.kind)),
    }
}

/// Reads one or more letters, underscores and digits, see [`word`].
fn parse_word(input: &str) -> (r: Result<(&str, String), ParseError<'_>>)
    ensures
        crate::parser::text_result(r) == word(input@),
{
    let (first_rest, first) = match parse_alphanum(input) {
        Ok(read) => read,
        Err(error) => {
            return Err(error);
        },
    };
    let mut rest = first_rest;
    let mut parts: Vec<String> = Vec::new();
    proof {
        lemma_joined_push(parts@, first);
        assert(joined(parts@) + first@ =~= first@);
    }
    parts.push(first);
    loop
        invariant
            word(input@) == match word_rest(rest@) {
                Ok((end, more)) => Ok::<(Seq<char>, Seq<char>), _>((end, joined(parts@) + more)),
                Err(error) => Err(error),
            },
        decreases rest@.len(),
    {
        match parse_alphanum(rest) {
            Ok((next, part)) => {
                proof {
                    lemma_joined_push(parts@, part);
                    if let Ok((end, more)) = word_rest(next@) {
                        assert(joined(parts@) + (part@ + more) =~= joined(parts@) + part@ + more);
                    }
                }
                parts.push(part);
                rest = next;
            },
            Err(_) => {
                proof {
                    assert(joined(parts@) + Seq::<char>::empty() =~= joined(parts@));
                }
                return Ok(vec_to_string((rest, parts)));
            },
        }
    }
}

/// Reads the tag of a line, see [`tag`].
pub fn parse_tag(input: &str) -> (r: Result<(&str, GedcomLineTag), ParseError<'_>>)
    ensures
        tag_result(r) == tag(input@),
{
    match parse_word(input) {
        Err(error) => Err(error),
        Ok((rest, output)) => match GedcomLineTag::from_str(output.as_str()) {
            Ok(tag) => Ok((rest, tag)),
            Err(_) => Err(ParseError { remaining: rest, kind: ParseErrorKind::Tag }),
        },
    }
}

/// Letters, underscores and digits are the front of the text; they are always read.
pub proof fn lemma_word_rest_splits(s: Seq<char>)
    ensures
        word_rest(s) is Ok,
        splits(word_rest(s), s),
    decreases s.len(),
{
    lemma_characters_advance(s);
    match alphanum(s) {
        Ok((rest, first)) => {
            lemma_word_rest_splits(rest);
            if let Ok((end, more)) = word_rest(rest) {
                lemma_fronts_join(first, rest, more, end, s);
            }
        },
        Err(_) => {
            assert(Seq::<char>::empty() + s =~= s);
        },
    }
}

/// A word, where it is read, is the front of the text.
pub proof fn lemma_word_advances(s: Seq<char>)
    ensures
        advances(word(s), s),
{
    lemma_characters_advance(s);
    if let Ok((rest, first)) = alphanum(s) {
        lemma_word_rest_splits(rest);
        if let Ok((end, more)) = word_rest(rest) {
            lemma_fronts_join(first, rest, more, end, s);
        }
    }
}

/// A tag, where it is read, leaves what follows it.
pub proof fn lemma_tag_follows(s: Seq<char>)
    ensures
        tag(s) matches Ok((rest, _)) ==> follows(rest, s),
{
    lemma_word_advances(s);
    if let Ok((rest, text)) = word(s) {
        lemma_rest_follows(text, rest, s);
    }
}

} // verus!
