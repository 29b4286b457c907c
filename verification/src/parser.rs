//! The grammar of a document, one line after the other.
//!
//! Every function of the grammar takes the text that is still to be read and gives back
//! what is left of it together with what it has read, or says where and why it could
//! not read. To each of them belongs a function on sequences of characters that says
//! what is read, and which its contract names.
pub mod level;
pub mod line_value;
pub mod pointer;
pub mod primitive;
pub mod tag;
pub mod terminator;
pub mod util;
pub mod xref_id;

use self::level::{lemma_level_follows, lemma_level_is_below_100, level, parse_level};
use self::line_value::{
    lemma_optional_line_value_follows, optional_line_value, parse_optional_line_value,
};
use self::primitive::{delim, lemma_characters_advance, parse_delim};
use self::tag::{lemma_tag_follows, parse_tag, tag};
use self::terminator::{lemma_terminator_advances, parse_terminator, terminator};
use self::util::five_tuple_to_gedcom_line;
use self::xref_id::{lemma_optional_xref_id_follows, optional_xref_id, parse_optional_xref_id};
use crate::models::gedcom::line::{GedcomLine, LineView};
use crate::models::gedcom::tree::line_views;
use crate::text::split_first;
use vstd::prelude::*;

verus! {

/// The mark that may stand before the first line of a document.
pub const BYTE_ORDER_MARK: char = '\u{feff}';

/// Why a text could not be read.
#[derive(Clone, Copy, Debug, PartialEq, Eq)]
pub enum ParseErrorKind {
    /// A letter or an underscore was asked for.
    Alpha,
    /// A letter, an underscore or a digit was asked for.
    Alphanumeric,
    /// A character that may stand in a value was asked for.
    AnyChar,
    /// `@` was asked for.
    At,
    /// A carriage return was asked for.
    CarriageReturn,
    /// A space was asked for.
    Delimiter,
    /// A digit was asked for.
    Digit,
    /// `#` was asked for.
    Hash,
    /// A line feed was asked for.
    LineFeed,
    /// A character that may stand in a value, other than `@`, was asked for.
    NonAt,
    /// A character that is neither letter, digit, space, `#` nor `@` was asked for.
    OtherChar,
    /// The end of a line was asked for.
    Terminator,
    /// The level has two digits and the first is 0.
    Level,
    /// The word in the place of the tag is no tag.
    Tag,
}

/// Where and why a text could not be read.
#[derive(Clone, Copy, Debug, PartialEq, Eq)]
pub struct ParseError<'a> {
    /// The text from the place of the failure on.
    pub remaining: &'a str,
    pub kind: ParseErrorKind,
}

/// What the grammar makes of a text: the rest of the text and what was read, or the
/// text from the place of the failure on and the reason.
pub type Parsed<T> = Result<(Seq<char>, T), (Seq<char>, ParseErrorKind)>;

/// The result of a function that reads a text, as contracts see it.
pub open spec fn text_result(r: Result<(&str, String), ParseError<'_>>) -> Parsed<Seq<char>> {
    match r {
        Ok((rest, value)) => Ok((rest@, value@)),
        Err(error) => Err((error.remaining@, error.kind)),
    }
}

/// What is left of a text and what was read, after something that may be missing.
pub open spec fn optional<T>(read: Parsed<T>, s: Seq<char>) -> (Seq<char>, Option<T>) {
    match read {
        Ok((rest, value)) => (rest, Some(value)),
        Err(_) => (s, None),
    }
}

/// Whether a text is what is left of another once one or more of its characters have
/// been read.
pub open spec fn follows(rest: Seq<char>, s: Seq<char>) -> bool {
    rest.len() < s.len() && rest == s.skip(s.len() - rest.len())
}

/// Whether what was read, where something was read, is the front of the text, and what
/// is left is all that comes behind it.
pub open spec fn splits(read: Parsed<Seq<char>>, s: Seq<char>) -> bool {
    read matches Ok((rest, text)) ==> text + rest == s
}

/// Whether what was read, where something was read, is a front of the text that is not
/// empty, and what is left is all that comes behind it.
pub open spec fn advances(read: Parsed<Seq<char>>, s: Seq<char>) -> bool {
    read matches Ok((rest, text)) ==> text.len() > 0 && text + rest == s
}

/// Two fronts, one read behind the other, are one front.
pub proof fn lemma_fronts_join(
    first: Seq<char>,
    middle: Seq<char>,
    second: Seq<char>,
    rest: Seq<char>,
    s: Seq<char>,
)
    requires
        first + middle == s,
        second + rest == middle,
    ensures
        first + second + rest == s,
{
    assert(first + second + rest =~= first + (second + rest));
}

/// What is left behind a front that is not empty follows the text.
pub proof fn lemma_rest_follows(text: Seq<char>, rest: Seq<char>, s: Seq<char>)
    requires
        text + rest == s,
        text.len() > 0,
    ensures
        follows(rest, s),
{
    assert(s.skip(text.len() as int) =~= rest);
}

/// What follows what follows a text follows the text.
pub proof fn lemma_follows_on(rest: Seq<char>, middle: Seq<char>, s: Seq<char>)
    requires
        follows(rest, middle) || rest == middle,
        follows(middle, s) || middle == s,
    ensures
        follows(rest, s) || rest == s,
        follows(rest, middle) || follows(middle, s) ==> follows(rest, s),
{
    if follows(rest, middle) && follows(middle, s) {
        assert(s.skip(s.len() - middle.len()).skip(middle.len() - rest.len()) =~= s.skip(
            s.len() - rest.len(),
        ));
    }
}

/// The mark before the first line, where it is there. This never fails.
pub open spec fn optional_bom(s: Seq<char>) -> Parsed<Option<char>> {
    if s.len() > 0 && s[0] == BYTE_ORDER_MARK {
        Ok((s.skip(1), Some(BYTE_ORDER_MARK)))
    } else {
        Ok((s, None))
    }
}

/// One line: a level, a space, the label of the record and a space where the line has
/// them, a tag, a space and a value where the line has them, and the end of the line.
/// The label and the value are taken where they can be read, and left out otherwise.
pub open spec fn line(s: Seq<char>) -> Parsed<LineView> {
    match level(s) {
        Err(error) => Err(error),
        Ok((s1, level)) => match delim(s1) {
            Err(error) => Err(error),
            Ok((s2, _)) => match tag(optional(optional_xref_id(s2), s2).0) {
                Err(error) => Err(error),
                Ok((s4, tag)) => match terminator(optional(optional_line_value(s4), s4).0) {
                    Err(error) => Err(error),
                    Ok((s6, _)) => Ok(
                        (
                            s6,
                            LineView {
                                level,
                                line_value: optional(optional_line_value(s4), s4).1,
                                tag,
                                xref_id: optional(optional_xref_id(s2), s2).1,
                            },
                        ),
                    ),
                },
            },
        },
    }
}

/// A line, where it is read, leaves what follows it.
pub proof fn lemma_line_follows(s: Seq<char>)
    ensures
        line(s) matches Ok((rest, _)) ==> follows(rest, s),
{
    lemma_level_follows(s);
    if let Ok((s1, _)) = level(s) {
        lemma_characters_advance(s1);
        if let Ok((s2, text)) = delim(s1) {
            lemma_rest_follows(text, s2, s1);
            lemma_optional_xref_id_follows(s2);
            let s3 = optional(optional_xref_id(s2), s2).0;
            lemma_tag_follows(s3);
            if let Ok((s4, _)) = tag(s3) {
                lemma_optional_line_value_follows(s4);
                let s5 = optional(optional_line_value(s4), s4).0;
                lemma_terminator_advances(s5);
                if let Ok((s6, end)) = terminator(s5) {
                    lemma_rest_follows(end, s6, s5);
                    lemma_follows_on(s2, s1, s);
                    lemma_follows_on(s3, s2, s);
                    lemma_follows_on(s4, s3, s);
                    lemma_follows_on(s5, s4, s);
                    lemma_follows_on(s6, s5, s);
                }
            }
        }
    }
}

/// The level of a line that was read lies between 0 and 99.
pub proof fn lemma_line_level_is_below_100(s: Seq<char>)
    ensures
        line(s) matches Ok((_, read)) ==> read.level <= 99,
{
    lemma_level_is_below_100(s);
}

/// One line after the other, to the end of the text. The first line that cannot be read
/// is the failure of them all; there has to be one line at least.
pub open spec fn lines(s: Seq<char>) -> Parsed<Seq<LineView>>
    decreases s.len(),
{
    match line(s) {
        Err(error) => Err(error),
        Ok((rest, first)) => {
            proof {
                lemma_line_follows(s);
            }
            if rest.len() == 0 {
                Ok((rest, seq![first]))
            } else {
                match lines(rest) {
                    Ok((end, more)) => Ok((end, seq![first] + more)),
                    Err(error) => Err(error),
                }
            }
        },
    }
}

/// A document: the mark where it is there, then its lines to the end of the text.
pub open spec fn document(s: Seq<char>) -> Parsed<Seq<LineView>> {
    match optional_bom(s) {
        Ok((rest, _)) => lines(rest),
        Err(error) => Err(error),
    }
}

/// The result of [`parse_gedcom_line`], as contracts see it.
pub open spec fn line_result(r: Result<(&str, GedcomLine), ParseError<'_>>) -> Parsed<LineView> {
    match r {
        Ok((rest, value)) => Ok((rest@, value@)),
        Err(error) => Err((error.remaining@, error.kind)),
    }
}

/// The result of [`parse_gedcom`], as contracts see it.
pub open spec fn document_result(r: Result<(&str, Vec<GedcomLine>), ParseError<'_>>) -> Parsed<
    Seq<LineView>,
> {
    match r {
        Ok((rest, value)) => Ok((rest@, line_views(value@))),
        Err(error) => Err((error.remaining@, error.kind)),
    }
}

/// The result of [`parse_optional_bom`], as contracts see it.
pub open spec fn bom_result(r: Result<(&str, Option<char>), ParseError<'_>>) -> Parsed<
    Option<char>,
> {
    match r {
        Ok((rest, value)) => Ok((rest@, value)),
        Err(error) => Err((error.remaining@, error.kind)),
    }
}

/// Reads a document, see [`document`]. On success the whole text has been read.
pub fn parse_gedcom(input: &str) -> (r: Result<(&str, Vec<GedcomLine>), ParseError<'_>>)
    ensures
        document_result(r) == document(input@),
{
    let mut rest = match parse_optional_bom(input) {
        Ok((rest, _)) => rest,
        Err(error) => {
            return Err(error);
        },
    };
    let mut read: Vec<GedcomLine> = Vec::new();
    proof {
        assert(document(input@) == match lines(rest@) {
            Ok((end, more)) => Ok::<(Seq<char>, Seq<LineView>), _>(
                (end, line_views(read@) + more),
            ),
            Err(error) => Err(error),
        }) by {
            if let Ok((end, more)) = lines(rest@) {
                assert(line_views(read@) + more =~= more);
            }
        }
    }
    loop
        invariant
            document(input@) == match lines(rest@) {
                Ok((end, more)) => Ok::<(Seq<char>, Seq<LineView>), _>(
                    (end, line_views(read@) + more),
                ),
                Err(error) => Err(error),
            },
        decreases rest@.len(),
    {
        match parse_gedcom_line(rest) {
            Err(error) => {
                return Err(error);
            },
            Ok((next, line)) => {
                proof {
                    lemma_line_follows(rest@);
                    assert(line_views(read@.push(line)) =~= line_views(read@) + seq![line@]);
                    if next@.len() != 0 {
                        if let Ok((end, more)) = lines(next@) {
                            assert(line_views(read@) + (seq![line@] + more) =~= line_views(
                                read@,
                            ) + seq![line@] + more);
                        }
                    }
                }
                read.push(line);
                if split_first(next).is_none() {
                    return Ok((next, read));
                }
                rest = next;
            },
        }
    }
}

/// Reads the mark before the first line, see [`optional_bom`].
pub fn parse_optional_bom(input: &str) -> (r: Result<(&str, Option<char>), ParseError<'_>>)
    ensures
        bom_result(r) == optional_bom(input@),
{
    match split_first(input) {
        Some((c, rest)) => {
            if c == BYTE_ORDER_MARK {
                Ok((rest, Some(c)))
            } else {
                Ok((input, None))
            }
        },
        None => Ok((input, None)),
    }
}

/// Reads one line, see [`line`].
pub fn parse_gedcom_line(input: &str) -> (r: Result<(&str, GedcomLine), ParseError<'_>>)
    ensures
        line_result(r) == line(input@),
{
    let (rest, level) = match parse_level(input) {
        Ok(read) => read,
        Err(error) => {
            return Err(error);
        },
    };
    let (rest, delim) = match parse_delim(rest) {
        Ok(read) => read,
        Err(error) => {
            return Err(error);
        },
    };
    let (rest, optional_xref_id) = match parse_optional_xref_id(rest) {
        Ok((rest, label)) => (rest, Some(label)),
        Err(_) => (rest, None),
    };
    let (rest, tag) = match parse_tag(rest) {
        Ok(read) => read,
        Err(error) => {
            return Err(error);
        },
    };
    let (rest, optional_line_value) = match parse_optional_line_value(rest) {
        Ok((rest, value)) => (rest, Some(value)),
        Err(_) => (rest, None),
    };
    let (rest, terminator) = match parse_terminator(rest) {
        Ok(read) => read,
        Err(error) => {
            return Err(error);
        },
    };
    Ok(
        five_tuple_to_gedcom_line(
            (rest, (level, delim, optional_xref_id, tag, optional_line_value, terminator)),
        ),
    )
}

/// Reading is a function of the text: the same characters give the same line, or the
/// same failure at the same place.
pub proof fn lemma_line_is_deterministic(first: &str, second: &str)
    requires
        first@ == second@,
    ensures
        line(first@) == line(second@),
        document(first@) == document(second@),
{
}

/// A document that was read has left nothing of the text, holds one line at least, and
/// each of its lines has a level between 0 and 99.
pub proof fn lemma_document_is_whole(s: Seq<char>)
    ensures
        document(s) matches Ok((rest, read)) ==> rest.len() == 0 && read.len() >= 1 && forall|
            i: int,
        |
            0 <= i < read.len() ==> (#[trigger] read[i]).level <= 99,
{
    if let Ok((start, _)) = optional_bom(s) {
        lemma_lines_are_whole(start);
    }
}

/// See [`lemma_document_is_whole`].
proof fn lemma_lines_are_whole(s: Seq<char>)
    ensures
        lines(s) matches Ok((rest, read)) ==> rest.len() == 0 && read.len() >= 1 && forall|i: int|
            0 <= i < read.len() ==> (#[trigger] read[i]).level <= 99,
    decreases s.len(),
{
    lemma_line_follows(s);
    lemma_line_level_is_below_100(s);
    if let Ok((rest, first)) = line(s) {
        if rest.len() != 0 {
            lemma_lines_are_whole(rest);
        }
    }
}

} // verus!
