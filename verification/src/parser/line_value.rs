//! The value of a line.
use crate::parser::pointer::{lemma_pointer_advances, parse_pointer, pointer};
use crate::parser::primitive::{
    anychar, at, delim, hash, lemma_characters_advance, nonat, parse_anychar, parse_at,
    parse_delim, parse_hash, parse_nonat, DELIM,
};
use crate::parser::util::{five_tuple_to_string, joined, lemma_joined_push, vec_to_string};
use crate::parser::{
    advances, follows, lemma_fronts_join, lemma_rest_follows, splits, text_result, ParseError,
    Parsed,
};
use vstd::prelude::*;

verus! {

/// Characters of a value, as many as there are; there may be none.
pub open spec fn escape_text_rest(s: Seq<char>) -> Parsed<Seq<char>>
    decreases s.len(),
{
    match anychar(s) {
        Ok((rest, first)) => match escape_text_rest(rest) {
            Ok((end, more)) => Ok((end, first + more)),
            Err(error) => Err(error),
        },
        Err(_) => Ok((s, Seq::empty())),
    }
}

/// The text of an escape: one or more characters of a value.
pub open spec fn escape_text(s: Seq<char>) -> Parsed<Seq<char>> {
    match anychar(s) {
        Ok((rest, first)) => match escape_text_rest(rest) {
            Ok((end, more)) => Ok((end, first + more)),
            Err(error) => Err(error),
        },
        Err(error) => Err(error),
    }
}

/// An escape: `@`, `#`, a text, `@`, and one character other than `@`. What is read is
/// all of it.
pub open spec fn escape(s: Seq<char>) -> Parsed<Seq<char>> {
    match at(s) {
        Err(error) => Err(error),
        Ok((s1, open)) => match hash(s1) {
            Err(error) => Err(error),
            Ok((s2, mark)) => match escape_text(s2) {
                Err(error) => Err(error),
                Ok((s3, text)) => match at(s3) {
                    Err(error) => Err(error),
                    Ok((s4, close)) => match nonat(s4) {
                        Err(error) => Err(error),
                        Ok((s5, last)) => Ok((s5, open + mark + text + close + last)),
                    },
                },
            },
        },
    }
}

/// One piece of a value: a character of a value, or else an escape.
pub open spec fn line_item_inner(s: Seq<char>) -> Parsed<Seq<char>> {
    if anychar(s) is Ok {
        anychar(s)
    } else {
        escape(s)
    }
}

/// Characters of a value are the front of the text; they are always read.
pub proof fn lemma_escape_text_rest_splits(s: Seq<char>)
    ensures
        escape_text_rest(s) is Ok,
        splits(escape_text_rest(s), s),
    decreases s.len(),
{
    lemma_characters_advance(s);
    match anychar(s) {
        Ok((rest, first)) => {
            lemma_escape_text_rest_splits(rest);
            if let Ok((end, more)) = escape_text_rest(rest) {
                lemma_fronts_join(first, rest, more, end, s);
            }
        },
        Err(_) => {
            assert(Seq::<char>::empty() + s =~= s);
        },
    }
}

/// An escape, where it is read, is the front of the text.
pub proof fn lemma_escape_advances(s: Seq<char>)
    ensures
        advances(escape(s), s),
{
    lemma_characters_advance(s);
    if let Ok((s1, open)) = at(s) {
        lemma_characters_advance(s1);
        if let Ok((s2, mark)) = hash(s1) {
            lemma_characters_advance(s2);
            if let Ok((after_first, first)) = anychar(s2) {
                lemma_escape_text_rest_splits(after_first);
                if let Ok((s3, more)) = escape_text_rest(after_first) {
                    lemma_characters_advance(s3);
                    if let Ok((s4, close)) = at(s3) {
                        lemma_characters_advance(s4);
                        if let Ok((s5, last)) = nonat(s4) {
                            lemma_fronts_join(first, after_first, more, s3, s2);
                            lemma_fronts_join(open, s1, mark, s2, s);
                            lemma_fronts_join(open + mark, s2, first + more, s3, s);
                            lemma_fronts_join(open + mark + (first + more), s3, close, s4, s);
                            lemma_fronts_join(
                                open + mark + (first + more) + close,
                                s4,
                                last,
                                s5,
                                s,
                            );
                        }
                    }
                }
            }
        }
    }
}

/// A piece of a value, where it is read, is the front of the text, and what is left
/// follows the text.
pub proof fn lemma_line_item_inner_advances(s: Seq<char>)
    ensures
        advances(line_item_inner(s), s),
        line_item_inner(s) matches Ok((rest, _)) ==> follows(rest, s),
{
    lemma_characters_advance(s);
    lemma_escape_advances(s);
    if let Ok((rest, text)) = line_item_inner(s) {
        lemma_rest_follows(text, rest, s);
    }
}

/// Pieces of a value, as many as there are; there may be none.
pub open spec fn line_item_rest(s: Seq<char>) -> Parsed<Seq<char>>
    decreases s.len(),
{
    match line_item_inner(s) {
        Ok((rest, first)) => {
            proof {
                lemma_line_item_inner_advances(s);
            }
            match line_item_rest(rest) {
                Ok((end, more)) => Ok((end, first + more)),
                Err(error) => Err(error),
            }
        },
        Err(_) => Ok((s, Seq::empty())),
    }
}

/// A value that is no pointer: one or more pieces.
pub open spec fn line_item(s: Seq<char>) -> Parsed<Seq<char>> {
    match line_item_inner(s) {
        Ok((rest, first)) => match line_item_rest(rest) {
            Ok((end, more)) => Ok((end, first + more)),
            Err(error) => Err(error),
        },
        Err(error) => Err(error),
    }
}

/// A value: pieces of a value, or else a pointer.
pub open spec fn line_value(s: Seq<char>) -> Parsed<Seq<char>> {
    if line_item(s) is Ok {
        line_item(s)
    } else {
        pointer(s)
    }
}

/// The value of a line where it has one: a space and a value. What is read is the value.
pub open spec fn optional_line_value(s: Seq<char>) -> Parsed<Seq<char>> {
    match delim(s) {
        Err(error) => Err(error),
        Ok((rest, _)) => line_value(rest),
    }
}

/// Reads a space and the value of a line, see [`optional_line_value`].
pub fn parse_optional_line_value(input: &str) -> (r: Result<(&str, String), ParseError<'_>>)
    ensures
        text_result(r) == optional_line_value(input@),
{
    match parse_delim(input) {
        Ok((rest, _)) => parse_line_value(rest),
        Err(error) => Err(error),
    }
}

/// Reads an escape, see [`escape`].
pub fn parse_escape(input: &str) -> (r: Result<(&str, String), ParseError<'_>>)
    ensures
        text_result(r) == escape(input@),
{
    let (rest, open) = match parse_at(input) {
        Ok(read) => read,
        Err(error) => {
            return Err(error);
        },
    };
    let (rest, mark) = match parse_hash(rest) {
        Ok(read) => read,
        Err(error) => {
            return Err(error);
        },
    };
    let (rest, text) = match parse_escape_text(rest) {
        Ok(read) => read,
        Err(error) => {
            return Err(error);
        },
    };
    let (rest, close) = match parse_at(rest) {
        Ok(read) => read,
        Err(error) => {
            return Err(error);
        },
    };
    let (rest, last) = match parse_nonat(rest) {
        Ok(read) => read,
        Err(error) => {
            return Err(error);
        },
    };
    Ok(five_tuple_to_string((rest, (open, mark, text, close, last))))
}

/// Reads the text of an escape, see [`escape_text`].
pub fn parse_escape_text(input: &str) -> (r: Result<(&str, String), ParseError<'_>>)
    ensures
        text_result(r) == escape_text(input@),
{
    let (first_rest, first) = match parse_anychar(input) {
        Ok(read) => read,
        Err(error) => {
            return Err(error);
        },
    };
    let mut rest = first_rest;
    let mut parts: Vec<String> = Vec::new();
    proof {
        lemma_joined_push(parts@, first);
        assert(joined(parts@) + first@ =~= first@);
    }
    parts.push(first);
    loop
        invariant
            escape_text(input@) == match escape_text_rest(rest@) {
                Ok((end, more)) => Ok::<(Seq<char>, Seq<char>), _>((end, joined(parts@) + more)),
                Err(error) => Err(error),
            },
        decreases rest@.len(),
    {
        match parse_anychar(rest) {
            Ok((next, part)) => {
                proof {
                    lemma_joined_push(parts@, part);
                    if let Ok((end, more)) = escape_text_rest(next@) {
                        assert(joined(parts@) + (part@ + more) =~= joined(parts@) + part@ + more);
                    }
                }
                parts.push(part);
                rest = next;
            },
            Err(_) => {
                proof {
                    assert(joined(parts@) + Seq::<char>::empty() =~= joined(parts@));
                }
                return Ok(vec_to_string((rest, parts)));
            },
        }
    }
}

/// Reads a value that is no pointer, see [`line_item`].
pub fn parse_line_item(input: &str) -> (r: Result<(&str, String), ParseError<'_>>)
    ensures
        text_result(r) == line_item(input@),
{
    let (first_rest, first) = match parse_line_item_inner(input) {
        Ok(read) => read,
        Err(error) => {
            return Err(error);
        },
    };
    let mut rest = first_rest;
    let mut parts: Vec<String> = Vec::new();
    proof {
        lemma_joined_push(parts@, first);
        assert(joined(parts@) + first@ =~= first@);
    }
    parts.push(first);
    loop
        invariant
            line_item(input@) == match line_item_rest(rest@) {
                Ok((end, more)) => Ok::<(Seq<char>, Seq<char>), _>((end, joined(parts@) + more)),
                Err(error) => Err(error),
            },
        decreases rest@.len(),
    {
        match parse_line_item_inner(rest) {
            Ok((next, part)) => {
                proof {
                    lemma_line_item_inner_advances(rest@);
                    lemma_joined_push(parts@, part);
                    if let Ok((end, more)) = line_item_rest(next@) {
                        assert(joined(parts@) + (part@ + more) =~= joined(parts@) + part@ + more);
                    }
                }
                parts.push(part);
                rest = next;
            },
            Err(_) => {
                proof {
                    assert(joined(parts@) + Seq::<char>::empty() =~= joined(parts@));
                }
                return Ok(vec_to_string((rest, parts)));
            },
        }
    }
}

/// Reads one piece of a value, see [`line_item_inner`].
pub fn parse_line_item_inner(input: &str) -> (r: Result<(&str, String), ParseError<'_>>)
    ensures
        text_result(r) == line_item_inner(input@),
{
    if let Ok(read) = parse_anychar(input) {
        return Ok(read);
    }
    parse_escape(input)
}

/// Reads a value, see [`line_value`].
pub fn parse_line_value(input: &str) -> (r: Result<(&str, String), ParseError<'_>>)
    ensures
        text_result(r) == line_value(input@),
{
    if let Ok(read) = parse_line_item(input) {
        return Ok(read);
    }
    parse_pointer(input)
}

/// Pieces of a value are the front of the text; they are always read.
pub proof fn lemma_line_item_rest_splits(s: Seq<char>)
    ensures
        line_item_rest(s) is Ok,
        splits(line_item_rest(s), s),
    decreases s.len(),
{
    lemma_line_item_inner_advances(s);
    match line_item_inner(s) {
        Ok((rest, first)) => {
            lemma_line_item_rest_splits(rest);
            if let Ok((end, more)) = line_item_rest(rest) {
                lemma_fronts_join(first, rest, more, end, s);
            }
        },
        Err(_) => {
            assert(Seq::<char>::empty() + s =~= s);
        },
    }
}

/// A value, where it is read, is the front of the text.
pub proof fn lemma_line_value_advances(s: Seq<char>)
    ensures
        advances(line_item(s), s),
        advances(line_value(s), s),
{
    lemma_line_item_inner_advances(s);
    lemma_pointer_advances(s);
    if let Ok((rest, first)) = line_item_inner(s) {
        lemma_line_item_rest_splits(rest);
        if let Ok((end, more)) = line_item_rest(rest) {
            lemma_fronts_join(first, rest, more, end, s);
        }
    }
}

/// The value of a line, where it is read with the space before it, is the front of the
/// text but for that space; what is left follows the text.
pub proof fn lemma_optional_line_value_follows(s: Seq<char>)
    ensures
        optional_line_value(s) matches Ok((rest, value)) ==> seq![DELIM] + value + rest == s
            && follows(rest, s),
{
    lemma_characters_advance(s);
    if let Ok((s1, space)) = delim(s) {
        lemma_line_value_advances(s1);
        if let Ok((s2, value)) = line_value(s1) {
            lemma_fronts_join(space, s1, value, s2, s);
            lemma_rest_follows(space + value, s2, s);
        }
    }
}

} // verus!
