//! The level of a line.
use crate::parser::primitive::{digit, is_digit, lemma_characters_advance, parse_digit};
use crate::parser::util::{joined, vec_to_string};
use crate::parser::{
    follows, lemma_fronts_join, lemma_rest_follows, ParseError, ParseErrorKind, Parsed,
};
use crate::text::split_first;
use vstd::pervasive::unreached;
use vstd::prelude::*;

verus! {

/// The number that a decimal digit stands for.
pub open spec fn decimal(c: char) -> int {
    c as u32 - 0x30
}

/// The level at the start of a text: one decimal digit, or two of which the first is
/// not 0.
///
/// A second character is read where it is a digit too. Two digits of which the first is
/// 0 are no level; the reason is [`ParseErrorKind::Level`], at the place behind them.
pub open spec fn level(s: Seq<char>) -> Parsed<u8> {
    match digit(s) {
        Err(error) => Err(error),
        Ok((rest, _)) => match digit(rest) {
            Err(_) => Ok((rest, decimal(s[0]) as u8)),
            Ok((end, _)) => if s[0] != '0' {
                Ok((end, (10 * decimal(s[0]) + decimal(s[1])) as u8))
            } else {
                Err((end, ParseErrorKind::Level))
            },
        },
    }
}

/// The digits that a level is written with.
pub open spec fn level_text(value: u8) -> Seq<char> {
    if value < 10 {
        seq![(value + 0x30) as char]
    } else {
        seq![(value / 10 + 0x30) as char, (value % 10 + 0x30) as char]
    }
}

/// The result of [`parse_level`], as contracts see it.
pub open spec fn level_result(r: Result<(&str, u8), ParseError<'_>>) -> Parsed<u8> {
    match r {
        Ok((rest, value)) => Ok((rest@, value)),
        Err(error) => Err((error.remaining@, error.kind)),
    }
}

/// A level lies between 0 and 99.
pub proof fn lemma_level_is_below_100(s: Seq<char>)
    ensures
        level(s) matches Ok((_, value)) ==> value <= 99,
{
}

/// A level is read from exactly the texts that start with a decimal digit, but not with
/// 0 and another digit. Any other text that starts with a digit starts with 0 and a
/// digit and fails behind them; a text that starts with no digit fails where it starts.
pub proof fn lemma_level_is_read(s: Seq<char>)
    ensures
        level(s) is Ok <==> s.len() > 0 && is_digit(s[0]) && !(s[0] == '0' && s.len() > 1
            && is_digit(s[1])),
        s.len() == 0 || !is_digit(s[0]) ==> level(s) == Err::<(Seq<char>, u8), _>(
            (s, ParseErrorKind::Digit),
        ),
        s.len() > 1 && s[0] == '0' && is_digit(s[1]) ==> level(s) == Err::<(Seq<char>, u8), _>(
            (s.skip(2), ParseErrorKind::Level),
        ),
{
    if s.len() > 1 {
        assert(s.skip(1).skip(1) =~= s.skip(2));
    }
}

/// A level that was read is the number that the digits at the front of the text stand
/// for: its digits and what is left are the text.
pub proof fn lemma_level_reads_its_digits(s: Seq<char>)
    ensures
        level(s) matches Ok((rest, value)) ==> level_text(value) + rest == s,
{
    lemma_characters_advance(s);
    if let Ok((rest, first)) = digit(s) {
        lemma_characters_advance(rest);
        match digit(rest) {
            Ok((end, second)) => {
                if s[0] != '0' {
                    let value = (10 * decimal(s[0]) + decimal(s[1])) as u8;
                    lemma_fronts_join(first, rest, second, end, s);
                    assert(value / 10 == decimal(s[0]) && value % 10 == decimal(s[1]));
                    assert(level_text(value) =~= first + second);
                }
            },
            Err(_) => {
                assert(level_text(decimal(s[0]) as u8) =~= first);
            },
        }
    }
}

/// The number that a decimal digit stands for.
fn decimal_of(c: char) -> (value: u8)
    requires
        is_digit(c),
    ensures
        value == decimal(c),
        value <= 9,
{
    (c as u32 - 0x30) as u8
}

/// Reads the level of a line, see [`level`].
pub fn parse_level(input: &str) -> (r: Result<(&str, u8), ParseError<'_>>)
    ensures
        level_result(r) == level(input@),
{
    let (rest, first) = match parse_digit(input) {
        Ok(read) => read,
        Err(error) => {
            return Err(error);
        },
    };
    let mut digits: Vec<String> = Vec::new();
    digits.push(first);
    let rest = match parse_digit(rest) {
        Ok((end, second)) => {
            digits.push(second);
            end
        },
        Err(_) => rest,
    };
    let ghost count = digits@.len();
    let (rest, output) = vec_to_string((rest, digits));
    proof {
        reveal_with_fuel(joined, 3);
        if count == 1 {
            assert(output@ =~= seq![input@[0]]);
        } else {
            assert(output@ =~= seq![input@[0], input@[1]]);
        }
    }
    match split_first(output.as_str()) {
        Some((high, more)) => match split_first(more) {
            Some((low, _)) => {
                if high == '0' {
                    Err(ParseError { remaining: rest, kind: ParseErrorKind::Level })
                } else {
                    Ok((rest, 10 * decimal_of(high) + decimal_of(low)))
                }
            },
            None => Ok((rest, decimal_of(high))),
        },
        None => unreached(),
    }
}

/// A level, where it is read, leaves what follows it.
pub proof fn lemma_level_follows(s: Seq<char>)
    ensures
        level(s) matches Ok((rest, _)) ==> follows(rest, s),
{
    lemma_level_reads_its_digits(s);
    if let Ok((rest, value)) = level(s) {
        lemma_rest_follows(level_text(value), rest, s);
    }
}

} // verus!
