//! Small operations on text that the vocabulary and the grammar share.
use std::str::Chars;
use vstd::prelude::*;
use vstd::std_specs::iter::IteratorSpec;

verus! {

/// `core::str::Chars::as_str`: the part of the text that the iterator has not yielded yet.
pub assume_specification<'a>[ Chars::<'a>::as_str ](chars: &Chars<'a>) -> (rest: &'a str)
    ensures
        rest@ == chars.remaining(),
;

/// `String::push`: the text grows by the one character at its end.
pub assume_specification[ String::push ](text: &mut String, c: char)
    ensures
        final(text)@ == old(text)@.push(c),
;

/// The view of an optional text.
pub open spec fn optional_text(text: Option<String>) -> Option<Seq<char>> {
    match text {
        Some(t) => Some(t@),
        None => None,
    }
}

/// Splits a text into its first character and what follows it.
pub fn split_first<'a>(input: &'a str) -> (r: Option<(char, &'a str)>)
    ensures
        input@.len() == 0 ==> r is None,
        input@.len() > 0 ==> (r matches Some((c, rest)) && c == input@[0] && rest@ == input@.skip(
            1,
        )),
{
    let mut chars = input.chars();
    match chars.next() {
        Some(c) => {
            let rest = chars.as_str();
            assert(input@.drop_first() =~= input@.skip(1));
            Some((c, rest))
        },
        None => None,
    }
}

/// Whether two texts hold the same characters.
pub fn same_text(a: &str, b: &str) -> (same: bool)
    ensures
        same == (a@ == b@),
{
    let mut left = a;
    let mut right = b;
    loop
        invariant
            (a@ == b@) == (left@ == right@),
        decreases left@.len(),
    {
        match (split_first(left), split_first(right)) {
            (Some((c, left_rest)), Some((d, right_rest))) => {
                if c != d {
                    return false;
                }
                proof {
                    assert(left@ =~= seq![c] + left_rest@);
                    assert(right@ =~= seq![d] + right_rest@);
                    if left_rest@ == right_rest@ {
                        assert(left@ == right@);
                    }
                    if left@ == right@ {
                        assert(left_rest@ =~= right_rest@);
                    }
                }
                left = left_rest;
                right = right_rest;
            },
            (None, None) => {
                assert(left@ =~= right@);
                return true;
            },
            _ => {
                return false;
            },
        }
    }
}

/// The upper-case form of an ASCII letter; any other character is left as it is.
pub open spec fn upper(c: char) -> char {
    if 'a' <= c <= 'z' {
        ((c as u8) - 32) as char
    } else {
        c
    }
}

/// A text with each ASCII letter in upper case.
pub open spec fn ascii_uppercase(text: Seq<char>) -> Seq<char> {
    Seq::new(text.len(), |i: int| upper(text[i]))
}

/// Computes [`upper`].
pub fn to_upper(c: char) -> (u: char)
    ensures
        u == upper(c),
{
    if 'a' <= c && c <= 'z' {
        ((c as u8) - 32) as char
    } else {
        c
    }
}

/// Computes [`ascii_uppercase`].
pub fn to_ascii_uppercase(text: &str) -> (up: String)
    ensures
        up@ == ascii_uppercase(text@),
{
    let mut up = String::new();
    let mut rest = text;
    let ghost mut done: int = 0;
    loop
        invariant
            0 <= done <= text@.len(),
            rest@ == text@.skip(done),
            up@ == ascii_uppercase(text@.take(done)),
        decreases rest@.len(),
    {
        match split_first(rest) {
            Some((c, tail)) => {
                up.push(to_upper(c));
                proof {
                    assert(tail@ =~= text@.skip(done + 1));
                    assert(c == text@[done]);
                    assert(up@ =~= ascii_uppercase(text@.take(done + 1)));
                    done = done + 1;
                }
                rest = tail;
            },
            None => {
                assert(text@.take(done) =~= text@);
                return up;
            },
        }
    }
}

} // verus!
