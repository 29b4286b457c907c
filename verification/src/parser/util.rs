//! Putting together what the grammar has read.
use crate::models::gedcom::line::{GedcomLine, GedcomLineTag};
use vstd::prelude::*;
use vstd::string::StringExecFns;

verus! {

/// The characters of some texts, one text after the other.
pub open spec fn joined(parts: Seq<String>) -> Seq<char>
    decreases parts.len(),
{
    if parts.len() == 0 {
        Seq::empty()
    } else {
        joined(parts.drop_last()) + parts.last()@
    }
}

/// The characters of some texts with one more text after them.
pub proof fn lemma_joined_push(parts: Seq<String>, part: String)
    ensures
        joined(parts.push(part)) == joined(parts) + part@,
{
    assert(parts.push(part).drop_last() =~= parts);
}

/// The line with the given parts; what was read as delimiter and as end of line is dropped.
pub fn five_tuple_to_gedcom_line<'a>(
    read: (&'a str, (u8, String, Option<String>, GedcomLineTag, Option<String>, String)),
) -> (r: (&'a str, GedcomLine))
    ensures
        r.0 == read.0,
        r.1 == (GedcomLine {
            level: read.1.0,
            line_value: read.1.4,
            tag: read.1.3,
            xref_id: read.1.2,
        }),
{
    let (input, (level, _delim, optional_xref_id, tag, optional_line_value, _terminator)) = read;
    let mut builder = GedcomLine::builder();
    builder.with_level(level);
    builder.with_optional_line_value(optional_line_value);
    builder.with_tag(tag);
    builder.with_optional_xref_id(optional_xref_id);
    match builder.build() {
        Ok(line) => (input, line),
        Err(_) => vstd::pervasive::unreached(),
    }
}

/// The character as a text of its own.
pub fn char_to_string<'a>(read: (&'a str, char)) -> (r: (&'a str, String))
    ensures
        r.0 == read.0,
        r.1@ == seq![read.1],
{
    let (input, output) = read;
    let mut text = String::new();
    text.push(output);
    (input, text)
}

pub fn four_tuple_to_string<'a>(read: (&'a str, (String, String, String, String))) -> (r: (
    &'a str,
    String,
))
    ensures
        r.0 == read.0,
        r.1@ == read.1.0@ + read.1.1@ + read.1.2@ + read.1.3@,
{
    let (input, (a, b, c, d)) = read;
    let mut text = a;
    text.append(b.as_str());
    text.append(c.as_str());
    text.append(d.as_str());
    (input, text)
}

pub fn five_tuple_to_string<'a>(
    read: (&'a str, (String, String, String, String, String)),
) -> (r: (&'a str, String))
    ensures
        r.0 == read.0,
        r.1@ == read.1.0@ + read.1.1@ + read.1.2@ + read.1.3@ + read.1.4@,
{
    let (input, (a, b, c, d, e)) = read;
    let mut text = a;
    text.append(b.as_str());
    text.append(c.as_str());
    text.append(d.as_str());
    text.append(e.as_str());
    (input, text)
}

pub fn tuple_to_string<'a>(read: (&'a str, (String, String))) -> (r: (&'a str, String))
    ensures
        r.0 == read.0,
        r.1@ == read.1.0@ + read.1.1@,
{
    let (input, (a, b)) = read;
    let mut text = a;
    text.append(b.as_str());
    (input, text)
}

/// The texts as one text, see [`joined`].
pub fn vec_to_string<'a>(read: (&'a str, Vec<String>)) -> (r: (&'a str, String))
    ensures
        r.0 == read.0,
        r.1@ == joined(read.1@),
{
    let (input, output) = read;
    let mut text = String::new();
    let mut i: usize = 0;
    assert(output@.take(0) =~= Seq::<String>::empty());
    while i < output.len()
        invariant
            i <= output.len(),
            text@ == joined(output@.take(i as int)),
        decreases output.len() - i,
    {
        proof {
            assert(output@.take(i + 1) =~= output@.take(i as int).push(output@[i as int]));
            lemma_joined_push(output@.take(i as int), output@[i as int]);
        }
        text.append(output[i].as_str());
        i += 1;
    }
    assert(output@.take(i as int) =~= output@);
    (input, text)
}

} // verus!
