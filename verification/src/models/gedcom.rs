//! Line records, the forest built from them, and the timestamp of a change record.
pub mod line;
pub mod tree;

pub use self::line::{GedcomLine, GedcomLineBuilder, GedcomLineTag, LineView, TagView};
pub use self::tree::{GedcomTree, GedcomTreeNode, GedcomTreeNodeBuilder, NodeView};
use crate::models::date::{parse_date_time, parsed_date_time, DateTime};
use crate::models::gedcom::tree::lemma_node_views;
use vstd::prelude::*;
use vstd::string::StringExecFns;

verus! {

/// The textual form of the date and time of a change: the value of the date line, a space,
/// and the value of the time line.
pub const CHANGE_FORMAT: &'static str = "%-d %b %Y %H:%M:%S";

pub const CHANGE_HAS_NO_DATE: &'static str = "Gedcom Change has no date";

pub const DATE_HAS_NO_VALUE: &'static str = "Gedcom Date has no value";

pub const DATE_HAS_NO_TIME: &'static str = "Gedcom Date has no time";

pub const TIME_HAS_NO_VALUE: &'static str = "Gedcom Time has no value";

pub const CHANGE_IS_INVALID: &'static str = "Gedcom Change has invalid date_time";

/// A result whose error is a fixed message, with the message as its characters.
pub open spec fn outcome<T>(r: Result<T, &'static str>) -> Result<T, Seq<char>> {
    match r {
        Ok(value) => Ok(value),
        Err(message) => Err(message@),
    }
}

/// The text of date and time that a change record holds: the value of its first child,
/// a space, and the value of the first child of that child. Each part that is missing has
/// its own message.
pub open spec fn change_text(node: NodeView) -> Result<Seq<char>, Seq<char>> {
    if node.children.len() == 0 {
        Err(CHANGE_HAS_NO_DATE@)
    } else {
        match node.children[0].line_value {
            None => Err(DATE_HAS_NO_VALUE@),
            Some(date) => if node.children[0].children.len() == 0 {
                Err(DATE_HAS_NO_TIME@)
            } else {
                match node.children[0].children[0].line_value {
                    None => Err(TIME_HAS_NO_VALUE@),
                    Some(time) => Ok(date + seq![' '] + time),
                }
            },
        }
    }
}

/// The date and time that a text of a change record stands for, as [`parsed_date_time`]
/// reads it under [`CHANGE_FORMAT`].
pub open spec fn date_time_of_text(text: Seq<char>) -> Result<DateTime, Seq<char>> {
    match parsed_date_time(text, CHANGE_FORMAT@) {
        Some(date_time) => Ok(date_time),
        None => Err(CHANGE_IS_INVALID@),
    }
}

/// The date and time of a change record.
pub open spec fn change_date_time(node: NodeView) -> Result<DateTime, Seq<char>> {
    match change_text(node) {
        Ok(text) => date_time_of_text(text),
        Err(message) => Err(message),
    }
}

/// Computes [`change_text`].
pub fn change_node_to_text(node: &GedcomTreeNode) -> (r: Result<String, &'static str>)
    ensures
        match r {
            Ok(text) => change_text(node@) == Ok::<Seq<char>, Seq<char>>(text@),
            Err(message) => change_text(node@) == Err::<Seq<char>, Seq<char>>(message@),
        },
{
    proof {
        lemma_node_views(node.children@);
    }
    if node.children().len() == 0 {
        return Err(CHANGE_HAS_NO_DATE);
    }
    let date_node = &node.children()[0];
    proof {
        lemma_node_views(date_node.children@);
    }
    let date = match date_node.line_value() {
        Some(date) => date,
        None => {
            return Err(DATE_HAS_NO_VALUE);
        },
    };
    if date_node.children().len() == 0 {
        return Err(DATE_HAS_NO_TIME);
    }
    let time_node = &date_node.children()[0];
    let time = match time_node.line_value() {
        Some(time) => time,
        None => {
            return Err(TIME_HAS_NO_VALUE);
        },
    };
    let mut text = date.clone();
    text.push(' ');
    text.append(time.as_str());
    assert(text@ =~= date@ + seq![' '] + time@);
    Ok(text)
}

/// Reads the text of a change record, see [`date_time_of_text`].
pub fn text_to_date_time(text: &str) -> (r: Result<DateTime, &'static str>)
    ensures
        outcome(r) == date_time_of_text(text@),
{
    match parse_date_time(text, CHANGE_FORMAT) {
        Some(date_time) => Ok(date_time),
        None => Err(CHANGE_IS_INVALID),
    }
}

/// The date and time of a change record, see [`change_date_time`].
pub fn change_node_to_date_time(node: &GedcomTreeNode) -> (r: Result<DateTime, &'static str>)
    ensures
        outcome(r) == change_date_time(node@),
{
    match change_node_to_text(node) {
        Ok(text) => text_to_date_time(text.as_str()),
        Err(message) => Err(message),
    }
}

} // verus!
