//! Calendar dates and times of day as plain numbers, and the texts they are read from.
use chrono::{Datelike, NaiveDate, NaiveDateTime, Timelike};
use vstd::prelude::*;

verus! {

/// A day of the calendar.
#[derive(Clone, Copy, Debug, PartialEq, Eq)]
pub struct Date {
    pub year: i32,
    pub month: u32,
    pub day: u32,
}

/// A day of the calendar and a time of that day. A leap second is second 59 with a
/// nanosecond of 1,000,000,000 or more.
#[derive(Clone, Copy, Debug, PartialEq, Eq)]
pub struct DateTime {
    pub date: Date,
    pub hour: u32,
    pub minute: u32,
    pub second: u32,
    pub nanosecond: u32,
}

/// What `chrono::NaiveDate::parse_from_str` makes of a text under a format: the date, or
/// `None` where it reports an error.
pub uninterp spec fn parsed_date(text: Seq<char>, format: Seq<char>) -> Option<Date>;

/// What `chrono::NaiveDateTime::parse_from_str` makes of a text under a format: the date
/// and time, or `None` where it reports an error.
pub uninterp spec fn parsed_date_time(text: Seq<char>, format: Seq<char>) -> Option<DateTime>;

/// `chrono::NaiveDate::parse_from_str`, with the date it returns taken apart into year,
/// month and day. The result depends on the text and the format alone.
#[verifier::external_body]
pub(crate) fn parse_date(text: &str, format: &str) -> (date: Option<Date>)
    ensures
        date == parsed_date(text@, format@),
{
    match NaiveDate::parse_from_str(text, format) {
        Ok(parsed) => Some(Date { year: parsed.year(), month: parsed.month(), day: parsed.day() }),
        Err(_) => None,
    }
}

/// `chrono::NaiveDateTime::parse_from_str`, with the value it returns taken apart into
/// its date and its hour, minute, second and nanosecond. The result depends on the text
/// and the format alone.
#[verifier::external_body]
pub(crate) fn parse_date_time(text: &str, format: &str) -> (date_time: Option<DateTime>)
    ensures
        date_time == parsed_date_time(text@, format@),
{
    match NaiveDateTime::parse_from_str(text, format) {
        Ok(parsed) => Some(
            DateTime {
                date: Date { year: parsed.year(), month: parsed.month(), day: parsed.day() },
                hour: parsed.hour(),
                minute: parsed.minute(),
                second: parsed.second(),
                nanosecond: parsed.nanosecond(),
            },
        ),
        Err(_) => None,
    }
}

} // verus!
