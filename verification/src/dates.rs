//! Timestamps of the service, always carrying an explicit UTC offset.
//!
//! The service formats every timestamp as `YYYY-MM-DD HH:MM:SS±HHMM`. The
//! library stores the parsed calendar fields as plain integers; the parse
//! itself is delegated to the `chrono` crate.
use chrono::{Datelike, Timelike};
use vstd::prelude::*;

verus! {

/// A calendar date and time with an explicit UTC offset, as carried by the
/// `date_added` metadata of every book.
#[derive(Debug, Clone, Copy, PartialEq, Eq, Structural)]
pub struct BookDate {
    /// Calendar year.
    pub year: i32,
    /// Month of the year, `1 ..= 12`.
    pub month: u8,
    /// Day of the month, `1 ..= 31`.
    pub day: u8,
    /// Hour of the day, `0 ..= 23`.
    pub hour: u8,
    /// Minute of the hour, `0 ..= 59`.
    pub minute: u8,
    /// Second of the minute, `0 ..= 59`.
    pub second: u8,
    /// Local time minus UTC, in seconds, strictly between -86400 and 86400.
    pub offset_seconds: i32,
}

/// The field ranges every parsed [`BookDate`] satisfies.
pub open spec fn date_wf(d: BookDate) -> bool {
    &&& 1 <= d.month <= 12
    &&& 1 <= d.day <= 31
    &&& d.hour <= 23
    &&& d.minute <= 59
    &&& d.second <= 59
    &&& -86400 < d.offset_seconds < 86400
}

/// The date that the `YYYY-MM-DD HH:MM:SS±HHMM` parser yields for a string,
/// or `None` where the string does not parse. The exact set of accepted
/// strings is the parser's; it depends on the characters alone.
pub uninterp spec fn date_of(s: Seq<char>) -> Option<BookDate>;

/// Relies on chrono's `DateTime::parse_from_str` with the fixed format
/// `%Y-%m-%d %H:%M:%S%z`, and on the documented ranges of the `Datelike`,
/// `Timelike` and `FixedOffset` accessors: month 1..=12, day 1..=31,
/// hour 0..=23, minute 0..=59, second 0..=59, offset strictly inside
/// (-86400, 86400). The parse depends on the input characters alone.
#[verifier::external_body]
pub(crate) fn parse_book_date(s: &str) -> (r: Option<BookDate>)
    ensures
        r == date_of(s@),
        r matches Some(d) ==> date_wf(d),
{
    match chrono::DateTime::parse_from_str(s, "%Y-%m-%d %H:%M:%S%z") {
        Ok(dt) => Some(BookDate {
            year: dt.year(),
            month: dt.month() as u8,
            day: dt.day() as u8,
            hour: dt.hour() as u8,
            minute: dt.minute() as u8,
            second: dt.second() as u8,
            offset_seconds: dt.offset().local_minus_utc(),
        }),
        Err(_) => None,
    }
}

} // verus!
