//! Points in time as the wire writes them: one fixed ISO 8601 text form.
//!
//! A `Timestamp` holds the calendar fields as plain integers. Parsing and
//! formatting the text is left to the `time` crate.

use crate::error::DecodeError;
use vstd::prelude::*;

verus! {

/// A calendar date, a time of day and an offset from UTC.
#[derive(Debug, Clone, Copy, PartialEq, Eq, Structural)]
pub struct Timestamp {
    pub year: i32,
    pub month: u8,
    pub day: u8,
    pub hour: u8,
    pub minute: u8,
    pub second: u8,
    pub nanosecond: u32,
    /// Offset from UTC, in seconds east.
    pub offset_seconds: i32,
}

/// Is `y` a leap year of the proleptic Gregorian calendar?
pub open spec fn is_leap_year(y: int) -> bool {
    (y % 4 == 0 && y % 100 != 0) || y % 400 == 0
}

/// The number of days in month `m` (1 to 12) of year `y`.
pub open spec fn month_length(y: int, m: int) -> int {
    if m == 2 {
        if is_leap_year(y) {
            29
        } else {
            28
        }
    } else if m == 4 || m == 6 || m == 9 || m == 11 {
        30
    } else {
        31
    }
}

impl Timestamp {
    /// Do the fields name a real instant: a date of the calendar, a time of
    /// day, and an offset under 26 hours?
    pub open spec fn well_formed(self) -> bool {
        &&& -9999 <= self.year <= 9999
        &&& 1 <= self.month <= 12
        &&& 1 <= self.day <= month_length(self.year as int, self.month as int)
        &&& self.hour < 24
        &&& self.minute < 60
        &&& self.second < 60
        &&& self.nanosecond < 1_000_000_000
        &&& -93600 < self.offset_seconds < 93600
    }

    /// Makes a timestamp from its fields, or `None` when they name no instant.
    pub fn new(
        year: i32,
        month: u8,
        day: u8,
        hour: u8,
        minute: u8,
        second: u8,
        nanosecond: u32,
        offset_seconds: i32,
    ) -> (r: Option<Timestamp>)
        ensures
            r is Some <==> (Timestamp {
                year,
                month,
                day,
                hour,
                minute,
                second,
                nanosecond,
                offset_seconds,
            }).well_formed(),
            r matches Some(t) ==> t == (Timestamp {
                year,
                month,
                day,
                hour,
                minute,
                second,
                nanosecond,
                offset_seconds,
            }),
    {
        if year < -9999 || year > 9999 || month < 1 || month > 12 {
            return None;
        }
        if day < 1 || day > days_in_month(year, month) {
            return None;
        }
        if hour >= 24 || minute >= 60 || second >= 60 || nanosecond >= 1_000_000_000 {
            return None;
        }
        if offset_seconds <= -93600 || offset_seconds >= 93600 {
            return None;
        }
        Some(Timestamp { year, month, day, hour, minute, second, nanosecond, offset_seconds })
    }
}

/// The number of days in a month of a year.
pub fn days_in_month(year: i32, month: u8) -> (r: u8)
    requires
        1 <= month <= 12,
    ensures
        r == month_length(year as int, month as int),
{
    if month == 2 {
        if (year % 4 == 0 && year % 100 != 0) || year % 400 == 0 {
            29
        } else {
            28
        }
    } else if month == 4 || month == 6 || month == 9 || month == 11 {
        30
    } else {
        31
    }
}

/// What the `time` crate reads from a text in ISO 8601 form, if it reads
/// an instant.
pub uninterp spec fn parsed_timestamp(s: Seq<char>) -> Option<Timestamp>;

/// The ISO 8601 text that the `time` crate writes for an instant.
pub uninterp spec fn timestamp_text(t: Timestamp) -> Seq<char>;

/// Relies on `time::OffsetDateTime::parse` with the default ISO 8601
/// configuration, and on its accessors: every value of `OffsetDateTime` is a
/// valid calendar date, time of day and offset.
#[verifier::external_body]
fn parse_iso8601(s: &str) -> (r: Option<Timestamp>)
    ensures
        r == parsed_timestamp(s@),
        r matches Some(t) ==> t.well_formed(),
{
    let v = time::OffsetDateTime::parse(s, &time::format_description::well_known::Iso8601::DEFAULT)
        .ok()?;
    Some(Timestamp {
        year: v.year(),
        month: u8::from(v.month()),
        day: v.day(),
        hour: v.hour(),
        minute: v.minute(),
        second: v.second(),
        nanosecond: v.nanosecond(),
        offset_seconds: v.offset().whole_seconds(),
    })
}

/// Relies on `time::OffsetDateTime::format` with the default ISO 8601
/// configuration; the value is assembled from the fields by the `time`
/// crate's constructors. Those accept every well-formed value, and the
/// four-digit year and minute-precision offset of that form are written for
/// every year from 0 to 9999 and every offset in whole minutes.
#[verifier::external_body]
fn format_iso8601(t: &Timestamp) -> (r: Option<String>)
    ensures
        r matches Some(s) ==> s@ == timestamp_text(*t),
        t.well_formed() && t.year >= 0 && t.offset_seconds % 60 == 0 ==> r is Some,
{
    let month = time::Month::try_from(t.month).ok()?;
    let date = time::Date::from_calendar_date(t.year, month, t.day).ok()?;
    let clock = time::Time::from_hms_nano(t.hour, t.minute, t.second, t.nanosecond).ok()?;
    let offset = time::UtcOffset::from_whole_seconds(t.offset_seconds).ok()?;
    let v = time::PrimitiveDateTime::new(date, clock).assume_offset(offset);
    v.format(&time::format_description::well_known::Iso8601::DEFAULT).ok()
}

/// Decodes a timestamp member; any text not in the fixed form is an error.
pub fn decode_timestamp(s: &str) -> (r: Result<Timestamp, DecodeError>)
    ensures
        r == match parsed_timestamp(s@) {
            Some(t) => Ok::<Timestamp, DecodeError>(t),
            None => Err(DecodeError::InvalidTimestamp),
        },
        r matches Ok(t) ==> t.well_formed(),
{
    match parse_iso8601(s) {
        Some(t) => Ok(t),
        None => Err(DecodeError::InvalidTimestamp),
    }
}

/// Encodes a timestamp in the fixed form: always for years 0 to 9999 with
/// an offset in whole minutes, which is all that the form can hold.
pub fn encode_timestamp(t: &Timestamp) -> (r: Option<String>)
    requires
        t.well_formed(),
    ensures
        r matches Some(s) ==> s@ == timestamp_text(*t),
        t.year >= 0 && t.offset_seconds % 60 == 0 ==> r is Some,
{
    format_iso8601(t)
}

} // verus!
