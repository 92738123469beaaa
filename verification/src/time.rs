//! Points in time as plain values: the wall-clock reading that a date token
//! spells out, and the instant in seconds since the Unix epoch that records
//! are compared by.

use chrono::{Datelike, Local, NaiveDate, NaiveDateTime, TimeZone, Timelike, Utc};
use vstd::prelude::*;
use crate::text::chars_of;

verus! {

/// The first second that a calendar date exists for: midnight of
/// January 1 of the year -262143.
pub const FIRST_SECOND: i64 = -8_334_601_228_800;

/// The last second that a calendar date exists for: the end of
/// December 31 of the year 262142.
pub const LAST_SECOND: i64 = 8_210_266_876_799;

/// The pattern that an explicit date is written in.
pub const DATE_TIME_PATTERN: &'static str = "%Y-%m-%dT%H:%M:%S";

/// A reading of calendar and clock, without a time zone.
#[derive(Debug, Clone, Copy, PartialEq, Eq, Structural)]
pub struct CalendarTime {
    pub year: i32,
    pub month: u32,
    pub day: u32,
    pub hour: u32,
    pub minute: u32,
    pub second: u32,
}

/// A moment given in local time: the reading of calendar and clock as it was
/// written, and the instant that the local time zone resolves it to.
#[derive(Debug, Clone, Copy, PartialEq, Eq, Structural)]
pub struct LocalTime {
    pub calendar: CalendarTime,
    /// Seconds since the Unix epoch.
    pub secs: i64,
}

/// Whether an instant, in seconds since the Unix epoch, has a calendar date.
pub open spec fn has_calendar_date(secs: i64) -> bool {
    FIRST_SECOND <= secs <= LAST_SECOND
}

/// The instant `secs` if it has a calendar date.
pub open spec fn instant_of(secs: i64) -> Option<i64> {
    if has_calendar_date(secs) {
        Some(secs)
    } else {
        None
    }
}

/// The instant that an optional count of seconds stands for.
pub open spec fn instant_from(secs: Option<i64>) -> Option<i64> {
    match secs {
        Some(s) => instant_of(s),
        None => None,
    }
}

/// The number of whole seconds between two instants.
pub open spec fn seconds_apart(a: i64, b: i64) -> int {
    if a >= b {
        a - b
    } else {
        b - a
    }
}

/// What `chrono::NaiveDateTime::parse_from_str` reads from `text` under the
/// pattern `pattern`, field by field; `None` where it reports an error.
pub uninterp spec fn calendar_reading(text: Seq<char>, pattern: Seq<char>) -> Option<CalendarTime>;

/// Calls `chrono::NaiveDateTime::parse_from_str` and copies the fields of
/// the value it returns. The contract only names the outcome: equal texts
/// read under equal patterns give equal readings.
#[verifier::external_body]
pub(crate) fn read_calendar(text: &str, pattern: &str) -> (reading: Option<CalendarTime>)
    ensures
        reading == calendar_reading(text@, pattern@),
{
    match NaiveDateTime::parse_from_str(text, pattern) {
        Ok(dt) => Some(CalendarTime {
            year: dt.year(),
            month: dt.month(),
            day: dt.day(),
            hour: dt.hour(),
            minute: dt.minute(),
            second: dt.second(),
        }),
        Err(_) => None,
    }
}

/// Calls `chrono::TimeZone::from_local_datetime` on `chrono::Local` and
/// takes the single instant it maps the reading to, in seconds since the
/// Unix epoch. The answer depends on the time zone of the machine, so the
/// contract promises nothing about it.
#[verifier::external_body]
pub(crate) fn resolve_local(reading: &CalendarTime) -> (secs: Option<i64>) {
    NaiveDate::from_ymd_opt(reading.year, reading.month, reading.day)
        .and_then(|date| date.and_hms_opt(reading.hour, reading.minute, reading.second))
        .and_then(|naive| Local.from_local_datetime(&naive).single())
        .map(|moment| moment.timestamp())
}

/// Calls `chrono::TimeZone::timestamp_opt` on `chrono::Utc` with no
/// nanoseconds. It yields a single moment exactly for the seconds that fall
/// on a calendar date, and that moment is `secs` seconds after the epoch.
#[verifier::external_body]
pub(crate) fn utc_instant(secs: i64) -> (instant: Option<i64>)
    ensures
        instant == instant_of(secs),
{
    Utc.timestamp_opt(secs, 0).single().map(|moment| moment.timestamp())
}

/// The text that `chrono::NaiveDate::format` writes for a day of the
/// calendar under the pattern `%Y-%m-%d`; `None` where
/// `chrono::NaiveDate::from_ymd_opt` finds no such day.
pub uninterp spec fn day_text(year: i32, month: u32, day: u32) -> Option<Seq<char>>;

/// Calls `chrono::NaiveDate::from_ymd_opt` and, for the day it gives,
/// `chrono::NaiveDate::format` with the pattern `%Y-%m-%d`. The contract
/// only names the outcome: equal days give equal texts.
#[verifier::external_body]
pub(crate) fn format_day(year: i32, month: u32, day: u32) -> (text: Option<String>)
    ensures
        chars_of(text) == day_text(year, month, day),
{
    NaiveDate::from_ymd_opt(year, month, day).map(|date| date.format("%Y-%m-%d").to_string())
}

/// Calls `chrono::Local::now` and formats the time of day as the letter `T`
/// followed by hours, minutes and seconds. The answer depends on the clock.
#[verifier::external_body]
pub(crate) fn clock_suffix() -> (suffix: String) {
    Local::now().format("T%H:%M:%S").to_string()
}

/// The instant `secs`, provided it has a calendar date.
pub fn instant(secs: i64) -> (found: Option<i64>)
    ensures
        found == instant_of(secs),
{
    utc_instant(secs)
}

/// The instant that an optional count of seconds stands for.
pub fn instant_opt(secs: Option<i64>) -> (found: Option<i64>)
    ensures
        found == instant_from(secs),
{
    match secs {
        Some(s) => utc_instant(s),
        None => None,
    }
}

/// The number of whole seconds between two instants.
pub fn distance(a: i64, b: i64) -> (apart: u64)
    ensures
        apart == seconds_apart(a, b),
{
    if a >= b {
        (a as i128 - b as i128) as u64
    } else {
        (b as i128 - a as i128) as u64
    }
}

} // verus!
