//! Calendar date-times as plain values, and the calls into `chrono` that
//! parse, format and read them.

use vstd::prelude::*;
use chrono::{Datelike, NaiveDate, NaiveDateTime, Timelike};

verus! {

/// Smallest year that a `chrono` date can hold.
pub const MIN_YEAR: i32 = -262143;

/// Largest year that a `chrono` date can hold.
pub const MAX_YEAR: i32 = 262142;

/// A calendar date and time of day, without time zone, in the proleptic
/// Gregorian calendar.  A `nanosecond` of one billion or more marks a leap
/// second (then `second` is 59), as in `chrono`.
#[derive(Clone, Copy, Debug, PartialEq, Eq, Structural)]
pub struct DateTime {
    pub year: i32,
    pub month: u32,
    pub day: u32,
    pub hour: u32,
    pub minute: u32,
    pub second: u32,
    pub nanosecond: u32,
}

/// The fields of a date-time, in order from the year to the nanosecond.
pub type DateTimeParts = (i32, u32, u32, u32, u32, u32, u32);

/// Leap years of the proleptic Gregorian calendar.
pub open spec fn is_leap_year(y: int) -> bool {
    y % 4 == 0 && (y % 100 != 0 || y % 400 == 0)
}

/// Number of days of month `m` of year `y`.
pub open spec fn days_in_month(y: int, m: int) -> int {
    if m == 2 {
        if is_leap_year(y) { 29 } else { 28 }
    } else if m == 4 || m == 6 || m == 9 || m == 11 {
        30
    } else {
        31
    }
}

/// The year, month and day name a day that exists and lies in `chrono`'s range.
pub open spec fn valid_date(y: int, m: int, d: int) -> bool {
    &&& MIN_YEAR <= y <= MAX_YEAR
    &&& 1 <= m <= 12
    &&& 1 <= d <= days_in_month(y, m)
}

/// The hour, minute, second and nanosecond name a time of day, a leap second
/// being written as second 59 with a nanosecond of one billion or more.
pub open spec fn valid_time(h: int, mi: int, s: int, ns: int) -> bool {
    &&& 0 <= h < 24
    &&& 0 <= mi < 60
    &&& 0 <= s < 60
    &&& 0 <= ns < 2_000_000_000
    &&& ns >= 1_000_000_000 ==> s == 59
}

impl DateTime {
    /// The value is a date-time that `chrono` can represent.
    pub open spec fn valid(self) -> bool {
        &&& valid_date(self.year as int, self.month as int, self.day as int)
        &&& valid_time(self.hour as int, self.minute as int, self.second as int, self.nanosecond as int)
    }

    pub open spec fn parts(self) -> DateTimeParts {
        (self.year, self.month, self.day, self.hour, self.minute, self.second, self.nanosecond)
    }

    pub open spec fn from_parts(p: DateTimeParts) -> DateTime {
        DateTime {
            year: p.0,
            month: p.1,
            day: p.2,
            hour: p.3,
            minute: p.4,
            second: p.5,
            nanosecond: p.6,
        }
    }
}

/// The parts of an optional date-time.
pub open spec fn opt_parts(o: Option<DateTime>) -> Option<DateTimeParts> {
    match o {
        Some(dt) => Some(dt.parts()),
        None => None,
    }
}

/// The formats that this library hands to `chrono` for rendering.
pub open spec fn known_format(fmt: Seq<char>) -> bool {
    ||| fmt == "%d.%m.%Y %H:%M"@
    ||| fmt == "%d.%m.%Y %H:%M UTC"@
    ||| fmt == "%Y%m%d_%H%M%S"@
}

/// What `NaiveDateTime::parse_from_str(input, fmt)` yields: the parsed
/// date-time as parts, or `None` where it returns an error.
pub uninterp spec fn chrono_parse_datetime(input: Seq<char>, fmt: Seq<char>) -> Option<DateTimeParts>;

/// What `NaiveDate::parse_from_str(input, fmt)` yields: year, month and day,
/// or `None` where it returns an error.
pub uninterp spec fn chrono_parse_date(input: Seq<char>, fmt: Seq<char>) -> Option<(i32, u32, u32)>;

/// The text that `NaiveDateTime::format(fmt)` renders for the date-time with
/// the given parts.
pub uninterp spec fn chrono_format(dt: DateTimeParts, fmt: Seq<char>) -> Seq<char>;

/// Calls `chrono::NaiveDateTime::parse_from_str`.  Claimed: the result is
/// the value named by `chrono_parse_datetime` for these arguments, and a
/// parsed value is a date-time that `chrono` represents (every
/// `NaiveDateTime` is).
#[verifier::external_body]
pub(crate) fn parse_naive_datetime(input: &str, fmt: &str) -> (res: Option<DateTime>)
    ensures
        match res {
            Some(dt) => chrono_parse_datetime(input@, fmt@) == Some(dt.parts()) && dt.valid(),
            None => chrono_parse_datetime(input@, fmt@) is None,
        },
{
    NaiveDateTime::parse_from_str(input, fmt).ok().map(|dt| DateTime {
        year: dt.year(),
        month: dt.month(),
        day: dt.day(),
        hour: dt.hour(),
        minute: dt.minute(),
        second: dt.second(),
        nanosecond: dt.nanosecond(),
    })
}

/// Calls `chrono::NaiveDate::parse_from_str`.  Claimed: the result is the
/// value named by `chrono_parse_date` for these arguments, and a parsed date
/// exists and lies in `chrono`'s range (every `NaiveDate` does).
#[verifier::external_body]
pub(crate) fn parse_naive_date(input: &str, fmt: &str) -> (res: Option<(i32, u32, u32)>)
    ensures
        match res {
            Some(d) => chrono_parse_date(input@, fmt@) == Some(d) && valid_date(
                d.0 as int,
                d.1 as int,
                d.2 as int,
            ),
            None => chrono_parse_date(input@, fmt@) is None,
        },
{
    NaiveDate::parse_from_str(input, fmt).ok().map(|d| (d.year(), d.month(), d.day()))
}

/// Calls `chrono::NaiveDateTime::format(fmt)` and renders it to a string.
/// The date-time is rebuilt with `NaiveDate::from_ymd_opt` and
/// `and_hms_nano_opt`, which succeed on valid parts.  Claimed: the text is
/// the one named by `chrono_format`.  Only the formats of `known_format`
/// are admitted: on a malformed format the rendering would panic.
#[verifier::external_body]
pub(crate) fn format_datetime(dt: &DateTime, fmt: &str) -> (res: String)
    requires
        dt.valid(),
        known_format(fmt@),
    ensures
        res@ == chrono_format(dt.parts(), fmt@),
{
    NaiveDate::from_ymd_opt(dt.year, dt.month, dt.day)
        .unwrap()
        .and_hms_nano_opt(dt.hour, dt.minute, dt.second, dt.nanosecond)
        .unwrap()
        .format(fmt)
        .to_string()
}

/// Calls `chrono::Utc::now()` and takes its UTC date and time.  Claimed: a
/// valid date-time; which one depends on the clock, so nothing more is
/// said.  (`chrono` panics when the system clock reads before 1970.)
#[verifier::external_body]
pub(crate) fn now_utc() -> (res: DateTime)
    ensures
        res.valid(),
{
    let dt = chrono::Utc::now().naive_utc();
    DateTime {
        year: dt.year(),
        month: dt.month(),
        day: dt.day(),
        hour: dt.hour(),
        minute: dt.minute(),
        second: dt.second(),
        nanosecond: dt.nanosecond(),
    }
}

/// The first moment of a day: `NaiveDate::and_hms_opt(0, 0, 0)`, which
/// always succeeds.
pub fn at_midnight(year: i32, month: u32, day: u32) -> (dt: DateTime)
    requires
        valid_date(year as int, month as int, day as int),
    ensures
        dt.valid(),
        dt.parts() == (year, month, day, 0u32, 0u32, 0u32, 0u32),
{
    DateTime { year, month, day, hour: 0, minute: 0, second: 0, nanosecond: 0 }
}


fn is_leap(y: i32) -> (b: bool)
    ensures
        b == is_leap_year(y as int),
{
    y % 4 == 0 && (y % 100 != 0 || y % 400 == 0)
}

impl DateTime {
    /// Whether this is a date-time that `chrono` can represent.
    pub fn is_valid(&self) -> (b: bool)
        ensures
            b == self.valid(),
    {
        if self.year < MIN_YEAR || self.year > MAX_YEAR || self.month < 1 || self.month > 12 || self.day < 1 {
            return false;
        }
        let days: u32 = if self.month == 2 {
            if is_leap(self.year) { 29 } else { 28 }
        } else if self.month == 4 || self.month == 6 || self.month == 9 || self.month == 11 {
            30
        } else {
            31
        };
        self.day <= days && self.hour < 24 && self.minute < 60 && self.second < 60 && self.nanosecond
            < 2_000_000_000 && (self.nanosecond < 1_000_000_000 || self.second == 59)
    }
}

} // verus!
