//! Points in time, in UTC, as a document records them.

use chrono::{Datelike, Timelike};
use vstd::prelude::*;

verus! {

/// The first year that a date can have.
pub const MIN_YEAR: i32 = -262143;

/// The last year that a date can have.
pub const MAX_YEAR: i32 = 262142;

/// Whether `year` has a 29th of February, in the proleptic Gregorian calendar.
pub open spec fn is_leap_year(year: int) -> bool {
    year % 4 == 0 && (year % 100 != 0 || year % 400 == 0)
}

/// The number of days of `month` in `year`; 0 where there is no such month.
pub open spec fn days_in_month(year: int, month: int) -> int {
    if month == 1 || month == 3 || month == 5 || month == 7 || month == 8 || month == 10 || month
        == 12 {
        31
    } else if month == 4 || month == 6 || month == 9 || month == 11 {
        30
    } else if month == 2 {
        if is_leap_year(year) {
            29
        } else {
            28
        }
    } else {
        0
    }
}

/// Whether the calendar has the day `day` of `month` in `year`.
pub open spec fn is_calendar_date(year: int, month: int, day: int) -> bool {
    &&& MIN_YEAR <= year <= MAX_YEAR
    &&& 1 <= month <= 12
    &&& 1 <= day <= days_in_month(year, month)
}

/// A date and a time of day in UTC.
#[derive(Clone, Copy, Debug, PartialEq, Eq)]
pub struct DateTime {
    pub year: i32,
    pub month: u32,
    pub day: u32,
    pub hour: u32,
    pub minute: u32,
    pub second: u32,
    /// Nanoseconds since the start of the second; a billion or more during a
    /// leap second.
    pub nanosecond: u32,
}

impl DeepView for DateTime {
    type V = DateTime;

    open spec fn deep_view(&self) -> DateTime {
        *self
    }
}

impl DateTime {
    /// Whether this is a point in time that exists.
    pub open spec fn wf(self) -> bool {
        &&& is_calendar_date(self.year as int, self.month as int, self.day as int)
        &&& self.hour < 24
        &&& self.minute < 60
        &&& self.second < 60
        &&& self.nanosecond < 2_000_000_000
    }

    /// Midnight at the start of the given day.
    pub open spec fn midnight(year: i32, month: u32, day: u32) -> DateTime {
        DateTime { year, month, day, hour: 0, minute: 0, second: 0, nanosecond: 0 }
    }

    /// Midnight at the start of the given day, where the calendar has that day.
    pub fn from_ymd(year: i32, month: u32, day: u32) -> (res: Option<DateTime>)
        ensures
            res == if is_calendar_date(year as int, month as int, day as int) {
                Some(DateTime::midnight(year, month, day))
            } else {
                None
            },
            res matches Some(at) ==> at.wf(),
    {
        if calendar_date_exists(year, month, day) {
            Some(DateTime { year, month, day, hour: 0, minute: 0, second: 0, nanosecond: 0 })
        } else {
            None
        }
    }
}

/// `chrono::NaiveDate::from_ymd_opt`, asked only whether it finds a date: it
/// does exactly when the year is one that chrono can hold and the month has
/// that day, February having 29 days in leap years.
#[verifier::external_body]
fn calendar_date_exists(year: i32, month: u32, day: u32) -> (exists: bool)
    ensures
        exists == is_calendar_date(year as int, month as int, day as int),
{
    chrono::NaiveDate::from_ymd_opt(year, month, day).is_some()
}

/// `chrono::Utc::now`, read field by field. Nothing is promised of the moment
/// but that it exists.
#[verifier::external_body]
pub(crate) fn utc_now() -> (at: DateTime)
    ensures
        at.wf(),
{
    let now = chrono::Utc::now();
    DateTime {
        year: now.year(),
        month: now.month(),
        day: now.day(),
        hour: now.hour(),
        minute: now.minute(),
        second: now.second(),
        nanosecond: now.nanosecond(),
    }
}

} // verus!
