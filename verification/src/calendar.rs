//! Calendar dates and clock times as plain values, with the validity
//! rules of the proleptic Gregorian calendar. The target resolver works
//! on these instead of on the date library's own types.

use vstd::prelude::*;

verus! {

/// Whether a year is a leap year in the proleptic Gregorian calendar.
pub open spec fn spec_is_leap_year(y: int) -> bool {
    y % 4 == 0 && (y % 100 != 0 || y % 400 == 0)
}

/// The number of days in a month, for months 1..=12.
pub open spec fn spec_days_in_month(y: int, m: int) -> int {
    if m == 1 || m == 3 || m == 5 || m == 7 || m == 8 || m == 10 || m == 12 {
        31
    } else if m == 4 || m == 6 || m == 9 || m == 11 {
        30
    } else if spec_is_leap_year(y) {
        29
    } else {
        28
    }
}

/// A valid calendar date with a four-digit year, as the `YYYY-MM-DD`
/// date input admits.
pub open spec fn valid_ymd(y: int, m: int, d: int) -> bool {
    &&& 0 <= y <= 9999
    &&& 1 <= m <= 12
    &&& 1 <= d <= spec_days_in_month(y, m)
}

/// A valid time of day at second resolution.
pub open spec fn valid_hms(h: int, mi: int, s: int) -> bool {
    &&& 0 <= h < 24
    &&& 0 <= mi < 60
    &&& 0 <= s < 60
}

/// A calendar date given as target input.
pub struct CalendarDate {
    pub year: i32,
    pub month: u32,
    pub day: u32,
}

/// A time of day given as target input.
pub struct ClockTime {
    pub hour: u32,
    pub minute: u32,
    pub second: u32,
}

impl CalendarDate {
    /// A well-formed date is a valid Gregorian calendar date.
    pub open spec fn wf(self) -> bool {
        valid_ymd(self.year as int, self.month as int, self.day as int)
    }

    /// Decide well-formedness.
    pub fn is_valid(&self) -> (b: bool)
        ensures
            b == self.wf(),
    {
        check_ymd(self.year, self.month, self.day)
    }
}

impl ClockTime {
    /// A well-formed time of day.
    pub open spec fn wf(self) -> bool {
        valid_hms(self.hour as int, self.minute as int, self.second as int)
    }

    /// Decide well-formedness.
    pub fn is_valid(&self) -> (b: bool)
        ensures
            b == self.wf(),
    {
        self.hour < 24 && self.minute < 60 && self.second < 60
    }
}

/// Decide whether a year is a leap year.
pub fn is_leap_year(y: u32) -> (b: bool)
    ensures
        b == spec_is_leap_year(y as int),
{
    y % 4 == 0 && (y % 100 != 0 || y % 400 == 0)
}

/// Decide whether year, month and day form a valid calendar date.
pub fn check_ymd(y: i32, m: u32, d: u32) -> (b: bool)
    ensures
        b == valid_ymd(y as int, m as int, d as int),
{
    if y < 0 || y > 9999 {
        return false;
    }
    if m < 1 || m > 12 {
        return false;
    }
    let days: u32 = if m == 1 || m == 3 || m == 5 || m == 7 || m == 8 || m == 10 || m == 12 {
        31
    } else if m == 4 || m == 6 || m == 9 || m == 11 {
        30
    } else if is_leap_year(y as u32) {
        29
    } else {
        28
    };
    1 <= d && d <= days
}

} // verus!
