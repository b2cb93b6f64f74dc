//! The proleptic Gregorian calendar, and the date and time value of this library.

use vstd::prelude::*;

verus! {

/// The earliest year a value of this library can lie in: the earliest that a date
/// of `chrono` can have.
pub const MIN_YEAR: i32 = -262_143;

/// The latest year a value of this library can lie in: the latest that a date of
/// `chrono` can have.
pub const MAX_YEAR: i32 = 262_142;

/// Whether `year` has a 29th of February.
pub open spec fn is_leap_year(year: int) -> bool {
    year % 4 == 0 && (year % 100 != 0 || year % 400 == 0)
}

/// The number of days of `month` in `year`, for a month from 1 to 12.
pub open spec fn days_in_month(year: int, month: int) -> int {
    if month == 2 {
        if is_leap_year(year) {
            29
        } else {
            28
        }
    } else if month == 4 || month == 6 || month == 9 || month == 11 {
        30
    } else {
        31
    }
}

/// Whether the calendar has the day `day` of month `month` in `year`.
pub open spec fn is_calendar_date(year: int, month: int, day: int) -> bool {
    &&& 1 <= month <= 12
    &&& 1 <= day <= days_in_month(year, month)
}

/// Whether a clock can show `hour`, `minute` and `second`.
pub open spec fn is_clock_time(hour: int, minute: int, second: int) -> bool {
    &&& 0 <= hour <= 23
    &&& 0 <= minute <= 59
    &&& 0 <= second <= 59
}

/// Whether `year` has a 29th of February.
pub fn leap_year(year: i32) -> (r: bool)
    ensures
        r == is_leap_year(year as int),
{
    year % 4 == 0 && (year % 100 != 0 || year % 400 == 0)
}

/// The number of days of `month` in `year`.
pub fn month_length(year: i32, month: u32) -> (r: u32)
    requires
        1 <= month <= 12,
    ensures
        r == days_in_month(year as int, month as int),
        28 <= r <= 31,
{
    if month == 2 {
        if leap_year(year) {
            29
        } else {
            28
        }
    } else if month == 4 || month == 6 || month == 9 || month == 11 {
        30
    } else {
        31
    }
}

/// A date and a time of day with no time zone attached.
///
/// The seconds are carried because an instant of the years in which Brisbane kept
/// local mean time falls on a UTC time with a second other than zero.
#[derive(Clone, Copy, Debug, PartialEq, Eq, Structural)]
pub struct NaiveDateTime {
    pub year: i32,
    pub month: u32,
    pub day: u32,
    pub hour: u32,
    pub minute: u32,
    pub second: u32,
}

impl NaiveDateTime {
    /// Whether the value names a day of the calendar, in a year that the library
    /// supports, and a time that a clock can show.
    pub open spec fn is_valid(self) -> bool {
        &&& MIN_YEAR <= self.year <= MAX_YEAR
        &&& is_calendar_date(self.year as int, self.month as int, self.day as int)
        &&& is_clock_time(self.hour as int, self.minute as int, self.second as int)
    }

    /// Whether the value lies at least a year inside the supported range, so that
    /// its instant has a date in every time zone.
    pub open spec fn is_inner(self) -> bool {
        MIN_YEAR < self.year < MAX_YEAR
    }

    /// The day of the value, at `hour` and `minute` sharp.
    pub open spec fn at_time(self, hour: int, minute: int) -> NaiveDateTime {
        NaiveDateTime { hour: hour as u32, minute: minute as u32, second: 0, ..self }
    }

    /// The value made of the given parts, if they form a valid one.
    pub fn new(
        year: i32,
        month: u32,
        day: u32,
        hour: u32,
        minute: u32,
        second: u32,
    ) -> (r: Option<NaiveDateTime>)
        ensures
            r == (if (NaiveDateTime { year, month, day, hour, minute, second }).is_valid() {
                Some(NaiveDateTime { year, month, day, hour, minute, second })
            } else {
                None
            }),
    {
        let candidate = NaiveDateTime { year, month, day, hour, minute, second };
        if candidate.check_valid() {
            Some(candidate)
        } else {
            None
        }
    }

    /// The day of the value, at `hour` and `minute` sharp.
    pub fn on_same_day(&self, hour: u32, minute: u32) -> (r: NaiveDateTime)
        ensures
            r == self.at_time(hour as int, minute as int),
    {
        NaiveDateTime { hour, minute, second: 0, ..*self }
    }

    /// Tests whether the value is valid.
    pub fn check_valid(&self) -> (r: bool)
        ensures
            r == self.is_valid(),
    {
        MIN_YEAR <= self.year && self.year <= MAX_YEAR && 1 <= self.month && self.month <= 12 && 1
            <= self.day && self.day <= month_length(self.year, self.month) && self.hour <= 23
            && self.minute <= 59 && self.second <= 59
    }

    /// Tests whether the value lies at least a year inside the supported range.
    pub fn check_inner(&self) -> (r: bool)
        ensures
            r == self.is_inner(),
    {
        MIN_YEAR < self.year && self.year < MAX_YEAR
    }
}

} // verus!
