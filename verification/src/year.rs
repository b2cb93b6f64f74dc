//! Years written with two digits.

use crate::calendar::{days_in_month, is_calendar_date, is_leap_year, NaiveDateTime};
use vstd::prelude::*;

verus! {

/// The four-digit year that a year written with two digits stands for:
/// 0 to 68 are the years 2000 to 2068, 69 to 99 the years 1969 to 1999.
/// Any other year stands for itself.
pub open spec fn mapped_year(year: int) -> int {
    if 0 <= year <= 68 {
        2000 + year
    } else if 69 <= year <= 99 {
        1900 + year
    } else {
        year
    }
}

/// `value` with its year mapped, the date within the year and the time of day kept.
pub open spec fn with_mapped_year(value: NaiveDateTime) -> NaiveDateTime {
    NaiveDateTime { year: mapped_year(value.year as int) as i32, ..value }
}

/// Maps a year written with two digits to the year it stands for: 0 to 68 to
/// 2000 to 2068, 69 to 99 to 1969 to 1999. Any other year is returned as it is.
pub fn map_two_digit_year(y: i32) -> (r: i32)
    ensures
        r == mapped_year(y as int),
        0 <= y <= 68 ==> r == 2000 + y,
        69 <= y <= 99 ==> r == 1900 + y,
        y < 0 || y > 99 ==> r == y,
{
    if 0 <= y && y <= 68 {
        2000 + y
    } else if 69 <= y && y <= 99 {
        1900 + y
    } else {
        y
    }
}

/// Replaces a year from 0 to 99 by the year it stands for. The month, the day and
/// the time of day stay, and a valid value stays valid.
pub fn fix_two_digit_year(ndt: NaiveDateTime) -> (r: NaiveDateTime)
    ensures
        r == with_mapped_year(ndt),
        ndt.is_valid() ==> r.is_valid(),
{
    proof {
        lemma_mapping_keeps_dates(ndt.year as int, ndt.month as int, ndt.day as int);
    }
    if 0 <= ndt.year && ndt.year <= 99 {
        NaiveDateTime { year: map_two_digit_year(ndt.year), ..ndt }
    } else {
        ndt
    }
}

/// The mapped year is a leap year exactly when the written year is. A year up
/// to 68 moves by 2000 years, a multiple of 400. A year from 69 to 99 moves by
/// 1900 years: it stays a multiple of 4 if it was one, and is no multiple of 100
/// before or after.
pub proof fn lemma_mapping_keeps_leap_years(year: int)
    ensures
        is_leap_year(mapped_year(year)) == is_leap_year(year),
{
}

/// A day that the calendar has in the written year exists in the mapped year too,
/// and a day that it lacks is lacking there: mapping the year before or after
/// testing the date makes no difference.
pub proof fn lemma_mapping_keeps_dates(year: int, month: int, day: int)
    ensures
        days_in_month(mapped_year(year), month) == days_in_month(year, month),
        is_calendar_date(mapped_year(year), month, day) == is_calendar_date(year, month, day),
{
    lemma_mapping_keeps_leap_years(year);
}

/// Every year from 0 to 99 is mapped into the hundred years from 1969 to 2068 and
/// keeps its last two digits, and no two of them are mapped to the same year.
pub proof fn lemma_mapping_is_injective(a: int, b: int)
    requires
        0 <= a <= 99,
        0 <= b <= 99,
    ensures
        1969 <= mapped_year(a) <= 2068,
        mapped_year(a) % 100 == a,
        mapped_year(a) == mapped_year(b) ==> a == b,
{
}

} // verus!
