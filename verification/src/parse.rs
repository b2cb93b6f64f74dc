//! Reading a time, alone or followed by a date.

use crate::calendar::NaiveDateTime;
use crate::layout::{
    accepted_layouts, first_match, has_time_at_start, layouts, written_hour, written_minute,
    Layout,
};
use crate::text::{chars_of, four_digits_at, read_two_digits, two_digits_at};
use crate::year::mapped_year;
use crate::zone::{brisbane_clock, brisbane_clock_at};
use vstd::prelude::*;
use vstd::string::*;

verus! {

/// Why a text could not be read.
#[derive(Clone, Copy, Debug, PartialEq, Eq, Structural)]
pub enum ParseError {
    /// The text has the shape `HH:MM`, but no clock shows that hour and minute.
    InvalidTime,
    /// The text is written in none of the accepted forms.
    UnrecognizedFormat,
}

impl ParseError {
    /// What the user is told: what was wrong, and the forms that are accepted.
    pub open spec fn message_text(self) -> Seq<char> {
        match self {
            ParseError::InvalidTime => "Invalid time. Try: HH:MM from 00:00 to 23:59"@,
            ParseError::UnrecognizedFormat =>
                "Unrecognized format. Try: HH:MM or HH:MM dd-mm-yy|yyyy or HH:MM dd/mm/yy|yyyy"@,
        }
    }

    /// What the user is told: what was wrong, and the forms that are accepted.
    pub fn message(&self) -> (r: &'static str)
        ensures
            r@ == self.message_text(),
    {
        match self {
            ParseError::InvalidTime => "Invalid time. Try: HH:MM from 00:00 to 23:59",
            ParseError::UnrecognizedFormat =>
                "Unrecognized format. Try: HH:MM or HH:MM dd-mm-yy|yyyy or HH:MM dd/mm/yy|yyyy",
        }
    }
}

/// Whether `s` is a time alone, of the shape `HH:MM` and nothing else.
pub open spec fn is_time_alone(s: Seq<char>) -> bool {
    s.len() == 5 && has_time_at_start(s)
}

/// Whether `s` is a time alone that a clock can show, from `00:00` to `23:59`.
pub open spec fn is_time_of_day(s: Seq<char>) -> bool {
    is_time_alone(s) && written_hour(s) <= 23 && written_minute(s) <= 59
}

/// What `s` stands for on a day on which the clocks of Brisbane show `today`.
///
/// A time alone is that time today, or an error if no clock shows it. Any other
/// text is read in the first accepted layout in which it can be read.
pub open spec fn parsed(s: Seq<char>, today: NaiveDateTime) -> Result<NaiveDateTime, ParseError> {
    if is_time_alone(s) {
        if is_time_of_day(s) {
            Ok(today.at_time(written_hour(s), written_minute(s)))
        } else {
            Err(ParseError::InvalidTime)
        }
    } else {
        match first_match(s, layouts(), 0) {
            Some(value) => Ok(value),
            None => Err(ParseError::UnrecognizedFormat),
        }
    }
}

/// Reads the hour and the minute of a text that is a time alone, whatever the
/// two numbers are.
pub fn read_time_alone(raw: &str) -> (r: Option<(u32, u32)>)
    ensures
        r == (if is_time_alone(raw@) {
            Some((written_hour(raw@) as u32, written_minute(raw@) as u32))
        } else {
            None
        }),
        r matches Some(time) ==> time.0 <= 99 && time.1 <= 99,
{
    if raw.unicode_len() != 5 {
        return None;
    }
    let text = chars_of(raw);
    let chars = text.as_slice();
    if chars[2] != ':' {
        return None;
    }
    match (read_two_digits(chars, 0), read_two_digits(chars, 3)) {
        (Some(hour), Some(minute)) => Some((hour, minute)),
        _ => None,
    }
}

/// Reads `raw` in the accepted layouts of a time followed by a date, in their
/// order, and returns the value of the first in which it can be read.
pub fn read_time_and_date(raw: &str) -> (r: Option<NaiveDateTime>)
    ensures
        r == first_match(raw@, layouts(), 0),
        r matches Some(value) ==> value.is_valid(),
{
    let list = accepted_layouts();
    let mut i: usize = 0;
    while i < list.len()
        invariant
            i <= list.len(),
            list@ == layouts(),
            first_match(raw@, layouts(), 0) == first_match(raw@, layouts(), i as int),
        decreases list.len() - i,
    {
        match list[i].match_text(raw) {
            Some(value) => {
                return Some(value);
            },
            None => {},
        }
        i = i + 1;
    }
    None
}

/// Reads `raw` on a day on which the clocks of Brisbane show `today`.
///
/// A time alone, such as `21:00`, is that time on the day of `today`. A time
/// followed by a date, such as `21:00 22-09-2025` or `21:00 22/09/25`, is that
/// time on that day, where a year from 0 to 99 stands for a year from 1969 to
/// 2068. A day that the calendar lacks is refused, never moved to another day.
pub fn parse_with_today(raw: &str, today: &NaiveDateTime) -> (r: Result<NaiveDateTime, ParseError>)
    ensures
        r == parsed(raw@, *today),
        today.is_valid() ==> (r matches Ok(value) ==> value.is_valid()),
{
    match read_time_alone(raw) {
        Some((hour, minute)) => {
            if hour <= 23 && minute <= 59 {
                Ok(today.on_same_day(hour, minute))
            } else {
                Err(ParseError::InvalidTime)
            }
        },
        None => match read_time_and_date(raw) {
            Some(value) => Ok(value),
            None => Err(ParseError::UnrecognizedFormat),
        },
    }
}

/// Reads `raw` at the instant at which UTC clocks show `now`.
///
/// The day of a time alone is the day that the clocks of Brisbane show at that
/// instant, whatever the time zone of the machine is.
pub fn parse_input(raw: &str, now: &NaiveDateTime) -> (r: Result<NaiveDateTime, ParseError>)
    requires
        now.is_valid(),
        now.is_inner(),
    ensures
        r == parsed(raw@, brisbane_clock_at(*now)),
        r matches Ok(value) ==> value.is_valid(),
{
    let today = brisbane_clock(now);
    parse_with_today(raw, &today)
}

/// A time of day alone is always read, as that time on the day of `today`.
pub proof fn lemma_time_alone_is_today(s: Seq<char>, today: NaiveDateTime)
    requires
        is_time_of_day(s),
    ensures
        parsed(s, today) matches Ok(value) && value.year == today.year && value.month
            == today.month && value.day == today.day && value.hour == written_hour(s)
            && value.minute == written_minute(s) && value.second == 0,
{
}

/// Only a time alone depends on the day on which it is read.
pub proof fn lemma_date_ignores_today(s: Seq<char>, a: NaiveDateTime, b: NaiveDateTime)
    requires
        !is_time_alone(s),
    ensures
        parsed(s, a) == parsed(s, b),
{
}

/// A year written with two digits is read as the year it stands for: the text
/// `short` with such a year and the text `long`, which writes the same time, day
/// and month and the mapped year in four digits, have the same value.
pub proof fn lemma_short_year_reads_like_long(
    short: Seq<char>,
    long: Seq<char>,
    today: NaiveDateTime,
    separator: char,
)
    requires
        separator == '-' || separator == '/',
        (Layout { separator, year_digits: 2 }).fits(short),
        (Layout { separator, year_digits: 4 }).fits(long),
        short.subrange(0, 12) == long.subrange(0, 12),
        four_digits_at(long, 12) == mapped_year(two_digits_at(short, 12)),
    ensures
        parsed(short, today) == parsed(long, today),
{
    reveal_with_fuel(first_match, 5);
    assert forall|i: int| 0 <= i < 12 implies short[i] == long[i] by {
        assert(short.subrange(0, 12)[i] == short[i]);
        assert(long.subrange(0, 12)[i] == long[i]);
    }
    let a = Layout { separator, year_digits: 2 };
    let b = Layout { separator, year_digits: 4 };
    assert(a.reading(short) == b.reading(long));
}

/// A text that is no time alone and writes a day that the calendar lacks in the
/// year it stands for is refused, in whichever layout it is written.
pub proof fn lemma_missing_day_is_refused(s: Seq<char>, today: NaiveDateTime, layout: Layout)
    requires
        layout.fits(s),
        !layout.reading(s).is_valid(),
    ensures
        parsed(s, today) == Err::<NaiveDateTime, ParseError>(ParseError::UnrecognizedFormat),
{
    reveal_with_fuel(first_match, 5);
}

/// What is read is what is written: the value of a text that is read in a layout
/// has the day, month, hour and minute of the text, and the year it stands for.
pub proof fn lemma_reading_is_faithful(s: Seq<char>, today: NaiveDateTime, layout: Layout)
    requires
        layout.fits(s),
        layout.reading(s).is_valid(),
        exists|i: int| 0 <= i < layouts().len() && layouts()[i] == layout,
    ensures
        parsed(s, today) == Ok::<NaiveDateTime, ParseError>(layout.reading(s)),
{
    reveal_with_fuel(first_match, 5);
}

} // verus!
