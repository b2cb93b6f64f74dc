//! The layouts in which a time followed by a date can be written.

use crate::calendar::NaiveDateTime;
use crate::text::{
    chars_of, four_digits_at, has_four_digits_at, has_two_digits_at, read_four_digits,
    read_two_digits, two_digits_at,
};
use crate::year::{fix_two_digit_year, lemma_mapping_keeps_dates, mapped_year};
use vstd::prelude::*;
use vstd::string::*;

verus! {

/// One way of writing a date after a time: `HH:MM dd?mm?y..`, where `?` is the
/// separator and the year has two or four digits.
#[derive(Clone, Copy, Debug, PartialEq, Eq, Structural)]
pub struct Layout {
    /// The character between day and month, and between month and year.
    pub separator: char,
    /// The number of digits of the year.
    pub year_digits: usize,
}

/// Whether `s` starts with a time of the shape `HH:MM`: two digits, a colon, two
/// digits. The numbers need not be those of a time of day.
pub open spec fn has_time_at_start(s: Seq<char>) -> bool {
    &&& s.len() >= 5
    &&& has_two_digits_at(s, 0)
    &&& s[2] == ':'
    &&& has_two_digits_at(s, 3)
}

/// The hour written at the start of `s`.
pub open spec fn written_hour(s: Seq<char>) -> int {
    two_digits_at(s, 0)
}

/// The minute written at the start of `s`.
pub open spec fn written_minute(s: Seq<char>) -> int {
    two_digits_at(s, 3)
}

/// The day written in `s`.
pub open spec fn written_day(s: Seq<char>) -> int {
    two_digits_at(s, 6)
}

/// The month written in `s`.
pub open spec fn written_month(s: Seq<char>) -> int {
    two_digits_at(s, 9)
}

impl Layout {
    /// Whether the year has two or four digits.
    pub open spec fn is_supported(self) -> bool {
        self.year_digits == 2 || self.year_digits == 4
    }

    /// Whether `s` has the shape of the layout: the right length, digits where
    /// numbers stand, and a colon, a space and the separators between them.
    pub open spec fn fits(self, s: Seq<char>) -> bool {
        &&& self.is_supported()
        &&& s.len() == 12 + self.year_digits
        &&& has_time_at_start(s)
        &&& s[5] == ' '
        &&& has_two_digits_at(s, 6)
        &&& s[8] == self.separator
        &&& has_two_digits_at(s, 9)
        &&& s[11] == self.separator
        &&& if self.year_digits == 4 {
            has_four_digits_at(s, 12)
        } else {
            has_two_digits_at(s, 12)
        }
    }

    /// The year as the digits of `s` give it, before two-digit years are mapped.
    pub open spec fn written_year(self, s: Seq<char>) -> int {
        if self.year_digits == 4 {
            four_digits_at(s, 12)
        } else {
            two_digits_at(s, 12)
        }
    }

    /// The date and time that `s` writes down in this layout, with a year from 0
    /// to 99 mapped to the year it stands for. Whether that day exists is another
    /// matter.
    pub open spec fn reading(self, s: Seq<char>) -> NaiveDateTime {
        NaiveDateTime {
            year: mapped_year(self.written_year(s)) as i32,
            month: written_month(s) as u32,
            day: written_day(s) as u32,
            hour: written_hour(s) as u32,
            minute: written_minute(s) as u32,
            second: 0,
        }
    }

    /// The value that `s` stands for in this layout: its reading, where `s` has
    /// the shape of the layout and the reading is a valid date and time.
    pub open spec fn parse(self, s: Seq<char>) -> Option<NaiveDateTime> {
        if self.fits(s) && self.reading(s).is_valid() {
            Some(self.reading(s))
        } else {
            None
        }
    }

    /// Reads `raw` in this layout.
    pub fn match_text(&self, raw: &str) -> (r: Option<NaiveDateTime>)
        ensures
            r == self.parse(raw@),
    {
        let digits = self.year_digits;
        if (digits != 2 && digits != 4) || raw.unicode_len() != 12 + digits {
            return None;
        }
        let text = chars_of(raw);
        let chars = text.as_slice();
        if chars[2] != ':' || chars[5] != ' ' || chars[8] != self.separator || chars[11]
            != self.separator {
            return None;
        }
        let year = if digits == 4 {
            read_four_digits(chars, 12)
        } else {
            read_two_digits(chars, 12)
        };
        match (
            read_two_digits(chars, 0),
            read_two_digits(chars, 3),
            read_two_digits(chars, 6),
            read_two_digits(chars, 9),
            year,
        ) {
            (Some(hour), Some(minute), Some(day), Some(month), Some(year)) => {
                proof {
                    lemma_mapping_keeps_dates(year as int, month as int, day as int);
                }
                match NaiveDateTime::new(year as i32, month, day, hour, minute, 0) {
                    Some(written) => Some(fix_two_digit_year(written)),
                    None => None,
                }
            },
            _ => None,
        }
    }
}

/// The layouts that are accepted, in the order in which they are tried: the date
/// with dashes and then with slashes, each with a four-digit year before the
/// two-digit year.
pub open spec fn layouts() -> Seq<Layout> {
    seq![
        Layout { separator: '-', year_digits: 4 },
        Layout { separator: '-', year_digits: 2 },
        Layout { separator: '/', year_digits: 4 },
        Layout { separator: '/', year_digits: 2 },
    ]
}

/// The accepted layouts, in the order in which they are tried.
pub fn accepted_layouts() -> (r: Vec<Layout>)
    ensures
        r@ == layouts(),
{
    let mut list: Vec<Layout> = Vec::new();
    list.push(Layout { separator: '-', year_digits: 4 });
    list.push(Layout { separator: '-', year_digits: 2 });
    list.push(Layout { separator: '/', year_digits: 4 });
    list.push(Layout { separator: '/', year_digits: 2 });
    list
}

/// The value of the first layout of `list`, from position `from` on, in which `s`
/// can be read.
pub open spec fn first_match(s: Seq<char>, list: Seq<Layout>, from: int) -> Option<NaiveDateTime>
    decreases list.len() - from,
{
    if 0 <= from < list.len() {
        match list[from].parse(s) {
            Some(value) => Some(value),
            None => first_match(s, list, from + 1),
        }
    } else {
        None
    }
}

/// A text has the shape of one layout at most: two layouts differ in the
/// separator, which stands at a fixed place, or in the length of the year, which
/// fixes the length of the text.
pub proof fn lemma_one_layout_fits(s: Seq<char>, a: Layout, b: Layout)
    requires
        a.fits(s),
        b.fits(s),
    ensures
        a == b,
{
}

/// The order of the layouts decides nothing: a text that can be read in one of
/// the accepted layouts is read as that layout reads it.
pub proof fn lemma_order_is_irrelevant(s: Seq<char>, i: int)
    requires
        0 <= i < layouts().len(),
        layouts()[i].parse(s) is Some,
    ensures
        first_match(s, layouts(), 0) == layouts()[i].parse(s),
{
    reveal_with_fuel(first_match, 5);
}

} // verus!
