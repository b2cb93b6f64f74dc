//! Writing dates and times as text.

use crate::calendar::NaiveDateTime;
use chrono::{NaiveDate, TimeZone, Utc};
use vstd::prelude::*;
use vstd::string::*;

verus! {

/// The character of the digit `d`, from 0 to 9.
pub open spec fn digit_char(d: int) -> char {
    ('0' as int + d) as char
}

/// The last `width` decimal digits of `n`, with leading zeros where `n` has
/// fewer digits.
pub open spec fn digits_text(n: int, width: nat) -> Seq<char>
    decreases width,
{
    if width == 0 {
        Seq::<char>::empty()
    } else {
        digits_text(n / 10, (width - 1) as nat).push(digit_char(n % 10))
    }
}

/// The number of decimal digits of `n`, for `n` from 0 on.
pub open spec fn decimal_width(n: int) -> nat
    decreases n,
{
    if n < 10 {
        1
    } else {
        1 + decimal_width(n / 10)
    }
}

/// A year as text: four digits from 0 to 9999, and otherwise a sign followed by
/// the digits of the year, four at least.
pub open spec fn year_text(year: int) -> Seq<char> {
    if 0 <= year <= 9999 {
        digits_text(year, 4)
    } else if year > 9999 {
        seq!['+'] + digits_text(year, decimal_width(year))
    } else if year >= -9999 {
        seq!['-'] + digits_text(-year, 4)
    } else {
        seq!['-'] + digits_text(-year, decimal_width(-year))
    }
}

/// The date of `value` as text: year, month and day with dashes between them.
pub open spec fn date_text(value: NaiveDateTime) -> Seq<char> {
    year_text(value.year as int) + seq!['-'] + digits_text(value.month as int, 2) + seq!['-']
        + digits_text(value.day as int, 2)
}

/// The hour and the minute of `value` as text, with a colon between them.
pub open spec fn clock_text(value: NaiveDateTime) -> Seq<char> {
    digits_text(value.hour as int, 2) + seq![':'] + digits_text(value.minute as int, 2)
}

/// The UTC time `utc` as RFC 3339 writes it, such as `2025-09-22T11:00:00+00:00`.
pub open spec fn rfc3339_utc_text(utc: NaiveDateTime) -> Seq<char> {
    date_text(utc) + seq!['T'] + clock_text(utc) + seq![':'] + digits_text(utc.second as int, 2)
        + seq!['+', '0', '0', ':', '0', '0']
}

/// The wall-clock time `local` of a zone as a line of text, such as
/// `2025-09-22 21:00 AEST`: date, hour and minute, and the abbreviation of the
/// zone's time.
pub open spec fn local_line_text(local: NaiveDateTime, abbreviation: Seq<char>) -> Seq<char> {
    date_text(local) + seq![' '] + clock_text(local) + seq![' '] + abbreviation
}

/// The digit `d` as text.
fn digit_str(d: u32) -> (r: &'static str)
    requires
        d <= 9,
    ensures
        r@ == seq![digit_char(d as int)],
{
    proof {
        reveal_strlit("0");
        reveal_strlit("1");
        reveal_strlit("2");
        reveal_strlit("3");
        reveal_strlit("4");
        reveal_strlit("5");
        reveal_strlit("6");
        reveal_strlit("7");
        reveal_strlit("8");
        reveal_strlit("9");
    }
    let r = if d == 0 {
        "0"
    } else if d == 1 {
        "1"
    } else if d == 2 {
        "2"
    } else if d == 3 {
        "3"
    } else if d == 4 {
        "4"
    } else if d == 5 {
        "5"
    } else if d == 6 {
        "6"
    } else if d == 7 {
        "7"
    } else if d == 8 {
        "8"
    } else {
        "9"
    };
    assert(r@ =~= seq![digit_char(d as int)]);
    r
}

/// Appends the last `width` decimal digits of `n` to `out`.
pub fn push_digits(out: &mut String, n: u32, width: u32)
    ensures
        final(out)@ == old(out)@ + digits_text(n as int, width as nat),
    decreases width,
{
    if width > 0 {
        push_digits(out, n / 10, width - 1);
        out.append(digit_str(n % 10));
        assert(final(out)@ =~= old(out)@ + digits_text(n as int, width as nat));
    } else {
        assert(final(out)@ =~= old(out)@ + digits_text(n as int, width as nat));
    }
}

/// The number of decimal digits of `n`.
pub fn count_digits(n: u32) -> (r: u32)
    ensures
        r == decimal_width(n as int),
        1 <= r <= 10,
{
    proof {
        reveal_with_fuel(decimal_width, 11);
    }
    if n < 10 {
        1
    } else if n < 100 {
        2
    } else if n < 1_000 {
        3
    } else if n < 10_000 {
        4
    } else if n < 100_000 {
        5
    } else if n < 1_000_000 {
        6
    } else if n < 10_000_000 {
        7
    } else if n < 100_000_000 {
        8
    } else if n < 1_000_000_000 {
        9
    } else {
        10
    }
}

/// Appends a year to `out`.
pub fn push_year(out: &mut String, year: i32)
    ensures
        final(out)@ == old(out)@ + year_text(year as int),
{
    if 0 <= year && year <= 9999 {
        push_digits(out, year as u32, 4);
    } else if year > 9999 {
        proof {
            reveal_strlit("+");
        }
        out.append("+");
        push_digits(out, year as u32, count_digits(year as u32));
        assert(final(out)@ =~= old(out)@ + year_text(year as int));
    } else {
        proof {
            reveal_strlit("-");
        }
        let size = (-(year as i64)) as u32;
        out.append("-");
        if size <= 9999 {
            push_digits(out, size, 4);
        } else {
            push_digits(out, size, count_digits(size));
        }
        assert(final(out)@ =~= old(out)@ + year_text(year as int));
    }
}

/// Appends the date of `value` to `out`.
pub fn push_date(out: &mut String, value: &NaiveDateTime)
    ensures
        final(out)@ == old(out)@ + date_text(*value),
{
    proof {
        reveal_strlit("-");
    }
    push_year(out, value.year);
    out.append("-");
    push_digits(out, value.month, 2);
    out.append("-");
    push_digits(out, value.day, 2);
    assert(final(out)@ =~= old(out)@ + date_text(*value));
}

/// Appends the hour and the minute of `value` to `out`.
pub fn push_clock(out: &mut String, value: &NaiveDateTime)
    ensures
        final(out)@ == old(out)@ + clock_text(*value),
{
    proof {
        reveal_strlit(":");
    }
    push_digits(out, value.hour, 2);
    out.append(":");
    push_digits(out, value.minute, 2);
    assert(final(out)@ =~= old(out)@ + clock_text(*value));
}

/// Writes the wall-clock time `local` of a zone as a line of text: the date, the
/// hour and the minute, and the abbreviation of the zone's time.
pub fn local_line(local: &NaiveDateTime, abbreviation: &str) -> (r: String)
    ensures
        r@ == local_line_text(*local, abbreviation@),
{
    proof {
        reveal_strlit(" ");
    }
    let mut out = String::new();
    push_date(&mut out, local);
    out.append(" ");
    push_clock(&mut out, local);
    out.append(" ");
    out.append(abbreviation);
    assert(out@ =~= local_line_text(*local, abbreviation@));
    out
}

/// Calls `DateTime::to_rfc3339` of `chrono` on the instant at which UTC clocks show
/// `utc`.
///
/// Taken on trust: `chrono` writes the year with four digits from 0 to 9999 and
/// otherwise with a sign and four digits at least; month, day, hour, minute and
/// second with two digits each; no fraction for a whole second; and `+00:00` for
/// the offset of UTC.
#[verifier::external_body]
pub(crate) fn rfc3339_utc(utc: &NaiveDateTime) -> (r: String)
    requires
        utc.is_valid(),
    ensures
        r@ == rfc3339_utc_text(*utc),
{
    let date = NaiveDate::from_ymd_opt(utc.year, utc.month, utc.day).unwrap();
    let naive = date.and_hms_opt(utc.hour, utc.minute, utc.second).unwrap();
    Utc.from_utc_datetime(&naive).to_rfc3339()
}

} // verus!
