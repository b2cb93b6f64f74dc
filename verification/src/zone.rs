//! The civil time of Brisbane, as the time zone database describes it.
//!
//! Nothing in this module is proved. Each function hands plain values to `chrono`
//! and `chrono_tz` and takes plain values back, and its contract says what those
//! crates return. What they return is given a name here, so that the rest of the
//! library can say exactly what it does with it.

use crate::calendar::NaiveDateTime;
use chrono::{Datelike, LocalResult, NaiveDate, TimeZone, Timelike, Utc};
use chrono_tz::Australia::Brisbane;
use vstd::prelude::*;

verus! {

/// What a wall-clock time of a zone corresponds to on the UTC time line.
#[derive(Clone, Copy, Debug, PartialEq, Eq, Structural)]
pub enum ZoneResolution {
    /// The wall-clock time was shown at exactly one instant, whose UTC time this is.
    Single(NaiveDateTime),
    /// The clocks skipped the wall-clock time: it was never shown.
    NonExistent,
    /// The clocks were set back over the wall-clock time: it was shown twice.
    Ambiguous,
}

/// What the wall-clock time `local` of Brisbane corresponds to: the outcome of
/// `TimeZone::from_local_datetime` for `chrono_tz::Australia::Brisbane`.
pub uninterp spec fn brisbane_local_resolution(local: NaiveDateTime) -> ZoneResolution;

/// What the clocks of Brisbane show at the instant at which UTC clocks show `utc`:
/// the local time after `DateTime::with_timezone` into
/// `chrono_tz::Australia::Brisbane`.
pub uninterp spec fn brisbane_clock_at(utc: NaiveDateTime) -> NaiveDateTime;

/// The abbreviation of the time kept in Brisbane at the instant at which UTC clocks
/// show `utc`: what `DateTime::format` writes there for `%Z`.
pub uninterp spec fn brisbane_abbreviation_at(utc: NaiveDateTime) -> Seq<char>;

/// Calls `TimeZone::from_local_datetime` for `chrono_tz::Australia::Brisbane` on
/// the wall-clock time `local`.
///
/// Taken on trust:
/// - the outcome depends on `local` alone;
/// - the instant of a single outcome is a valid UTC time, since `chrono` gives no
///   outcome where subtracting the offset leaves the years it can hold;
/// - at that instant the clocks of Brisbane show `local`. `chrono` subtracts from
///   `local` the offset of the span of local time in which `chrono_tz` found it.
///   In `chrono_tz` that span (`FixedTimespanSet::local_span`) is the span of UTC
///   time with the same index (`utc_span`) moved by that very offset, so the
///   instant lies in the span of UTC time with that offset, which is where
///   `offset_from_utc_datetime` finds it again.
#[verifier::external_body]
pub(crate) fn resolve_local(local: &NaiveDateTime) -> (r: ZoneResolution)
    requires
        local.is_valid(),
    ensures
        r == brisbane_local_resolution(*local),
        r matches ZoneResolution::Single(utc) ==> utc.is_valid() && brisbane_clock_at(utc)
            == *local,
{
    let date = NaiveDate::from_ymd_opt(local.year, local.month, local.day).unwrap();
    let naive = date.and_hms_opt(local.hour, local.minute, local.second).unwrap();
    match Brisbane.from_local_datetime(&naive) {
        LocalResult::Single(found) => {
            let u = found.naive_utc();
            ZoneResolution::Single(NaiveDateTime { year: u.year(), month: u.month(), day: u.day(),
                hour: u.hour(), minute: u.minute(), second: u.second() })
        },
        LocalResult::None => ZoneResolution::NonExistent,
        LocalResult::Ambiguous(_, _) => ZoneResolution::Ambiguous,
    }
}

/// Calls `DateTime::with_timezone` into `chrono_tz::Australia::Brisbane` on the
/// instant at which UTC clocks show `utc`, and reads the local time.
///
/// Taken on trust: the result depends on `utc` alone and is a valid time.
/// Reading the local time panics where it leaves the years that `chrono` can
/// hold. An offset is shorter than a day, so this cannot happen to a time that
/// lies a year inside them.
#[verifier::external_body]
pub(crate) fn brisbane_clock(utc: &NaiveDateTime) -> (r: NaiveDateTime)
    requires
        utc.is_valid(),
        utc.is_inner(),
    ensures
        r == brisbane_clock_at(*utc),
        r.is_valid(),
{
    let date = NaiveDate::from_ymd_opt(utc.year, utc.month, utc.day).unwrap();
    let naive = date.and_hms_opt(utc.hour, utc.minute, utc.second).unwrap();
    let l = Utc.from_utc_datetime(&naive).with_timezone(&Brisbane).naive_local();
    NaiveDateTime { year: l.year(), month: l.month(), day: l.day(),
        hour: l.hour(), minute: l.minute(), second: l.second() }
}

/// Calls `DateTime::format` with `%Z` on the instant at which UTC clocks show
/// `utc`, seen from `chrono_tz::Australia::Brisbane`.
///
/// Taken on trust: the text depends on `utc` alone.
#[verifier::external_body]
pub(crate) fn brisbane_abbreviation(utc: &NaiveDateTime) -> (r: String)
    requires
        utc.is_valid(),
    ensures
        r@ == brisbane_abbreviation_at(*utc),
{
    let date = NaiveDate::from_ymd_opt(utc.year, utc.month, utc.day).unwrap();
    let naive = date.and_hms_opt(utc.hour, utc.minute, utc.second).unwrap();
    Utc.from_utc_datetime(&naive).with_timezone(&Brisbane).format("%Z").to_string()
}

} // verus!
