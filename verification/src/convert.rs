//! Converting a wall-clock time between Brisbane and UTC.

use crate::calendar::NaiveDateTime;
use crate::render::{local_line, local_line_text, rfc3339_utc, rfc3339_utc_text};
use crate::zone::{
    brisbane_abbreviation, brisbane_abbreviation_at, brisbane_clock, brisbane_clock_at,
    brisbane_local_resolution, resolve_local, ZoneResolution,
};
use vstd::prelude::*;
use vstd::string::*;

verus! {

/// Which way a wall-clock time is converted.
#[derive(Clone, Copy, Debug, PartialEq, Eq, Structural)]
pub enum Direction {
    /// The time is one that the clocks of Brisbane show; its UTC time is wanted.
    LocalToUtc,
    /// The time is one that UTC clocks show; the time in Brisbane is wanted.
    UtcToLocal,
}

/// Why a wall-clock time of Brisbane has no UTC time.
#[derive(Clone, Copy, Debug, PartialEq, Eq, Structural)]
pub enum ConversionError {
    /// The clocks of Brisbane skipped the time.
    NonExistentLocalTime,
    /// The clocks of Brisbane showed the time twice; neither instant is chosen.
    AmbiguousLocalTime,
}

/// One instant, as UTC clocks and as the clocks of Brisbane show it.
#[derive(Debug, PartialEq, Eq)]
pub struct ConversionResult {
    /// What UTC clocks show.
    pub utc: NaiveDateTime,
    /// What the clocks of Brisbane show.
    pub local: NaiveDateTime,
    /// The abbreviation of the time kept in Brisbane at the instant.
    pub abbreviation: String,
    /// The direction of the conversion that gave the result.
    pub direction: Direction,
}

/// What a `ConversionResult` holds, as the contracts speak of it: the same four
/// parts, with the abbreviation as a sequence of characters.
pub struct Conversion {
    /// What UTC clocks show.
    pub utc: NaiveDateTime,
    /// What the clocks of Brisbane show.
    pub local: NaiveDateTime,
    /// The abbreviation of the time kept in Brisbane at the instant.
    pub abbreviation: Seq<char>,
    /// The direction of the conversion that gave the result.
    pub direction: Direction,
}

impl View for ConversionResult {
    type V = Conversion;

    open spec fn view(&self) -> Conversion {
        Conversion {
            utc: self.utc,
            local: self.local,
            abbreviation: self.abbreviation@,
            direction: self.direction,
        }
    }
}

/// The label before the UTC time.
pub open spec fn utc_label() -> Seq<char> {
    "UTC: "@
}

/// The label before the time in Brisbane.
pub open spec fn local_label() -> Seq<char> {
    "Brisbane: "@
}

impl Conversion {
    /// Whether both times are valid.
    pub open spec fn is_valid(self) -> bool {
        self.utc.is_valid() && self.local.is_valid()
    }

    /// Whether the two times are those of one instant: the local time is what
    /// the clocks of Brisbane show when UTC clocks show the UTC time.
    pub open spec fn is_one_instant(self) -> bool {
        self.local == brisbane_clock_at(self.utc)
    }

    /// The line of the UTC time: its label, and the time as RFC 3339 writes it.
    pub open spec fn utc_line(self) -> Seq<char> {
        utc_label() + rfc3339_utc_text(self.utc)
    }

    /// The line of the time in Brisbane: its label, the date, the hour and the
    /// minute, and the abbreviation.
    pub open spec fn local_line(self) -> Seq<char> {
        local_label() + local_line_text(self.local, self.abbreviation)
    }

    /// The two lines in the order in which they are printed: the line of UTC
    /// first after a conversion to UTC, the line of Brisbane first after a
    /// conversion from UTC.
    pub open spec fn lines(self) -> (Seq<char>, Seq<char>) {
        match self.direction {
            Direction::LocalToUtc => (self.utc_line(), self.local_line()),
            Direction::UtcToLocal => (self.local_line(), self.utc_line()),
        }
    }
}

/// What converting `ndt` in `direction` gives.
///
/// A time of Brisbane that was shown at one instant gives that instant, with the
/// given time as its local time; one that was skipped or shown twice gives the
/// error that says so. A UTC time always gives its instant.
pub open spec fn conversion(
    ndt: NaiveDateTime,
    direction: Direction,
) -> Result<Conversion, ConversionError> {
    match direction {
        Direction::LocalToUtc => match brisbane_local_resolution(ndt) {
            ZoneResolution::Single(utc) => Ok(
                Conversion {
                    utc,
                    local: ndt,
                    abbreviation: brisbane_abbreviation_at(utc),
                    direction,
                },
            ),
            ZoneResolution::NonExistent => Err(ConversionError::NonExistentLocalTime),
            ZoneResolution::Ambiguous => Err(ConversionError::AmbiguousLocalTime),
        },
        Direction::UtcToLocal => Ok(
            Conversion {
                utc: ndt,
                local: brisbane_clock_at(ndt),
                abbreviation: brisbane_abbreviation_at(ndt),
                direction,
            },
        ),
    }
}

/// Whether `outcome` is what converting `ndt` in `direction` gives, with two
/// valid times of one instant where it is a success.
pub open spec fn is_conversion(
    ndt: NaiveDateTime,
    direction: Direction,
    outcome: Result<Conversion, ConversionError>,
) -> bool {
    &&& outcome == conversion(ndt, direction)
    &&& outcome matches Ok(found) ==> found.is_valid() && found.is_one_instant()
}

/// The outcome of a conversion, with the view of its result.
pub open spec fn outcome_view(
    outcome: Result<ConversionResult, ConversionError>,
) -> Result<Conversion, ConversionError> {
    match outcome {
        Ok(found) => Ok(found@),
        Err(error) => Err(error),
    }
}

impl ConversionResult {
    /// The line of the UTC time.
    pub fn utc_text(&self) -> (r: String)
        requires
            self.utc.is_valid(),
        ensures
            r@ == self@.utc_line(),
    {
        let mut out = String::from_str("UTC: ");
        let time = rfc3339_utc(&self.utc);
        out.append(time.as_str());
        out
    }

    /// The line of the time in Brisbane.
    pub fn local_text(&self) -> (r: String)
        ensures
            r@ == self@.local_line(),
    {
        let mut out = String::from_str("Brisbane: ");
        let time = local_line(&self.local, self.abbreviation.as_str());
        out.append(time.as_str());
        out
    }

    /// The two lines in the order in which they are printed.
    pub fn output_lines(&self) -> (r: (String, String))
        requires
            self.utc.is_valid(),
        ensures
            (r.0@, r.1@) == self@.lines(),
    {
        match self.direction {
            Direction::LocalToUtc => (self.utc_text(), self.local_text()),
            Direction::UtcToLocal => (self.local_text(), self.utc_text()),
        }
    }
}

/// The UTC time of a wall-clock time that resolved to `resolution`, or the error
/// that says why it has none.
pub fn utc_of_resolution(resolution: ZoneResolution) -> (r: Result<NaiveDateTime, ConversionError>)
    ensures
        r == (match resolution {
            ZoneResolution::Single(utc) => Ok::<NaiveDateTime, ConversionError>(utc),
            ZoneResolution::NonExistent => Err(ConversionError::NonExistentLocalTime),
            ZoneResolution::Ambiguous => Err(ConversionError::AmbiguousLocalTime),
        }),
{
    match resolution {
        ZoneResolution::Single(utc) => Ok(utc),
        ZoneResolution::NonExistent => Err(ConversionError::NonExistentLocalTime),
        ZoneResolution::Ambiguous => Err(ConversionError::AmbiguousLocalTime),
    }
}

/// Converts `ndt` between the civil time of Brisbane and UTC.
///
/// In the direction `LocalToUtc`, `ndt` is a time that the clocks of Brisbane
/// show, and the result holds its UTC time; where Brisbane skipped the time or
/// showed it twice, the conversion fails. In the direction `UtcToLocal`, `ndt` is a
/// UTC time and the result holds what Brisbane shows then; this cannot fail, but
/// the time must lie a year inside the supported range to have a date there.
pub fn convert(
    ndt: NaiveDateTime,
    direction: Direction,
) -> (r: Result<ConversionResult, ConversionError>)
    requires
        ndt.is_valid(),
        direction == Direction::UtcToLocal ==> ndt.is_inner(),
    ensures
        is_conversion(ndt, direction, outcome_view(r)),
{
    match direction {
        Direction::LocalToUtc => {
            match utc_of_resolution(resolve_local(&ndt)) {
                Ok(utc) => {
                    let abbreviation = brisbane_abbreviation(&utc);
                    Ok(ConversionResult { utc, local: ndt, abbreviation, direction })
                },
                Err(error) => Err(error),
            }
        },
        Direction::UtcToLocal => {
            let local = brisbane_clock(&ndt);
            let abbreviation = brisbane_abbreviation(&ndt);
            Ok(ConversionResult { utc: ndt, local, abbreviation, direction })
        },
    }
}

/// Converting a time of Brisbane to UTC and the UTC time back gives the time of
/// Brisbane again: where `there` is what the first conversion gives and `back`
/// what the second gives on the UTC time of `there`, `back` holds the same two
/// times and the same abbreviation.
///
/// This holds of every time that has a UTC time, in the years of summer time and
/// of local mean time too. It rests on what the module `zone` takes on trust of
/// `chrono_tz`: that the instant found for a time of Brisbane shows that time.
pub proof fn lemma_round_trip(
    local: NaiveDateTime,
    there: Result<Conversion, ConversionError>,
    back: Result<Conversion, ConversionError>,
)
    requires
        is_conversion(local, Direction::LocalToUtc, there),
        there matches Ok(first) && is_conversion(first.utc, Direction::UtcToLocal, back),
    ensures
        there matches Ok(first) && back matches Ok(second) && second.local == local && second.utc
            == first.utc && second.abbreviation == first.abbreviation,
{
}

/// A conversion to UTC succeeds exactly where the time of Brisbane was shown at
/// one instant, and keeps the given time as the local time. A conversion from
/// UTC always succeeds, and keeps the given time as the UTC time.
pub proof fn lemma_conversion_keeps_its_input(ndt: NaiveDateTime, direction: Direction)
    ensures
        conversion(ndt, direction) is Ok <==> (direction == Direction::UtcToLocal
            || brisbane_local_resolution(ndt) is Single),
        conversion(ndt, direction) matches Ok(found) ==> found.direction == direction && (
        match direction {
            Direction::LocalToUtc => found.local == ndt,
            Direction::UtcToLocal => found.utc == ndt,
        }),
{
}

} // verus!
