//! Conversion of wall-clock times between Brisbane and UTC.
//!
//! The library reads a time of day, alone or followed by a date, turns it into a
//! calendar value and converts that value between the civil time of Brisbane and
//! UTC. Reading, the calendar and the writing of the results are verified; what
//! the time zone database says of Brisbane is taken from `chrono` and `chrono_tz`
//! and stated in the contracts of the module `zone`.

pub mod calendar;
pub mod cli;
pub mod convert;
pub mod layout;
pub mod parse;
pub mod render;
pub mod text;
pub mod year;
pub mod zone;

pub use crate::calendar::NaiveDateTime;
pub use crate::cli::{join_arguments, parse_choice, Failure, InvalidChoiceError, UsageError};
pub use crate::convert::{convert, ConversionError, ConversionResult, Direction};
pub use crate::parse::{parse_input, parse_with_today, ParseError};
pub use crate::year::{fix_two_digit_year, map_two_digit_year};
pub use crate::zone::ZoneResolution;
