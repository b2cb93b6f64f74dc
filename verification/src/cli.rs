//! What the command line decides: its arguments, the choice of a direction, and
//! how a failure is reported.

use crate::calendar::NaiveDateTime;
use crate::convert::{conversion, convert, ConversionError, Direction};
use crate::parse::{parse_input, parsed, ParseError};
use crate::text::chars_of;
use crate::zone::brisbane_clock_at;
use vstd::prelude::*;
use vstd::slice::slice_subrange;
use vstd::string::*;

verus! {

/// A wrong number of arguments.
#[derive(Clone, Copy, Debug, PartialEq, Eq, Structural)]
pub enum UsageError {
    /// No argument was given.
    MissingArguments,
    /// More than two arguments were given.
    TooManyArguments,
}

/// An answer to the menu that is neither `1` nor `2`.
#[derive(Clone, Copy, Debug, PartialEq, Eq, Structural)]
pub struct InvalidChoiceError;

/// Why a run ends without a result.
#[derive(Clone, Copy, Debug, PartialEq, Eq, Structural)]
pub enum Failure {
    /// The arguments were too few or too many.
    Usage(UsageError),
    /// The arguments are no time that can be read.
    Parse(ParseError),
    /// The time of Brisbane has no UTC time.
    Conversion(ConversionError),
    /// The answer to the menu names no direction.
    Choice(InvalidChoiceError),
}

/// Whether `c` is white space: what `char::is_whitespace` returns.
pub uninterp spec fn is_whitespace(c: char) -> bool;

/// `s` without the white space at its start.
pub open spec fn trim_start(s: Seq<char>) -> Seq<char>
    decreases s.len(),
{
    if s.len() > 0 && is_whitespace(s[0]) {
        trim_start(s.drop_first())
    } else {
        s
    }
}

/// `s` without the white space at its end.
pub open spec fn trim_end(s: Seq<char>) -> Seq<char>
    decreases s.len(),
{
    if s.len() > 0 && is_whitespace(s.last()) {
        trim_end(s.drop_last())
    } else {
        s
    }
}

/// `s` without the white space around it.
pub open spec fn trimmed(s: Seq<char>) -> Seq<char> {
    trim_end(trim_start(s))
}

/// The direction that `answer` names: `1` is the conversion to UTC and `2` the
/// conversion from UTC. Nothing else names a direction.
pub open spec fn named_direction(answer: Seq<char>) -> Result<Direction, InvalidChoiceError> {
    if answer == seq!['1'] {
        Ok(Direction::LocalToUtc)
    } else if answer == seq!['2'] {
        Ok(Direction::UtcToLocal)
    } else {
        Err(InvalidChoiceError)
    }
}

/// The direction that the line `s` typed at the menu names, whatever white
/// space stands around the answer.
pub open spec fn chosen(s: Seq<char>) -> Result<Direction, InvalidChoiceError> {
    named_direction(trimmed(s))
}

/// The text to read for the arguments `args`: the only argument, or the two with
/// a space between them.
pub open spec fn joined(args: Seq<String>) -> Result<Seq<char>, UsageError> {
    if args.len() == 0 {
        Err(UsageError::MissingArguments)
    } else if args.len() == 1 {
        Ok(args[0]@)
    } else if args.len() == 2 {
        Ok(args[0]@ + seq![' '] + args[1]@)
    } else {
        Err(UsageError::TooManyArguments)
    }
}

/// What a run is asked to convert: the value that the arguments `args` stand for
/// on a day on which the clocks of Brisbane show `today`, or the failure that
/// ends the run.
pub open spec fn requested(
    args: Seq<String>,
    today: NaiveDateTime,
) -> Result<NaiveDateTime, Failure> {
    match joined(args) {
        Err(error) => Err(Failure::Usage(error)),
        Ok(text) => match parsed(text, today) {
            Ok(value) => Ok(value),
            Err(error) => Err(Failure::Parse(error)),
        },
    }
}

/// What a run prints for `ndt` after the answer `answer` to the menu: the two
/// lines of the conversion in the direction that the answer names, or the
/// failure that ends the run.
pub open spec fn answered(
    ndt: NaiveDateTime,
    answer: Seq<char>,
) -> Result<(Seq<char>, Seq<char>), Failure> {
    match chosen(answer) {
        Err(error) => Err(Failure::Choice(error)),
        Ok(direction) => match conversion(ndt, direction) {
            Ok(found) => Ok(found.lines()),
            Err(error) => Err(Failure::Conversion(error)),
        },
    }
}

/// Calls `char::is_whitespace`.
///
/// Taken on trust: the answer depends on the character alone.
#[verifier::external_body]
fn is_white(c: char) -> (r: bool)
    ensures
        r == is_whitespace(c),
{
    c.is_whitespace()
}

/// The part of `chars` without the white space around it.
pub fn trim(chars: &[char]) -> (r: &[char])
    ensures
        r@ == trimmed(chars@),
{
    let n = chars.len();
    let mut start: usize = 0;
    assert(chars@.skip(0) =~= chars@);
    while start < n && is_white(chars[start])
        invariant
            start <= n == chars@.len(),
            trim_start(chars@) == trim_start(chars@.skip(start as int)),
        decreases n - start,
    {
        assert(chars@.skip(start as int).drop_first() =~= chars@.skip(start as int + 1));
        start = start + 1;
    }
    assert(trim_start(chars@) =~= chars@.subrange(start as int, n as int));
    let mut end: usize = n;
    while end > start && is_white(chars[end - 1])
        invariant
            start <= end <= n == chars@.len(),
            trimmed(chars@) == trim_end(chars@.subrange(start as int, end as int)),
        decreases end,
    {
        assert(chars@.subrange(start as int, end as int).drop_last() =~= chars@.subrange(
            start as int,
            end as int - 1,
        ));
        end = end - 1;
    }
    slice_subrange(chars, start, end)
}

/// Joins the arguments of the command line to the text that is read: one
/// argument is taken as it is, two are joined by a space.
pub fn join_arguments(args: &Vec<String>) -> (r: Result<String, UsageError>)
    ensures
        (match joined(args@) {
            Ok(text) => r matches Ok(s) && s@ == text,
            Err(error) => r == Err::<String, UsageError>(error),
        }),
{
    if args.len() == 0 {
        Err(UsageError::MissingArguments)
    } else if args.len() == 1 {
        Ok(args[0].clone())
    } else if args.len() == 2 {
        proof {
            reveal_strlit(" ");
        }
        let mut text = args[0].clone();
        text.append(" ");
        text.append(args[1].as_str());
        assert(text@ =~= args@[0]@ + seq![' '] + args@[1]@);
        Ok(text)
    } else {
        Err(UsageError::TooManyArguments)
    }
}

/// Reads an answer to the menu from which the white space around it has been
/// taken.
pub fn read_answer(answer: &[char]) -> (r: Result<Direction, InvalidChoiceError>)
    ensures
        r == named_direction(answer@),
{
    assert(seq!['1'].len() == 1 && seq!['1'][0] == '1');
    assert(seq!['2'].len() == 1 && seq!['2'][0] == '2');
    if answer.len() == 1 {
        let c = answer[0];
        if c == '1' {
            assert(answer@ =~= seq!['1']);
            return Ok(Direction::LocalToUtc);
        }
        if c == '2' {
            assert(answer@ =~= seq!['2']);
            return Ok(Direction::UtcToLocal);
        }
    }
    Err(InvalidChoiceError)
}

/// Reads the line typed at the menu.
pub fn parse_choice(line: &str) -> (r: Result<Direction, InvalidChoiceError>)
    ensures
        r == chosen(line@),
{
    let text = chars_of(line);
    read_answer(trim(text.as_slice()))
}

/// The first step of a run, at the instant at which UTC clocks show `now`: reads
/// the arguments of the command line.
///
/// A wrong number of arguments is reported before anything is read, and a text
/// that cannot be read before any question is asked.
pub fn read_request(args: &Vec<String>, now: &NaiveDateTime) -> (r: Result<NaiveDateTime, Failure>)
    requires
        now.is_valid(),
        now.is_inner(),
    ensures
        r == requested(args@, brisbane_clock_at(*now)),
        r matches Ok(value) ==> value.is_valid(),
{
    match join_arguments(args) {
        Err(error) => Err(Failure::Usage(error)),
        Ok(text) => match parse_input(text.as_str(), now) {
            Ok(value) => Ok(value),
            Err(error) => Err(Failure::Parse(error)),
        },
    }
}

/// The second step of a run: reads the answer to the menu and converts `ndt` in
/// the direction it names.
///
/// An answer that names no direction is reported before anything is converted.
pub fn answer_request(ndt: NaiveDateTime, answer: &str) -> (r: Result<(String, String), Failure>)
    requires
        ndt.is_valid(),
        ndt.is_inner(),
    ensures
        (match answered(ndt, answer@) {
            Ok(lines) => r matches Ok(text) && text.0@ == lines.0 && text.1@ == lines.1,
            Err(failure) => r == Err::<(String, String), Failure>(failure),
        }),
{
    match parse_choice(answer) {
        Err(error) => Err(Failure::Choice(error)),
        Ok(direction) => match convert(ndt, direction) {
            Ok(found) => Ok(found.output_lines()),
            Err(error) => Err(Failure::Conversion(error)),
        },
    }
}

impl Failure {
    /// The exit status of a run that ends with this failure.
    pub open spec fn status(self) -> int {
        match self {
            Failure::Usage(UsageError::MissingArguments) => 1,
            Failure::Usage(UsageError::TooManyArguments) => 2,
            Failure::Parse(_) => 3,
            Failure::Conversion(ConversionError::NonExistentLocalTime) => 4,
            Failure::Conversion(ConversionError::AmbiguousLocalTime) => 5,
            Failure::Choice(_) => 6,
        }
    }

    /// What the user is told about this failure.
    pub open spec fn message_text(self) -> Seq<char> {
        match self {
            Failure::Usage(UsageError::MissingArguments) =>
                "Usage: utc_time HH:MM\nUsage: utc_time HH:MM dd-mm-yy|YYYY"@,
            Failure::Usage(UsageError::TooManyArguments) =>
                "Too many arguments; pass either one quoted string or two separate args"@,
            Failure::Parse(error) => "Parse error: "@ + error.message_text(),
            Failure::Conversion(ConversionError::NonExistentLocalTime) =>
                "Non-existent local time in Brisbane (unexpected without DST)"@,
            Failure::Conversion(ConversionError::AmbiguousLocalTime) =>
                "Ambiguous local time in Brisbane (rare; no DST in Brisbane)"@,
            Failure::Choice(_) => "Invalid choice, expected '1' or '2'"@,
        }
    }

    /// What the user is told about this failure.
    pub fn message(&self) -> (r: String)
        ensures
            r@ == self.message_text(),
    {
        match self {
            Failure::Usage(UsageError::MissingArguments) => String::from_str(
                "Usage: utc_time HH:MM\nUsage: utc_time HH:MM dd-mm-yy|YYYY",
            ),
            Failure::Usage(UsageError::TooManyArguments) => String::from_str(
                "Too many arguments; pass either one quoted string or two separate args",
            ),
            Failure::Parse(error) => {
                let mut text = String::from_str("Parse error: ");
                text.append(error.message());
                text
            },
            Failure::Conversion(ConversionError::NonExistentLocalTime) => String::from_str(
                "Non-existent local time in Brisbane (unexpected without DST)",
            ),
            Failure::Conversion(ConversionError::AmbiguousLocalTime) => String::from_str(
                "Ambiguous local time in Brisbane (rare; no DST in Brisbane)",
            ),
            Failure::Choice(_) => String::from_str("Invalid choice, expected '1' or '2'"),
        }
    }

    /// The exit status of a run that ends with this failure.
    pub fn exit_code(&self) -> (r: i32)
        ensures
            r == self.status(),
    {
        match self {
            Failure::Usage(UsageError::MissingArguments) => 1,
            Failure::Usage(UsageError::TooManyArguments) => 2,
            Failure::Parse(_) => 3,
            Failure::Conversion(ConversionError::NonExistentLocalTime) => 4,
            Failure::Conversion(ConversionError::AmbiguousLocalTime) => 5,
            Failure::Choice(_) => 6,
        }
    }
}

/// No failure has the exit status 0 of a run that succeeds, and two failures
/// share an exit status only if they are of one kind.
pub proof fn lemma_statuses_tell_failures_apart(a: Failure, b: Failure)
    ensures
        1 <= a.status() <= 6,
        a.status() == b.status() ==> a == b || (a is Parse && b is Parse),
{
}

} // verus!
