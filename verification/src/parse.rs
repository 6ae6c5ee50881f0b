//! Dates from text of the form `YYYY-MM-DD`.

use crate::calendar::real_date;
use crate::calendar::CalendarDate;
use crate::calendar::Ymd;
use chrono::format::ParseErrorKind;
use chrono::Datelike;
use chrono::NaiveDate;
use vstd::prelude::*;
use vstd::string::StringExecFns;

verus! {

/// Why a text was not taken for a date.
#[derive(Clone, Copy, Debug, PartialEq, Eq, Structural)]
pub enum ParseFailure {
    /// A field is outside its permitted range, or the day does not exist.
    OutOfRange,
    /// No date matches the fields that were read.
    Impossible,
    /// The fields that were read do not determine a date.
    NotEnough,
    /// The text holds a character that the format does not allow at its place.
    Invalid,
    /// The text ends before the format does.
    TooShort,
    /// Text remains after the day.
    TooLong,
    /// The format itself was refused.
    BadFormat,
    /// A failure of a kind that has no name here.
    Other,
}

impl ParseFailure {
    /// One line that says what went wrong.
    pub open spec fn text(self) -> Seq<char> {
        match self {
            ParseFailure::OutOfRange => "input is out of range"@,
            ParseFailure::Impossible => "no possible date and time matching input"@,
            ParseFailure::NotEnough => "input is not enough for unique date and time"@,
            ParseFailure::Invalid => "input contains invalid characters"@,
            ParseFailure::TooShort => "premature end of input"@,
            ParseFailure::TooLong => "trailing input"@,
            ParseFailure::BadFormat => "bad or unsupported format string"@,
            ParseFailure::Other => "unknown parse failure"@,
        }
    }

    /// One line that says what went wrong.
    pub fn description(&self) -> (line: &'static str)
        ensures
            line@ == self.text(),
    {
        match self {
            ParseFailure::OutOfRange => "input is out of range",
            ParseFailure::Impossible => "no possible date and time matching input",
            ParseFailure::NotEnough => "input is not enough for unique date and time",
            ParseFailure::Invalid => "input contains invalid characters",
            ParseFailure::TooShort => "premature end of input",
            ParseFailure::TooLong => "trailing input",
            ParseFailure::BadFormat => "bad or unsupported format string",
            ParseFailure::Other => "unknown parse failure",
        }
    }
}

/// A text that is not a date, with the reason.
#[derive(Clone, Debug, PartialEq, Eq)]
pub struct DateParseError {
    /// The text as it was given.
    pub input: String,
    /// Why it was refused.
    pub cause: ParseFailure,
}

/// Year, month and day that `chrono` reads from `text` under the format
/// `%Y-%m-%d`, or the kind of its refusal.
pub uninterp spec fn ymd_fields(text: Seq<char>) -> Result<(i32, u32, u32), ParseFailure>;

/// Reads `text` as `%Y-%m-%d`.
///
/// Calls `chrono::NaiveDate::parse_from_str(text, "%Y-%m-%d")` and hands out
/// the year, month and day of the date it gives, or the kind of its error.
/// Taken on trust: the outcome depends on the text alone.
#[verifier::external_body]
fn read_ymd(text: &str) -> (fields: Result<(i32, u32, u32), ParseFailure>)
    ensures
        fields == ymd_fields(text@),
{
    match NaiveDate::parse_from_str(text, "%Y-%m-%d") {
        Ok(date) => Ok((date.year(), date.month(), date.day())),
        Err(error) => Err(match error.kind() {
            ParseErrorKind::OutOfRange => ParseFailure::OutOfRange,
            ParseErrorKind::Impossible => ParseFailure::Impossible,
            ParseErrorKind::NotEnough => ParseFailure::NotEnough,
            ParseErrorKind::Invalid => ParseFailure::Invalid,
            ParseErrorKind::TooShort => ParseFailure::TooShort,
            ParseErrorKind::TooLong => ParseFailure::TooLong,
            ParseErrorKind::BadFormat => ParseFailure::BadFormat,
            _ => ParseFailure::Other,
        }),
    }
}

/// The date that the fields read from a text stand for: the fields as a date
/// where they name a real one, `OutOfRange` where they name none, and a
/// refusal as it is.
pub open spec fn date_of_fields(fields: Result<(i32, u32, u32), ParseFailure>) -> Result<
    Ymd,
    ParseFailure,
> {
    match fields {
        Ok((year, month, day)) => {
            let date = Ymd { year: year as int, month: month as int, day: day as int };
            if real_date(date) {
                Ok(date)
            } else {
                Err(ParseFailure::OutOfRange)
            }
        },
        Err(failure) => Err(failure),
    }
}

/// Whether `outcome` is what reading `input` comes to, given the fields read
/// from it: the date, or an error that holds the input and the reason.
pub open spec fn reads_as(
    outcome: Result<CalendarDate, DateParseError>,
    input: Seq<char>,
    fields: Result<(i32, u32, u32), ParseFailure>,
) -> bool {
    match date_of_fields(fields) {
        Ok(date) => outcome is Ok && outcome->Ok_0@ == date,
        Err(failure) => outcome is Err && outcome->Err_0.input@ == input
            && outcome->Err_0.cause == failure,
    }
}

/// Turns the fields that were read from `input` into a date, or into an error
/// that keeps the input and the reason.
pub fn date_from_fields(input: &str, fields: Result<(i32, u32, u32), ParseFailure>) -> (outcome:
    Result<CalendarDate, DateParseError>)
    ensures
        reads_as(outcome, input@, fields),
{
    match fields {
        Ok((year, month, day)) => match CalendarDate::from_ymd_opt(year, month, day) {
            Some(date) => Ok(date),
            None => Err(
                DateParseError { input: String::from_str(input), cause: ParseFailure::OutOfRange },
            ),
        },
        Err(failure) => Err(DateParseError { input: String::from_str(input), cause: failure }),
    }
}

/// Reads a date written as `YYYY-MM-DD`.
pub fn parse_date(input: &str) -> (outcome: Result<CalendarDate, DateParseError>)
    ensures
        reads_as(outcome, input@, ymd_fields(input@)),
{
    date_from_fields(input, read_ymd(input))
}

/// The date to compute with: the one written in `argument`, or `today` where
/// no argument was given.
pub fn date_or_today(argument: Option<&str>, today: CalendarDate) -> (outcome: Result<
    CalendarDate,
    DateParseError,
>)
    ensures
        argument is None ==> outcome is Ok && outcome->Ok_0@ == today@,
        argument matches Some(input) ==> reads_as(outcome, input@, ymd_fields(input@)),
{
    match argument {
        None => Ok(today),
        Some(input) => parse_date(input),
    }
}

} // verus!
