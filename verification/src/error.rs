//! What can go wrong between a text and its work week.

use crate::parse::DateParseError;
use crate::week::InvalidDateError;
use vstd::prelude::*;
use vstd::string::StringExecFns;

verus! {

/// A failure, with the step that failed and the reason it gave.
#[derive(Clone, Debug, PartialEq, Eq)]
pub enum WorkWeekError {
    /// The text could not be read as a date.
    DateParse(DateParseError),
    /// The work week of the date could not be computed.
    Calculation(InvalidDateError),
}

impl WorkWeekError {
    /// The line that names the step that failed.
    pub open spec fn context_text(self) -> Seq<char> {
        match self {
            WorkWeekError::DateParse(error) => "Could not parse the date: "@ + error.input@,
            WorkWeekError::Calculation(_) => "Failed to calculate the work week"@,
        }
    }

    /// The line that gives the reason below the step.
    pub open spec fn cause_text(self) -> Seq<char> {
        match self {
            WorkWeekError::DateParse(error) => error.cause.text(),
            WorkWeekError::Calculation(_) => "Invalid start date"@,
        }
    }

    /// The line that names the step that failed; for a text that is no date it
    /// ends with the text as it was given.
    pub fn context(&self) -> (line: String)
        ensures
            line@ == self.context_text(),
    {
        match self {
            WorkWeekError::DateParse(error) => {
                String::from_str("Could not parse the date: ").concat(error.input.as_str())
            },
            WorkWeekError::Calculation(_) => String::from_str("Failed to calculate the work week"),
        }
    }

    /// The line that gives the reason below the step.
    pub fn cause(&self) -> (line: String)
        ensures
            line@ == self.cause_text(),
    {
        match self {
            WorkWeekError::DateParse(error) => String::from_str(error.cause.description()),
            WorkWeekError::Calculation(_) => String::from_str("Invalid start date"),
        }
    }
}

} // verus!
