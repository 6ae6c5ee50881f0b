//! The work week as it is shown: `WW` and the number.

use crate::calendar::CalendarDate;
use crate::error::WorkWeekError;
use crate::parse::date_of_fields;
use crate::parse::parse_date;
use crate::parse::ymd_fields;
use crate::week::calculate_work_week;
use crate::week::work_week_of;
use crate::week::InvalidDateError;
use crate::weekday::year_supported;
use vstd::prelude::*;
use vstd::string::StringExecFns;

verus! {

/// The character for a digit from 0 to 9.
pub open spec fn digit_char(digit: nat) -> char {
    if digit == 0 {
        '0'
    } else if digit == 1 {
        '1'
    } else if digit == 2 {
        '2'
    } else if digit == 3 {
        '3'
    } else if digit == 4 {
        '4'
    } else if digit == 5 {
        '5'
    } else if digit == 6 {
        '6'
    } else if digit == 7 {
        '7'
    } else if digit == 8 {
        '8'
    } else {
        '9'
    }
}

/// A number in decimal digits, without leading zeros.
pub open spec fn decimal_digits(n: nat) -> Seq<char>
    decreases n,
{
    if n < 10 {
        seq![digit_char(n)]
    } else {
        decimal_digits(n / 10).push(digit_char(n % 10))
    }
}

/// A work week as it is shown.
pub open spec fn week_label(week: nat) -> Seq<char> {
    seq!['W', 'W'] + decimal_digits(week)
}

fn digit_text(digit: u32) -> (text: &'static str)
    requires
        digit < 10,
    ensures
        text@ == seq![digit_char(digit as nat)],
{
    proof {
        reveal_strlit("0");
        reveal_strlit("1");
        reveal_strlit("2");
        reveal_strlit("3");
        reveal_strlit("4");
        reveal_strlit("5");
        reveal_strlit("6");
        reveal_strlit("7");
        reveal_strlit("8");
        reveal_strlit("9");
    }
    let text = if digit == 0 {
        "0"
    } else if digit == 1 {
        "1"
    } else if digit == 2 {
        "2"
    } else if digit == 3 {
        "3"
    } else if digit == 4 {
        "4"
    } else if digit == 5 {
        "5"
    } else if digit == 6 {
        "6"
    } else if digit == 7 {
        "7"
    } else if digit == 8 {
        "8"
    } else {
        "9"
    };
    assert(text@ =~= seq![digit_char(digit as nat)]);
    text
}

/// `n` in decimal digits, without leading zeros.
pub fn decimal_text(n: u32) -> (text: String)
    ensures
        text@ == decimal_digits(n as nat),
{
    let mut text = String::from_str(digit_text(n % 10));
    let mut rest: u32 = n / 10;
    while rest > 0
        invariant
            rest > 0 ==> decimal_digits(n as nat) =~= decimal_digits(rest as nat) + text@,
            rest == 0 ==> decimal_digits(n as nat) =~= text@,
        decreases rest,
    {
        text = String::from_str(digit_text(rest % 10)).concat(text.as_str());
        rest = rest / 10;
    }
    text
}

/// The work week as it is shown: `WW3` for week 3.
pub fn format_work_week(week: u32) -> (label: String)
    ensures
        label@ == week_label(week as nat),
{
    proof {
        reveal_strlit("WW");
    }
    let digits = decimal_text(week);
    let label = String::from_str("WW").concat(digits.as_str());
    assert(label@ =~= week_label(week as nat));
    label
}

/// Whether `outcome` is what a date comes to: its label, or the failure of
/// the calculation for a year that is not supported.
pub open spec fn labels_date(outcome: Result<String, WorkWeekError>, date: CalendarDate) -> bool {
    if year_supported(date@.year) {
        outcome is Ok && outcome->Ok_0@ == week_label(work_week_of(date@) as nat)
    } else {
        outcome == Err::<String, WorkWeekError>(
            WorkWeekError::Calculation(InvalidDateError { year: date@.year as i32 }),
        )
    }
}

/// The label of the work week of `date`.
pub fn label_of_date(date: CalendarDate) -> (outcome: Result<String, WorkWeekError>)
    ensures
        labels_date(outcome, date),
{
    match calculate_work_week(date) {
        Ok(week) => Ok(format_work_week(week)),
        Err(error) => Err(WorkWeekError::Calculation(error)),
    }
}

/// From a date written as `YYYY-MM-DD` to the label of its work week.
///
/// A text that is no date gives `DateParse` with the text and the reason; a
/// date whose year is not supported gives `Calculation`.
pub fn work_week_label(input: &str) -> (outcome: Result<String, WorkWeekError>)
    ensures
        match date_of_fields(ymd_fields(input@)) {
            Ok(date) => if year_supported(date.year) {
                outcome is Ok && outcome->Ok_0@ == week_label(work_week_of(date) as nat)
            } else {
                outcome == Err::<String, WorkWeekError>(
                    WorkWeekError::Calculation(InvalidDateError { year: date.year as i32 }),
                )
            },
            Err(failure) => {
                &&& outcome matches Err(WorkWeekError::DateParse(error))
                &&& error.input@ == input@
                &&& error.cause == failure
            },
        },
{
    match parse_date(input) {
        Ok(date) => label_of_date(date),
        Err(error) => Err(WorkWeekError::DateParse(error)),
    }
}

} // verus!
