//! The work-week number of a date.
//!
//! Week 1 of a year begins on its first Sunday, the anchor. A date on or after
//! the anchor is in week `(days since the anchor) / 7 + 1`. The days of January
//! before the anchor are in week 0.

use crate::calendar::lemma_ordinal_bounds;
use crate::calendar::ordinal_day;
use crate::calendar::real_date;
use crate::calendar::CalendarDate;
use crate::calendar::Ymd;
use crate::weekday::new_year_weekday;
use crate::weekday::weekday_of_new_year;
use crate::weekday::year_supported;
use crate::weekday::Weekday;
use vstd::prelude::*;

verus! {

/// January 1 of the date's year is a day that cannot be represented.
#[derive(Clone, Copy, Debug, PartialEq, Eq, Structural)]
pub struct InvalidDateError {
    /// The year whose January 1 was asked for.
    pub year: i32,
}

/// Position within the year of its first Sunday, given the day of the week of
/// January 1.
pub open spec fn anchor_ordinal(new_year: Weekday) -> int {
    1 + new_year.gap_to_sunday()
}

/// Week number of the day at position `ordinal` of a year that begins on
/// `new_year`.
pub open spec fn week_number(ordinal: int, new_year: Weekday) -> int {
    if ordinal < anchor_ordinal(new_year) {
        0
    } else {
        (ordinal - anchor_ordinal(new_year)) / 7 + 1
    }
}

/// The first Sunday of `year`, always a day of January.
pub open spec fn anchor_date(year: int) -> Ymd {
    Ymd { year, month: 1, day: anchor_ordinal(new_year_weekday(year)) }
}

/// Week number of a date, by the day of the week on which its year begins.
pub open spec fn work_week_of(date: Ymd) -> int {
    week_number(ordinal_day(date), new_year_weekday(date.year))
}

/// The first Sunday of a year is a day of the first seven, and is in week 1,
/// whatever the day of the week on which the year begins.
pub proof fn lemma_anchor_in_week_one(new_year: Weekday)
    ensures
        1 <= anchor_ordinal(new_year) <= 7,
        week_number(anchor_ordinal(new_year), new_year) == 1,
{
}

/// The anchor is a Sunday, and no day of the year before it is one.
pub proof fn lemma_anchor_is_first_sunday(new_year: Weekday)
    ensures
        new_year.index_on(anchor_ordinal(new_year)) == 0,
        forall|ordinal: int|
            1 <= ordinal < anchor_ordinal(new_year) ==> #[trigger] new_year.index_on(ordinal) != 0,
{
}

/// From one day of a year to the next the week number goes up by one when the
/// next day is a Sunday, and stays as it is otherwise.
pub proof fn lemma_week_advances_on_sunday(ordinal: int, new_year: Weekday)
    requires
        1 <= ordinal,
    ensures
        new_year.index_on(ordinal + 1) == 0 ==> week_number(ordinal + 1, new_year) == week_number(
            ordinal,
            new_year,
        ) + 1,
        new_year.index_on(ordinal + 1) != 0 ==> week_number(ordinal + 1, new_year) == week_number(
            ordinal,
            new_year,
        ),
{
}

/// For every year, the first Sunday is a real date of January, and its work
/// week is 1.
pub proof fn lemma_first_sunday_in_week_one(year: int)
    ensures
        real_date(anchor_date(year)),
        ordinal_day(anchor_date(year)) == anchor_ordinal(new_year_weekday(year)),
        work_week_of(anchor_date(year)) == 1,
{
    lemma_anchor_in_week_one(new_year_weekday(year));
    lemma_ordinal_bounds(anchor_date(year));
}

/// Of two dates of one year that lie seven days apart, the earlier being on or
/// after the first Sunday, the later is in the next work week.
pub proof fn lemma_seven_days_later_next_week(earlier: Ymd, later: Ymd)
    requires
        real_date(earlier),
        real_date(later),
        later.year == earlier.year,
        ordinal_day(later) == ordinal_day(earlier) + 7,
        ordinal_day(earlier) >= ordinal_day(anchor_date(earlier.year)),
    ensures
        work_week_of(later) == work_week_of(earlier) + 1,
{
    lemma_first_sunday_in_week_one(earlier.year);
}

/// In a year that begins on a Sunday the first Sunday is January 1, and
/// January 1 is in week 1.
pub proof fn lemma_year_beginning_on_sunday(year: int)
    ensures
        new_year_weekday(year) == Weekday::Sunday ==> {
            &&& anchor_date(year) == (Ymd { year, month: 1, day: 1 })
            &&& work_week_of(Ymd { year, month: 1, day: 1 }) == 1
        },
{
    lemma_ordinal_bounds(Ymd { year, month: 1, day: 1 });
}

/// A date before the first Sunday of its year is in week 0; every other date
/// is in a week from 1 to 53.
pub proof fn lemma_week_range(date: Ymd)
    requires
        real_date(date),
    ensures
        ordinal_day(date) < ordinal_day(anchor_date(date.year)) ==> work_week_of(date) == 0,
        ordinal_day(date) >= ordinal_day(anchor_date(date.year)) ==> 1 <= work_week_of(date) <= 53,
{
    lemma_first_sunday_in_week_one(date.year);
    lemma_ordinal_bounds(date);
}

/// Position within the year of its first Sunday: 1 when the year begins on a
/// Sunday, 7 when it begins on a Monday.
pub fn first_sunday_ordinal(new_year: Weekday) -> (ordinal: u32)
    ensures
        ordinal == anchor_ordinal(new_year),
        1 <= ordinal <= 7,
{
    1 + new_year.days_until_sunday()
}

/// Week number of the day at position `ordinal` of a year that begins on
/// `new_year`: 0 before the first Sunday, 1 for that Sunday and the six days
/// after it, and so on.
pub fn week_from_ordinal(ordinal: u32, new_year: Weekday) -> (week: u32)
    ensures
        week == week_number(ordinal as int, new_year),
{
    let anchor: u32 = first_sunday_ordinal(new_year);
    if ordinal < anchor {
        0
    } else {
        (ordinal - anchor) / 7 + 1
    }
}

/// The first Sunday of `year`, from which its weeks are counted.
///
/// Fails exactly when `year` is not supported.
pub fn first_sunday(year: i32) -> (anchor: Result<CalendarDate, InvalidDateError>)
    ensures
        year_supported(year as int) ==> anchor is Ok && anchor->Ok_0@ == anchor_date(year as int),
        anchor matches Ok(date) ==> work_week_of(date@) == 1,
        !year_supported(year as int) ==> anchor == Err::<CalendarDate, InvalidDateError>(
            InvalidDateError { year },
        ),
{
    proof {
        lemma_first_sunday_in_week_one(year as int);
    }
    match weekday_of_new_year(year) {
        None => Err(InvalidDateError { year }),
        Some(new_year) => {
            let day: u32 = first_sunday_ordinal(new_year);
            match CalendarDate::from_ymd_opt(year, 1, day) {
                Some(date) => Ok(date),
                None => Err(InvalidDateError { year }),
            }
        },
    }
}

/// The work week of `date`.
///
/// Fails exactly when the year of `date` is not supported. Otherwise the
/// result is 0 for a date before the first Sunday of its year, and at most 53.
pub fn calculate_work_week(date: CalendarDate) -> (week: Result<u32, InvalidDateError>)
    ensures
        year_supported(date@.year) ==> week is Ok && week->Ok_0 == work_week_of(date@),
        !year_supported(date@.year) ==> week == Err::<u32, InvalidDateError>(
            InvalidDateError { year: date@.year as i32 },
        ),
        week matches Ok(w) ==> w <= 53,
{
    let year: i32 = date.year();
    match weekday_of_new_year(year) {
        None => Err(InvalidDateError { year }),
        Some(new_year) => Ok(week_from_ordinal(date.ordinal(), new_year)),
    }
}

/// The work week depends on the date alone: two computations on the same date
/// give the same answer.
pub proof fn lemma_calculation_is_deterministic(
    date: CalendarDate,
    first: Result<u32, InvalidDateError>,
    second: Result<u32, InvalidDateError>,
)
    requires
        call_ensures(calculate_work_week, (date,), first),
        call_ensures(calculate_work_week, (date,), second),
    ensures
        first == second,
{
}

} // verus!
