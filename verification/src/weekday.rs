//! Days of the week, and the day on which a year begins.

use chrono::Datelike;
use chrono::NaiveDate;
use vstd::prelude::*;

verus! {

/// First year for which the day of the week of January 1 can be had.
pub const MIN_YEAR: i32 = -262143;

/// Last year for which the day of the week of January 1 can be had.
pub const MAX_YEAR: i32 = 262142;

/// A day of the week.
#[derive(Clone, Copy, Debug, PartialEq, Eq, Structural)]
pub enum Weekday {
    Sunday,
    Monday,
    Tuesday,
    Wednesday,
    Thursday,
    Friday,
    Saturday,
}

impl Weekday {
    /// Number of days since the last Sunday: 0 for Sunday, 6 for Saturday.
    pub open spec fn index_from_sunday(self) -> int {
        match self {
            Weekday::Sunday => 0,
            Weekday::Monday => 1,
            Weekday::Tuesday => 2,
            Weekday::Wednesday => 3,
            Weekday::Thursday => 4,
            Weekday::Friday => 5,
            Weekday::Saturday => 6,
        }
    }

    /// Number of days from this day to the first Sunday that is not before it.
    pub open spec fn gap_to_sunday(self) -> int {
        (7 - self.index_from_sunday()) % 7
    }

    /// The same number for the day at position `ordinal` of a year that begins
    /// on this day, January 1 being position 1.
    pub open spec fn index_on(self, ordinal: int) -> int {
        (self.index_from_sunday() + ordinal - 1) % 7
    }

    /// Number of days since the last Sunday: 0 for Sunday, 6 for Saturday.
    pub fn num_days_from_sunday(self) -> (index: u32)
        ensures
            index == self.index_from_sunday(),
    {
        match self {
            Weekday::Sunday => 0,
            Weekday::Monday => 1,
            Weekday::Tuesday => 2,
            Weekday::Wednesday => 3,
            Weekday::Thursday => 4,
            Weekday::Friday => 5,
            Weekday::Saturday => 6,
        }
    }

    /// Number of days from this day to the first Sunday that is not before it:
    /// 0 for a Sunday, 6 for a Monday, 1 for a Saturday.
    pub fn days_until_sunday(self) -> (gap: u32)
        ensures
            gap == self.gap_to_sunday(),
            gap < 7,
            gap == 0 <==> self == Weekday::Sunday,
    {
        (7 - self.num_days_from_sunday()) % 7
    }
}

/// Whether January 1 of `year` is a day that `chrono::NaiveDate` can hold.
pub open spec fn year_supported(year: int) -> bool {
    MIN_YEAR <= year <= MAX_YEAR
}

/// The day of the week of January 1 of `year` in the proleptic Gregorian
/// calendar, as `chrono` computes it. Nothing is stated of it for a year that
/// is not supported.
pub uninterp spec fn new_year_weekday(year: int) -> Weekday;

/// The day of the week on which `year` begins.
///
/// Calls `chrono::NaiveDate::from_ymd_opt(year, 1, 1)` and, on the date it
/// gives, `chrono::Datelike::weekday`. Taken on trust: `from_ymd_opt` gives a
/// date for January 1 exactly when the year lies between `MIN_YEAR` and
/// `MAX_YEAR`, and the weekday depends on the year alone.
#[verifier::external_body]
pub(crate) fn weekday_of_new_year(year: i32) -> (day: Option<Weekday>)
    ensures
        day is Some <==> year_supported(year as int),
        day matches Some(w) ==> w == new_year_weekday(year as int),
{
    match NaiveDate::from_ymd_opt(year, 1, 1) {
        None => None,
        Some(first) => Some(match first.weekday() {
            chrono::Weekday::Sun => Weekday::Sunday,
            chrono::Weekday::Mon => Weekday::Monday,
            chrono::Weekday::Tue => Weekday::Tuesday,
            chrono::Weekday::Wed => Weekday::Wednesday,
            chrono::Weekday::Thu => Weekday::Thursday,
            chrono::Weekday::Fri => Weekday::Friday,
            chrono::Weekday::Sat => Weekday::Saturday,
        }),
    }
}

} // verus!
