//! Dates of the proleptic Gregorian calendar and their position within the year.

use vstd::prelude::*;

verus! {

/// A year, a month and a day of the month, as mathematical integers.
pub struct Ymd {
    pub year: int,
    pub month: int,
    pub day: int,
}

/// Whether `year` has a February 29.
pub open spec fn leap_year(year: int) -> bool {
    year % 4 == 0 && (year % 100 != 0 || year % 400 == 0)
}

/// Number of days of month `month` (1 to 12) in `year`; 0 for any other month.
pub open spec fn month_length(year: int, month: int) -> int {
    if month == 2 {
        if leap_year(year) {
            29
        } else {
            28
        }
    } else if month == 4 || month == 6 || month == 9 || month == 11 {
        30
    } else if 1 <= month <= 12 {
        31
    } else {
        0
    }
}

/// Number of days in `year`.
pub open spec fn year_length(year: int) -> int {
    if leap_year(year) {
        366
    } else {
        365
    }
}

/// Whether the triple names a day that exists in the calendar.
pub open spec fn real_date(date: Ymd) -> bool {
    1 <= date.month <= 12 && 1 <= date.day <= month_length(date.year, date.month)
}

/// Number of days of `year` that lie in the months before `month`.
pub open spec fn days_before_month(year: int, month: int) -> int
    decreases month,
{
    if month <= 1 {
        0
    } else {
        days_before_month(year, month - 1) + month_length(year, month - 1)
    }
}

/// Position of a date within its year, January 1 being day 1.
pub open spec fn ordinal_day(date: Ymd) -> int {
    days_before_month(date.year, date.month) + date.day
}

/// The months before each month of a given year add up to the familiar running totals.
pub proof fn lemma_days_before_month(year: int)
    ensures
        days_before_month(year, 1) == 0,
        days_before_month(year, 2) == 31,
        days_before_month(year, 3) == year_length(year) - 306,
        days_before_month(year, 4) == year_length(year) - 275,
        days_before_month(year, 5) == year_length(year) - 245,
        days_before_month(year, 6) == year_length(year) - 214,
        days_before_month(year, 7) == year_length(year) - 184,
        days_before_month(year, 8) == year_length(year) - 153,
        days_before_month(year, 9) == year_length(year) - 122,
        days_before_month(year, 10) == year_length(year) - 92,
        days_before_month(year, 11) == year_length(year) - 61,
        days_before_month(year, 12) == year_length(year) - 31,
        days_before_month(year, 13) == year_length(year),
{
    reveal_with_fuel(days_before_month, 14);
}

/// Every real date has a position between 1 and the length of its year.
pub proof fn lemma_ordinal_bounds(date: Ymd)
    requires
        real_date(date),
    ensures
        1 <= ordinal_day(date) <= year_length(date.year),
        date.month == 1 ==> ordinal_day(date) == date.day,
{
    lemma_days_before_month(date.year);
}

/// Whether `year` has a February 29.
pub fn is_leap_year(year: i32) -> (leap: bool)
    ensures
        leap == leap_year(year as int),
{
    year % 4 == 0 && (year % 100 != 0 || year % 400 == 0)
}

/// Number of days of month `month` in `year`; 0 when `month` is not 1 to 12.
pub fn days_in_month(year: i32, month: u32) -> (days: u32)
    ensures
        days == month_length(year as int, month as int),
{
    if month == 2 {
        if is_leap_year(year) {
            29
        } else {
            28
        }
    } else if month == 4 || month == 6 || month == 9 || month == 11 {
        30
    } else if 1 <= month && month <= 12 {
        31
    } else {
        0
    }
}

/// Number of days in `year`.
pub fn days_in_year(year: i32) -> (days: u32)
    ensures
        days == year_length(year as int),
{
    if is_leap_year(year) {
        366
    } else {
        365
    }
}

/// A day of the proleptic Gregorian calendar.
///
/// Every value names a day that exists: the month is 1 to 12 and the day is
/// within that month of that year. Any year that fits in an `i32` is accepted.
#[derive(Clone, Copy, Debug, PartialEq, Eq, Structural)]
pub struct CalendarDate {
    year: i32,
    month: u32,
    day: u32,
}

impl View for CalendarDate {
    type V = Ymd;

    closed spec fn view(&self) -> Ymd {
        Ymd { year: self.year as int, month: self.month as int, day: self.day as int }
    }
}

impl CalendarDate {
    /// Every date names a day that exists.
    #[verifier::type_invariant]
    pub open spec fn is_real(self) -> bool {
        real_date(self@)
    }

    /// The date `year`-`month`-`day`, or `None` when the calendar has no such day.
    pub fn from_ymd_opt(year: i32, month: u32, day: u32) -> (date: Option<CalendarDate>)
        ensures
            date is Some <==> real_date(Ymd { year: year as int, month: month as int, day: day as int }),
            date matches Some(d) ==> d@ == (Ymd { year: year as int, month: month as int, day: day as int }),
    {
        if 1 <= month && month <= 12 && 1 <= day && day <= days_in_month(year, month) {
            Some(CalendarDate { year, month, day })
        } else {
            None
        }
    }

    /// The year.
    pub fn year(&self) -> (year: i32)
        ensures
            year == self@.year,
    {
        self.year
    }

    /// The month, 1 to 12.
    pub fn month(&self) -> (month: u32)
        ensures
            month == self@.month,
            1 <= month <= 12,
    {
        proof {
            use_type_invariant(self);
        }
        self.month
    }

    /// The day of the month, starting at 1.
    pub fn day(&self) -> (day: u32)
        ensures
            day == self@.day,
            1 <= day <= month_length(self@.year, self@.month),
    {
        proof {
            use_type_invariant(self);
        }
        self.day
    }

    /// The position of the date within its year, January 1 being day 1.
    pub fn ordinal(&self) -> (ordinal: u32)
        ensures
            ordinal == ordinal_day(self@),
            1 <= ordinal <= year_length(self@.year),
    {
        proof {
            use_type_invariant(self);
            lemma_ordinal_bounds(self@);
            lemma_days_before_month(self@.year);
        }
        let mut total: u32 = self.day;
        let mut m: u32 = 1;
        while m < self.month
            invariant
                1 <= m <= self.month <= 12,
                total == days_before_month(self.year as int, m as int) + self.day,
                1 <= self.day <= 31,
                total <= 31 * m,
            decreases self.month - m,
        {
            total = total + days_in_month(self.year, m);
            m = m + 1;
        }
        total
    }
}

} // verus!
