//! Work-week numbers for calendar dates.
//!
//! Week 1 of a year begins on the first Sunday on or after January 1. The days
//! of January that precede that Sunday belong to week 0.
//!
//! - `calendar`: dates and their position within the year.
//! - `weekday`: days of the week, and the day on which a year begins.
//! - `week`: the work week of a date.
//! - `parse`: dates from text of the form `YYYY-MM-DD`.
//! - `error`: the failures, with the lines that describe them.
//! - `label`: the work week as it is shown, `WW` and the number.

pub mod calendar;
pub mod error;
pub mod label;
pub mod parse;
pub mod week;
pub mod weekday;
