//! Calendar days as day numbers.
//!
//! A day is held as its number in the proleptic Gregorian calendar, counted
//! so that 1 January of year 1 is day 1. Two days are then a whole number of
//! days apart, which is all that the streak rules read of them. Telling which
//! number a year, month and day have, and reading or writing a day as text,
//! is left to `chrono`.

use vstd::prelude::*;

verus! {

/// The number of the day `year`-`month`-`day` as `chrono` counts it, or
/// `None` where `chrono` has no such day.
pub uninterp spec fn calendar_day_number(year: i32, month: u32, day: u32) -> Option<i32>;

/// The number of the day that `chrono` reads from `text` in the form
/// `%Y-%m-%d`, or `None` where it rejects the text.
pub uninterp spec fn parsed_day_number(text: Seq<char>) -> Option<i32>;

/// The text that `chrono` writes for day `days_from_ce` in the form
/// `%Y-%m-%d`, or `None` where the number lies outside its calendar.
pub uninterp spec fn iso_date_text(days_from_ce: i32) -> Option<Seq<char>>;

/// Trusted: `chrono::NaiveDate::from_ymd_opt`, with the date handed back as
/// its `Datelike::num_days_from_ce`. The result depends on the three numbers
/// alone; `calendar_day_number` is the name for it.
#[verifier::external_body]
fn day_number_of_ymd(year: i32, month: u32, day: u32) -> (number: Option<i32>)
    ensures
        number == calendar_day_number(year, month, day),
{
    chrono::NaiveDate::from_ymd_opt(year, month, day).map(
        |date| chrono::Datelike::num_days_from_ce(&date),
    )
}

/// Trusted: `chrono::NaiveDate::parse_from_str` with the format `%Y-%m-%d`,
/// a parse error read as `None` and the date handed back as its
/// `Datelike::num_days_from_ce`. The result depends on the text alone;
/// `parsed_day_number` is the name for it.
#[verifier::external_body]
fn day_number_of_text(text: &str) -> (number: Option<i32>)
    ensures
        number == parsed_day_number(text@),
{
    chrono::NaiveDate::parse_from_str(text, "%Y-%m-%d").ok().map(
        |date| chrono::Datelike::num_days_from_ce(&date),
    )
}

/// Trusted: `chrono::NaiveDate::from_num_days_from_ce_opt`, then
/// `NaiveDate::format` with the format `%Y-%m-%d`, written out as a string.
/// The result depends on the number alone; `iso_date_text` is the name for it.
#[verifier::external_body]
fn text_of_day_number(days_from_ce: i32) -> (text: Option<String>)
    ensures
        match text {
            Some(t) => iso_date_text(days_from_ce) == Some(t@),
            None => iso_date_text(days_from_ce) is None,
        },
{
    chrono::NaiveDate::from_num_days_from_ce_opt(days_from_ce).map(
        |date| date.format("%Y-%m-%d").to_string(),
    )
}

/// A calendar day.
#[derive(Debug, Clone, Copy, PartialEq, Eq, Structural)]
pub struct Date {
    /// The day's number; 1 January of year 1 is day 1.
    pub days_from_ce: i32,
}

impl Date {
    /// The day with the given number, if there is a number.
    pub open spec fn of_day_number(number: Option<i32>) -> Option<Date> {
        match number {
            Some(n) => Some(Date { days_from_ce: n }),
            None => None,
        }
    }

    /// How many days `self` lies after `earlier`; negative where it lies
    /// before.
    pub open spec fn days_after(self, earlier: Date) -> int {
        self.days_from_ce - earlier.days_from_ce
    }

    /// The day `year`-`month`-`day`, or `None` if `chrono`'s calendar has
    /// no such day.
    pub fn from_ymd_opt(year: i32, month: u32, day: u32) -> (date: Option<Date>)
        ensures
            date == Date::of_day_number(calendar_day_number(year, month, day)),
    {
        match day_number_of_ymd(year, month, day) {
            Some(n) => Some(Date { days_from_ce: n }),
            None => None,
        }
    }

    /// Reads a day from text in `chrono`'s form `%Y-%m-%d`, such as
    /// `2026-02-19`; `None` for text that `chrono` does not read as a day.
    pub fn parse_iso(text: &str) -> (date: Option<Date>)
        ensures
            date == Date::of_day_number(parsed_day_number(text@)),
    {
        match day_number_of_text(text) {
            Some(n) => Some(Date { days_from_ce: n }),
            None => None,
        }
    }

    /// Writes the day in `chrono`'s form `%Y-%m-%d`, such as `2026-02-19`;
    /// `None` if `chrono`'s calendar does not reach this day.
    pub fn format_iso(&self) -> (text: Option<String>)
        ensures
            match text {
                Some(t) => iso_date_text(self.days_from_ce) == Some(t@),
                None => iso_date_text(self.days_from_ce) is None,
            },
    {
        text_of_day_number(self.days_from_ce)
    }

    /// The whole days from `earlier` to `self`.
    pub fn days_since(&self, earlier: &Date) -> (days: i64)
        ensures
            days == self.days_after(*earlier),
    {
        let later_number: i64 = self.days_from_ce as i64;
        let earlier_number: i64 = earlier.days_from_ce as i64;
        later_number - earlier_number
    }
}

} // verus!
