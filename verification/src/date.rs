//! Calendar dates. A [`Date`] is always a day that exists in the proleptic
//! Gregorian calendar; reading a date out of text and writing it back in ISO
//! form are done by `chrono`.

use crate::text::padded;
use chrono::{Datelike, NaiveDate};
use vstd::prelude::*;

verus! {

/// The earliest year a [`Date`] can lie in.
pub const MIN_YEAR: i32 = -262143;

/// The latest year a [`Date`] can lie in.
pub const MAX_YEAR: i32 = 262142;

/// Whether `year` has a 29th of February.
pub open spec fn is_leap_year(year: int) -> bool {
    year % 4 == 0 && (year % 100 != 0 || year % 400 == 0)
}

/// The number of days of `month` in `year`; 0 where there is no such month.
pub open spec fn days_in_month(year: int, month: int) -> int {
    if month == 2 {
        if is_leap_year(year) {
            29
        } else {
            28
        }
    } else if month == 4 || month == 6 || month == 9 || month == 11 {
        30
    } else if 1 <= month <= 12 {
        31
    } else {
        0
    }
}

/// Whether the day exists and its year is one a [`Date`] can lie in.
pub open spec fn is_calendar_date(year: int, month: int, day: int) -> bool {
    &&& MIN_YEAR <= year <= MAX_YEAR
    &&& 1 <= month <= 12
    &&& 1 <= day <= days_in_month(year, month)
}

/// The year, month and day that `NaiveDate::from_str` reads out of `text`,
/// or `None` where it rejects the text.
pub uninterp spec fn date_fields(text: Seq<char>) -> Option<(int, int, int)>;

/// The calendar date written in `text`, if it holds one.
pub open spec fn date_of(text: Seq<char>) -> Option<(int, int, int)> {
    match date_fields(text) {
        Some((year, month, day)) => if is_calendar_date(year, month, day) {
            Some((year, month, day))
        } else {
            None
        },
        None => None,
    }
}

/// A year as ISO 8601 writes it: four digits, and a sign in front of at
/// least four digits outside 0..=9999.
pub open spec fn year_text(year: int) -> Seq<char> {
    if 0 <= year <= 9999 {
        padded(year as nat, 4)
    } else if year < 0 {
        seq!['-'] + padded((-year) as nat, 4)
    } else {
        seq!['+'] + padded(year as nat, 4)
    }
}

/// A date in ISO form, `YYYY-MM-DD`.
pub open spec fn iso_text(year: int, month: int, day: int) -> Seq<char> {
    year_text(year) + seq!['-'] + padded(month as nat, 2) + seq!['-'] + padded(day as nat, 2)
}

/// Calls `NaiveDate::from_str` and takes the year, month and day of the date
/// it read. Trusted: they are the ones that [`date_fields`] names, and `None`
/// comes back exactly where the text was rejected.
#[verifier::external_body]
pub(crate) fn read_fields(text: &str) -> (fields: Option<(i32, u32, u32)>)
    ensures
        match fields {
            Some((year, month, day)) => date_fields(text@) == Some(
                (year as int, month as int, day as int),
            ),
            None => date_fields(text@) is None,
        },
{
    text.parse::<NaiveDate>().ok().map(|date| (date.year(), date.month(), date.day()))
}

/// Builds the day with `NaiveDate::from_ymd_opt` and calls its `to_string`.
/// Trusted: a day that exists is built, and is written as [`iso_text`] says:
/// the year in four digits, or with a sign outside 0..=9999, then month and
/// day in two digits each, hyphens between.
#[verifier::external_body]
pub(crate) fn write_iso(year: i32, month: u32, day: u32) -> (text: String)
    requires
        is_calendar_date(year as int, month as int, day as int),
    ensures
        text@ == iso_text(year as int, month as int, day as int),
{
    NaiveDate::from_ymd_opt(year, month, day).unwrap().to_string()
}

/// A day of the proleptic Gregorian calendar.
#[derive(Clone, Copy, Debug, PartialEq, Eq, Structural)]
pub struct Date {
    year: i32,
    month: u32,
    day: u32,
}

impl View for Date {
    type V = (int, int, int);

    closed spec fn view(&self) -> (int, int, int) {
        (self.year as int, self.month as int, self.day as int)
    }
}

impl Date {
    #[verifier::type_invariant]
    spec fn on_calendar(self) -> bool {
        is_calendar_date(self.year as int, self.month as int, self.day as int)
    }

    /// The date with the given year, month and day, where that day exists.
    pub fn from_ymd(year: i32, month: u32, day: u32) -> (date: Option<Date>)
        ensures
            date is Some <==> is_calendar_date(year as int, month as int, day as int),
            date matches Some(d) ==> d@ == (year as int, month as int, day as int),
    {
        if year < MIN_YEAR || year > MAX_YEAR || month < 1 || month > 12 || day < 1 {
            return None;
        }
        let leap = year % 4 == 0 && (year % 100 != 0 || year % 400 == 0);
        let days: u32 = if month == 2 {
            if leap {
                29
            } else {
                28
            }
        } else if month == 4 || month == 6 || month == 9 || month == 11 {
            30
        } else {
            31
        };
        if day > days {
            None
        } else {
            Some(Date { year, month, day })
        }
    }

    /// The date written in `text`, where `text` holds a day that exists.
    pub fn parse(text: &str) -> (date: Option<Date>)
        ensures
            match date {
                Some(d) => date_of(text@) == Some(d@),
                None => date_of(text@) is None,
            },
    {
        match read_fields(text) {
            Some((year, month, day)) => Date::from_ymd(year, month, day),
            None => None,
        }
    }

    /// The year; 0 is the year before year 1.
    pub fn year(&self) -> (year: i32)
        ensures
            year == self@.0,
    {
        self.year
    }

    /// The month of the year, counted from 1.
    pub fn month(&self) -> (month: u32)
        ensures
            month == self@.1,
    {
        self.month
    }

    /// The day of the month, counted from 1.
    pub fn day(&self) -> (day: u32)
        ensures
            day == self@.2,
    {
        self.day
    }

    /// The date in ISO form, `YYYY-MM-DD`.
    pub fn to_iso(&self) -> (text: String)
        ensures
            text@ == iso_text(self@.0, self@.1, self@.2),
    {
        proof {
            use_type_invariant(self);
        }
        write_iso(self.year, self.month, self.day)
    }
}

} // verus!
