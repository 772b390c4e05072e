use vstd::prelude::*;
use vstd::string::*;

use crate::text::{decimal, decimal_text};

verus! {

/// A calendar date in the proleptic Gregorian calendar.
#[derive(Debug, Clone, Copy, PartialEq, Eq, Structural)]
pub struct Date {
    pub year: i32,
    pub month: u32,
    pub day: u32,
}

pub open spec fn is_leap_year(year: int) -> bool {
    (year % 4 == 0 && year % 100 != 0) || year % 400 == 0
}

/// Number of days in a month (1 = January) of a year.
pub open spec fn month_length(year: int, month: int) -> int {
    if month == 2 {
        if is_leap_year(year) {
            29
        } else {
            28
        }
    } else if month == 4 || month == 6 || month == 9 || month == 11 {
        30
    } else {
        31
    }
}

/// Days from 0001-01-01 to the first day of a year.
pub open spec fn days_before_year(year: int) -> int {
    365 * (year - 1) + (year - 1) / 4 - (year - 1) / 100 + (year - 1) / 400
}

/// Days from the first day of a year to the first day of one of its months.
pub open spec fn days_before_month(year: int, month: int) -> int
    decreases month,
{
    if month <= 1 {
        0
    } else {
        days_before_month(year, month - 1) + month_length(year, month - 1)
    }
}

/// Day of the week of a date, counted from Monday as 0; 0001-01-01 was a Monday.
pub open spec fn weekday_from_monday(year: int, month: int, day: int) -> int {
    (days_before_year(year) + days_before_month(year, month) + day - 1) % 7
}

pub open spec fn month_name_of(month: int) -> Seq<char> {
    if month == 1 {
        "January"@
    } else if month == 2 {
        "February"@
    } else if month == 3 {
        "March"@
    } else if month == 4 {
        "April"@
    } else if month == 5 {
        "May"@
    } else if month == 6 {
        "June"@
    } else if month == 7 {
        "July"@
    } else if month == 8 {
        "August"@
    } else if month == 9 {
        "September"@
    } else if month == 10 {
        "October"@
    } else if month == 11 {
        "November"@
    } else {
        "December"@
    }
}

impl Date {
    /// A date whose year lies in [-9999, 9999] and whose month and day exist.
    pub open spec fn is_valid(&self) -> bool {
        -9999 <= self.year <= 9999 && 1 <= self.month <= 12 && 1 <= self.day <= month_length(
            self.year as int,
            self.month as int,
        )
    }
}

/// What the calendar widget shows for the month of a given day.
#[derive(Debug, Clone)]
pub struct CalendarFacts {
    /// Weekday of the month's first day, Monday = 1 to Sunday = 7.
    pub first_weekday_offset: u32,
    pub days_in_month: u32,
    pub current_day: u32,
    pub current_month_name: String,
    pub current_year: i32,
}

impl CalendarFacts {
    /// The month starts on a weekday and has the length of a real month.
    pub open spec fn has_valid_grid(&self) -> bool {
        &&& 1 <= self.first_weekday_offset <= 7
        &&& 28 <= self.days_in_month <= 31
    }

    /// A real month, with today among its days.
    pub open spec fn is_valid(&self) -> bool {
        &&& self.has_valid_grid()
        &&& 1 <= self.current_day <= self.days_in_month
    }

    /// The facts of the month that holds `now`, with `now`'s day as today.
    pub open spec fn describes(&self, now: Date) -> bool {
        &&& self.first_weekday_offset == weekday_from_monday(
            now.year as int,
            now.month as int,
            1,
        ) + 1
        &&& self.days_in_month == month_length(now.year as int, now.month as int)
        &&& self.current_day == now.day
        &&& self.current_month_name@ == month_name_of(now.month as int)
        &&& self.current_year == now.year
    }
}

/// Relies on time's `util::days_in_month` (with `Month::try_from` on the month
/// number): the length of the month in the proleptic Gregorian calendar. Without
/// the `large-dates` feature it supports years in [-9999, 9999].
#[verifier::external_body]
fn month_days(year: i32, month: u32) -> (r: u32)
    requires
        -9999 <= year <= 9999,
        1 <= month <= 12,
    ensures
        r == month_length(year as int, month as int),
{
    time::util::days_in_month(time::Month::try_from(month as u8).unwrap(), year) as u32
}

/// Relies on chrono's `NaiveDate::from_ymd_opt`, `Datelike::weekday` and
/// `Weekday::num_days_from_monday`: the weekday of the first day of a month.
#[verifier::external_body]
fn first_day_weekday(year: i32, month: u32) -> (r: u32)
    requires
        -9999 <= year <= 9999,
        1 <= month <= 12,
    ensures
        r == weekday_from_monday(year as int, month as int, 1),
{
    chrono::Datelike::weekday(&chrono::NaiveDate::from_ymd_opt(year, month, 1).unwrap())
        .num_days_from_monday()
}

/// Relies on chrono's `Month::try_from` and `Month::name`: the English name of a month.
#[verifier::external_body]
fn month_name(month: u32) -> (r: &'static str)
    requires
        1 <= month <= 12,
    ensures
        r@ == month_name_of(month as int),
{
    chrono::Month::try_from(month as u8).unwrap().name()
}

/// Computes the calendar facts of the month that holds `now`.
pub fn compute_calendar_facts(now: &Date) -> (r: CalendarFacts)
    requires
        now.is_valid(),
    ensures
        r.describes(*now),
        r.is_valid(),
{
    let days = month_days(now.year, now.month);
    let first = first_day_weekday(now.year, now.month);
    proof {
        assert(0 <= weekday_from_monday(now.year as int, now.month as int, 1) < 7);
    }
    CalendarFacts {
        first_weekday_offset: first + 1,
        days_in_month: days,
        current_day: now.day,
        current_month_name: String::from_str(month_name(now.month)),
        current_year: now.year,
    }
}

/// Number of grid rows reserved for a month: 4 when it starts on a Monday and
/// has 28 days, 5 when exactly one of those holds, 6 otherwise.
pub open spec fn rows_for(first_weekday_offset: int, days_in_month: int) -> int {
    if first_weekday_offset == 1 && days_in_month == 28 {
        4
    } else if (first_weekday_offset == 1 && days_in_month > 28) || (first_weekday_offset != 1
        && days_in_month == 28) {
        5
    } else {
        6
    }
}

/// Number of grid rows reserved for a month, from the weekday offset of its
/// first day and its length.
pub fn rows_in_month(first_weekday_offset: u32, days_in_month: u32) -> (r: u32)
    ensures
        r == rows_for(first_weekday_offset as int, days_in_month as int),
        4 <= r <= 6,
{
    if first_weekday_offset == 1 && days_in_month == 28 {
        4
    } else if (first_weekday_offset == 1 && days_in_month > 28) || (first_weekday_offset != 1
        && days_in_month == 28) {
        5
    } else {
        6
    }
}

/// The rows reserved for a month hold all its days: with the leading blank
/// cells, the days never fill more than that many rows of seven.
pub proof fn reserved_rows_hold_month(first_weekday_offset: int, days_in_month: int)
    requires
        1 <= first_weekday_offset <= 7,
        28 <= days_in_month <= 31,
    ensures
        first_weekday_offset - 1 + days_in_month <= 7 * rows_for(
            first_weekday_offset,
            days_in_month,
        ),
{
}

/// The title of the calendar: month name, a space, and the year.
pub open spec fn title_of(facts: CalendarFacts) -> Seq<char> {
    facts.current_month_name@ + " "@ + decimal(facts.current_year as int)
}

/// The calendar's title line: month name and year.
pub fn calendar_title(facts: &CalendarFacts) -> (r: String)
    ensures
        r@ == title_of(*facts),
{
    let year = decimal_text(facts.current_year as i64);
    facts.current_month_name.clone().concat(" ").concat(year.as_str())
}

} // verus!
