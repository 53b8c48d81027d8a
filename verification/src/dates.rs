//! Calendar dates, held as day numbers of the proleptic Gregorian calendar.
//!
//! The calendar itself is chrono's: it turns a year, month and day, or a
//! text, into a day number and a day number into a text. What is done with
//! day numbers (order, distance, day of the week) is done here.

use vstd::prelude::*;
use chrono::{Datelike, NaiveDate};

verus! {

/// The day number of the earliest date: 1 January of the year -262143.
pub const MIN_DAY: i32 = -95_746_129;

/// The day number of the latest date: 31 December of the year 262142.
pub const MAX_DAY: i32 = 95_745_399;

/// Whether `n` is the day number of a date that a [`CalendarDate`] can hold.
pub open spec fn valid_day_number(n: int) -> bool {
    MIN_DAY <= n <= MAX_DAY
}

/// The day number that chrono gives the calendar date `year`-`month`-`day`,
/// or `None` where chrono has no such date.
pub uninterp spec fn civil_day_number(year: i32, month: u32, day: u32) -> Option<i32>;

/// What chrono makes of `text` read as a date in the form year-month-day:
/// the date's day number, or the words of chrono's refusal.
pub uninterp spec fn iso_date_parse(text: Seq<char>) -> Result<i32, Seq<char>>;

/// The text, in the form year-month-day, that chrono writes for the date
/// with the given day number, or `None` where chrono has no such date.
pub uninterp spec fn iso_date_text(day_number: i32) -> Option<Seq<char>>;

/// `NaiveDate::from_ymd_opt` followed by `Datelike::num_days_from_ce`: the
/// day number of a calendar date, `None` where `from_ymd_opt` returns `None`.
/// The result depends on the three numbers alone and is known by the name
/// `civil_day_number`; nothing else is claimed of it.
#[verifier::external_body]
fn chrono_day_number(year: i32, month: u32, day: u32) -> (n: Option<i32>)
    ensures
        n == civil_day_number(year, month, day),
{
    match NaiveDate::from_ymd_opt(year, month, day) {
        Some(date) => Some(date.num_days_from_ce()),
        None => None,
    }
}

/// `NaiveDate::parse_from_str` with the format `%Y-%m-%d`, followed by
/// `Datelike::num_days_from_ce` where a date came back and by the error's
/// `to_string` where one did not. The result depends on the text alone and
/// is known by the name `iso_date_parse`; nothing else is claimed of it.
#[verifier::external_body]
fn chrono_parse_iso(text: &str) -> (r: Result<i32, String>)
    ensures
        r matches Ok(n) ==> (iso_date_parse(text@) matches Ok(m) && m == n),
        r matches Err(why) ==> (iso_date_parse(text@) matches Err(e) && e == why@),
{
    match NaiveDate::parse_from_str(text, "%Y-%m-%d") {
        Ok(date) => Ok(date.num_days_from_ce()),
        Err(error) => Err(error.to_string()),
    }
}

/// `NaiveDate::from_num_days_from_ce_opt` followed by `NaiveDate::format`
/// with the format `%Y-%m-%d` and `to_string`: the text of the date with the
/// given day number, `None` where `from_num_days_from_ce_opt` returns `None`.
/// The result depends on the number alone and is known by the name
/// `iso_date_text`; nothing else is claimed of it.
#[verifier::external_body]
fn chrono_iso_text(day_number: i32) -> (text: Option<String>)
    ensures
        text matches Some(t) ==> iso_date_text(day_number) == Some(t@),
        text is None ==> iso_date_text(day_number) is None,
{
    match NaiveDate::from_num_days_from_ce_opt(day_number) {
        Some(date) => Some(date.format("%Y-%m-%d").to_string()),
        None => None,
    }
}

/// The day of the week of the day numbered `n`, counted from Monday as 0 to
/// Sunday as 6. Day 1 is a Monday.
pub open spec fn weekday_index(n: int) -> int {
    (n - 1) % 7
}

/// A date of the proleptic Gregorian calendar, held as its day number:
/// 1 January of the year 1 is day 1, and each later day counts one more.
/// The number lies between [`MIN_DAY`] and [`MAX_DAY`]. Dates are ordered as
/// their day numbers are.
#[derive(Clone, Copy, Debug, PartialEq, Eq, PartialOrd, Ord, Hash, Structural)]
pub struct CalendarDate {
    days: i32,
}

impl View for CalendarDate {
    type V = int;

    /// The day number.
    closed spec fn view(&self) -> int {
        self.days as int
    }
}

/// What has become of a text read as a date: the date's day number, or the
/// reason why there is none. A day number out of range is refused in the
/// words chrono has for it.
pub open spec fn parsed_day(text: Seq<char>) -> Result<int, Seq<char>> {
    match iso_date_parse(text) {
        Ok(n) => if valid_day_number(n as int) {
            Ok(n as int)
        } else {
            Err("input is out of range"@)
        },
        Err(why) => Err(why),
    }
}

impl CalendarDate {
    #[verifier::type_invariant]
    spec fn in_range(self) -> bool {
        MIN_DAY <= self.days <= MAX_DAY
    }

    /// The date with the day number `n`, where there is one.
    pub fn from_day_number(n: i32) -> (date: Option<CalendarDate>)
        ensures
            date is Some <==> valid_day_number(n as int),
            date matches Some(d) ==> d@ == n,
    {
        if MIN_DAY <= n && n <= MAX_DAY {
            Some(CalendarDate { days: n })
        } else {
            None
        }
    }

    /// The date `year`-`month`-`day`, where the calendar has it.
    pub fn from_ymd(year: i32, month: u32, day: u32) -> (date: Option<CalendarDate>)
        ensures
            date is Some <==> (civil_day_number(year, month, day) matches Some(n)
                && valid_day_number(n as int)),
            date matches Some(d) ==> civil_day_number(year, month, day) matches Some(n) && d@
                == n,
    {
        match chrono_day_number(year, month, day) {
            Some(n) => CalendarDate::from_day_number(n),
            None => None,
        }
    }

    /// Reads a date written as year-month-day, such as `2024-01-10`. An
    /// error holds the reason in words.
    pub fn parse(text: &str) -> (r: Result<CalendarDate, String>)
        ensures
            r matches Ok(date) ==> (parsed_day(text@) matches Ok(n) && n == date@),
            r matches Err(why) ==> (parsed_day(text@) matches Err(e) && e == why@),
    {
        match chrono_parse_iso(text) {
            Ok(n) => match CalendarDate::from_day_number(n) {
                Some(date) => Ok(date),
                None => Err("input is out of range".to_owned()),
            },
            Err(why) => Err(why),
        }
    }

    /// The day number of this date.
    pub fn day_number(self) -> (n: i32)
        ensures
            n == self@,
            valid_day_number(n as int),
    {
        proof {
            use_type_invariant(&self);
        }
        self.days
    }

    /// The day of the week, counted from Monday as 0 to Sunday as 6.
    pub fn days_from_monday(self) -> (w: u32)
        ensures
            w == weekday_index(self@),
            w < 7,
    {
        proof {
            use_type_invariant(&self);
        }
        // 95_746_133 is a multiple of 7 that lifts every day number above zero.
        let lifted: i64 = self.days as i64 - 1 + 95_746_133;
        (lifted % 7) as u32
    }

    /// This date written as year-month-day, or `None` where the calendar
    /// cannot write it.
    pub fn iso_text(self) -> (text: Option<String>)
        ensures
            text matches Some(t) ==> iso_date_text(self@ as i32) == Some(t@),
            text is None ==> iso_date_text(self@ as i32) is None,
    {
        chrono_iso_text(self.days)
    }
}

} // verus!
