use chrono::{Datelike, NaiveDate};
use std::str::FromStr;
use vstd::prelude::*;

verus! {

/// Smallest year that a date can hold.
pub const MIN_YEAR: i32 = -262143;

/// Largest year that a date can hold.
pub const MAX_YEAR: i32 = 262142;

/// A day of the proleptic Gregorian calendar, without time of day.
#[derive(Clone, Copy, Debug, PartialEq, Eq, Structural)]
pub struct CalendarDate {
    year: i32,
    month: u32,
    day: u32,
}

pub open spec fn is_leap_year(y: int) -> bool {
    y % 4 == 0 && (y % 100 != 0 || y % 400 == 0)
}

pub open spec fn days_in_month(y: int, m: int) -> int {
    if m == 2 {
        if is_leap_year(y) { 29 } else { 28 }
    } else if m == 4 || m == 6 || m == 9 || m == 11 {
        30
    } else {
        31
    }
}

/// A year, month and day that name an existing day within the supported years.
pub open spec fn is_valid_ymd(y: int, m: int, d: int) -> bool {
    &&& MIN_YEAR <= y <= MAX_YEAR
    &&& 1 <= m <= 12
    &&& 1 <= d <= days_in_month(y, m)
}

/// Days of the year that precede the first day of month `m`.
pub open spec fn days_before_month(y: int, m: int) -> int {
    let common: int = if m <= 1 { 0 }
        else if m == 2 { 31 }
        else if m == 3 { 59 }
        else if m == 4 { 90 }
        else if m == 5 { 120 }
        else if m == 6 { 151 }
        else if m == 7 { 181 }
        else if m == 8 { 212 }
        else if m == 9 { 243 }
        else if m == 10 { 273 }
        else if m == 11 { 304 }
        else { 334 };
    if m > 2 && is_leap_year(y) { common + 1 } else { common }
}

/// Day count with January 1 of year 1 as day 1 (earlier days count down
/// through 0 into the negative).
pub open spec fn day_number(y: int, m: int, d: int) -> int {
    let p = y - 1;
    365 * p + p / 4 - p / 100 + p / 400 + days_before_month(y, m) + d
}

impl CalendarDate {
    pub closed spec fn year_spec(self) -> int {
        self.year as int
    }

    pub closed spec fn month_spec(self) -> int {
        self.month as int
    }

    pub closed spec fn day_spec(self) -> int {
        self.day as int
    }

    pub open spec fn wf(self) -> bool {
        is_valid_ymd(self.year_spec(), self.month_spec(), self.day_spec())
    }

    /// The day count of this date (see `day_number`).
    pub open spec fn ordinal(self) -> int {
        day_number(self.year_spec(), self.month_spec(), self.day_spec())
    }

    /// The date with the given year, month and day, if that day exists.
    pub fn from_ymd(year: i32, month: u32, day: u32) -> (r: Option<CalendarDate>)
        ensures
            r is Some <==> is_valid_ymd(year as int, month as int, day as int),
            r matches Some(d) ==> d.year_spec() == year && d.month_spec() == month
                && d.day_spec() == day && d.wf(),
    {
        if date_exists(year, month, day) {
            Some(CalendarDate { year, month, day })
        } else {
            None
        }
    }

    pub fn year(&self) -> (r: i32)
        ensures
            r == self.year_spec(),
    {
        self.year
    }

    pub fn month(&self) -> (r: u32)
        ensures
            r == self.month_spec(),
    {
        self.month
    }

    pub fn day(&self) -> (r: u32)
        ensures
            r == self.day_spec(),
    {
        self.day
    }
}

/// Relies on chrono's `NaiveDate::from_ymd_opt`: it returns `Some` exactly for
/// the days that exist in the proleptic Gregorian calendar between
/// `MIN_YEAR` and `MAX_YEAR` (both years whole).
#[verifier::external_body]
fn date_exists(year: i32, month: u32, day: u32) -> (r: bool)
    ensures
        r == is_valid_ymd(year as int, month as int, day as int),
{
    NaiveDate::from_ymd_opt(year, month, day).is_some()
}

/// What chrono's `NaiveDate::from_str` gives for a text: the year, month and
/// day of the date read, or the text of the parse error.
pub uninterp spec fn naive_date_parse(s: Seq<char>) -> Result<(int, int, int), Seq<char>>;

/// Relies on chrono's `NaiveDate::from_str` (the `%Y-%m-%d` form, month and
/// day with or without a leading zero) to read a date, and on `Display` of its
/// `ParseError` for the reason of a failure. A date it returns exists.
#[verifier::external_body]
pub(crate) fn parse_iso_date(s: &str) -> (r: Result<CalendarDate, String>)
    ensures
        match r {
            Ok(d) => d.wf() && naive_date_parse(s@) == Ok::<(int, int, int), Seq<char>>(
                (d.year_spec(), d.month_spec(), d.day_spec()),
            ),
            Err(e) => naive_date_parse(s@) == Err::<(int, int, int), Seq<char>>(e@),
        },
{
    match NaiveDate::from_str(s) {
        Ok(d) => Ok(CalendarDate { year: d.year(), month: d.month(), day: d.day() }),
        Err(e) => Err(e.to_string()),
    }
}

/// Relies on chrono's `NaiveDate::signed_duration_since` and
/// `TimeDelta::num_days`: the whole days from `from` to `to`, that is the
/// difference of their day counts.
#[verifier::external_body]
pub(crate) fn days_from_to(from: &CalendarDate, to: &CalendarDate) -> (r: i64)
    requires
        from.wf(),
        to.wf(),
    ensures
        r == to.ordinal() - from.ordinal(),
{
    let a = NaiveDate::from_ymd_opt(from.year, from.month, from.day).unwrap();
    let b = NaiveDate::from_ymd_opt(to.year, to.month, to.day).unwrap();
    b.signed_duration_since(a).num_days()
}

} // verus!
