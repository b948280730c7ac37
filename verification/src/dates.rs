//! Calendar dates of the proleptic Gregorian calendar, as `chrono` computes them.
//!
//! A [`Date`] is only ever made by `chrono` (`NaiveDate`), through the trusted
//! items of this module; the library reads it as plain values: its year, month,
//! day, day of the year and day number (days since the first of January of
//! year 1, which is day 1).

use vstd::prelude::*;
use crate::text::{decimal, zero_padded};
use chrono::Datelike;

verus! {

/// Earliest year that `chrono::NaiveDate` represents.
pub const MIN_YEAR: i32 = -262143;

/// Latest year that `chrono::NaiveDate` represents.
pub const MAX_YEAR: i32 = 262142;

/// What the library reads of a date.
pub struct DateView {
    pub year: int,
    pub month: int,
    pub day: int,
    pub ordinal: int,
    pub day_number: int,
}

/// A leap year of the Gregorian calendar.
pub open spec fn is_leap_year(year: int) -> bool {
    year % 4 == 0 && (year % 100 != 0 || year % 400 == 0)
}

/// The number of days of `month` (1 to 12) in `year`.
pub open spec fn days_in_month(year: int, month: int) -> int {
    if month == 2 {
        if is_leap_year(year) { 29 } else { 28 }
    } else if month == 4 || month == 6 || month == 9 || month == 11 {
        30
    } else {
        31
    }
}

/// Days of the months of `year` that come before `month`.
pub open spec fn days_before_month(year: int, month: int) -> int
    decreases month,
{
    if month <= 1 {
        0
    } else {
        days_before_month(year, month - 1) + days_in_month(year, month - 1)
    }
}

/// A day that `chrono::NaiveDate` can hold.
pub open spec fn is_civil_date(year: int, month: int, day: int) -> bool {
    &&& MIN_YEAR <= year <= MAX_YEAR
    &&& 1 <= month <= 12
    &&& 1 <= day <= days_in_month(year, month)
}

/// The date with the given year, month and day, with its day of the year and
/// its day number (the first of January of year 1 is day 1, so the
/// 31st of December of year 0 is day 0).
pub open spec fn civil_date(year: int, month: int, day: int) -> DateView {
    let p = year - 1;
    let ordinal = days_before_month(year, month) + day;
    DateView {
        year,
        month,
        day,
        ordinal,
        day_number: 365 * p + p / 4 - p / 100 + p / 400 + ordinal,
    }
}

impl DateView {
    /// A day of the calendar whose day of the year and day number are its own.
    pub open spec fn is_valid(self) -> bool {
        &&& is_civil_date(self.year, self.month, self.day)
        &&& self == civil_date(self.year, self.month, self.day)
    }
}

/// The year as `%Y` writes it: four digits at least, with a sign outside
/// the years 0 to 9999.
pub open spec fn year_text(year: int) -> Seq<char> {
    let sign = if 0 <= year <= 9999 {
        Seq::<char>::empty()
    } else if year > 9999 {
        seq!['+']
    } else {
        seq!['-']
    };
    let magnitude: nat = if year < 0 { (-year) as nat } else { year as nat };
    sign + zero_padded(decimal(magnitude), 4)
}

/// The date as `%Y-%m-%d` writes it, such as `2026-08-01`.
pub open spec fn ymd_text(d: DateView) -> Seq<char> {
    year_text(d.year) + seq!['-'] + zero_padded(decimal(d.month as nat), 2) + seq!['-']
        + zero_padded(decimal(d.day as nat), 2)
}

/// The date that comes `months` months after `d`, on the same day of the
/// month or on the last day of a shorter month; `None` where it lies beyond
/// the dates that `chrono` holds.
pub open spec fn months_later(d: DateView, months: int) -> Option<DateView> {
    if months == 0 {
        Some(d)
    } else if months > i32::MAX || d.year * 12 + d.month - 1 + months > i32::MAX {
        None
    } else {
        let total = d.year * 12 + d.month - 1 + months;
        let year = total / 12;
        let month = total % 12 + 1;
        let day = if d.day <= days_in_month(year, month) { d.day } else { days_in_month(year, month) };
        if is_civil_date(year, month, day) {
            Some(civil_date(year, month, day))
        } else {
            None
        }
    }
}

/// What `chrono::NaiveDate::parse_from_str` gives for `text` with the format
/// `%Y-%m-%d`, or `None` where it refuses the text.
pub uninterp spec fn parsed_ymd(text: Seq<char>) -> Option<DateView>;

/// A date of the proleptic Gregorian calendar within the range of
/// `chrono::NaiveDate`.
#[derive(Clone, Copy, Debug, PartialEq, Eq)]
pub struct Date {
    year: i32,
    month: u32,
    day: u32,
    ordinal: u32,
    day_number: i32,
}

impl View for Date {
    type V = DateView;

    closed spec fn view(&self) -> DateView {
        DateView {
            year: self.year as int,
            month: self.month as int,
            day: self.day as int,
            ordinal: self.ordinal as int,
            day_number: self.day_number as int,
        }
    }
}

/// Makes the date with the given year, month and day through
/// `chrono::NaiveDate::from_ymd_opt`. Trusted: `chrono` gives a date exactly
/// for a day of the proleptic Gregorian calendar between its first and last
/// year, and the fields read back through `chrono::Datelike` are that day's.
#[verifier::external_body]
fn chrono_from_ymd(year: i32, month: u32, day: u32) -> (r: Option<Date>)
    ensures
        r is Some <==> is_civil_date(year as int, month as int, day as int),
        r matches Some(d) ==> d@ == civil_date(year as int, month as int, day as int),
{
    match chrono::NaiveDate::from_ymd_opt(year, month, day) {
        Some(n) => Some(Date {
            year: n.year(),
            month: n.month(),
            day: n.day(),
            ordinal: n.ordinal(),
            day_number: n.num_days_from_ce(),
        }),
        None => None,
    }
}

/// Parses `text` with `chrono::NaiveDate::parse_from_str` and the format
/// `%Y-%m-%d`. Trusted: the result is named by `parsed_ymd`, and a date that
/// `chrono` parses is a day of its calendar.
#[verifier::external_body]
fn chrono_parse_ymd(text: &str) -> (r: Option<Date>)
    ensures
        r is Some <==> parsed_ymd(text@) is Some,
        r matches Some(d) ==> parsed_ymd(text@) == Some(d@) && d@.is_valid(),
{
    match chrono::NaiveDate::parse_from_str(text, "%Y-%m-%d") {
        Ok(n) => Some(Date {
            year: n.year(),
            month: n.month(),
            day: n.day(),
            ordinal: n.ordinal(),
            day_number: n.num_days_from_ce(),
        }),
        Err(_) => None,
    }
}

/// Adds months with `chrono::NaiveDate::checked_add_months`. Trusted: as its
/// documentation says, the day is kept or clamped to the last day of a shorter
/// month, and the result is `None` beyond the range of `chrono`; the
/// arithmetic stated in `months_later` is that of its source.
#[verifier::external_body]
fn chrono_add_months(d: &Date, months: u32) -> (r: Option<Date>)
    requires
        d@.is_valid(),
    ensures
        r matches Some(x) ==> months_later(d@, months as int) == Some(x@),
        r is None ==> months_later(d@, months as int) is None,
{
    let start = chrono::NaiveDate::from_ymd_opt(d.year, d.month, d.day);
    match start.and_then(|n| n.checked_add_months(chrono::Months::new(months))) {
        Some(n) => Some(Date {
            year: n.year(),
            month: n.month(),
            day: n.day(),
            ordinal: n.ordinal(),
            day_number: n.num_days_from_ce(),
        }),
        None => None,
    }
}

/// Writes the date with `chrono`'s `format("%Y-%m-%d")`. Trusted: `%Y` writes
/// the year zero-padded to four digits, signed outside 0 to 9999, and `%m` and
/// `%d` write two zero-padded digits; `parse_from_str` with the same format
/// reads the text back as the same date (a signed year included).
#[verifier::external_body]
fn chrono_format_ymd(d: &Date) -> (r: String)
    requires
        d@.is_valid(),
    ensures
        r@ == ymd_text(d@),
        parsed_ymd(r@) == Some(d@),
{
    match chrono::NaiveDate::from_ymd_opt(d.year, d.month, d.day) {
        Some(n) => n.format("%Y-%m-%d").to_string(),
        None => String::new(),
    }
}

impl Date {
    #[verifier::type_invariant]
    closed spec fn well_formed(self) -> bool {
        self@.is_valid()
    }

    /// The date with the given year, month and day, if the calendar has it.
    pub fn from_ymd(year: i32, month: u32, day: u32) -> (r: Option<Date>)
        ensures
            r is Some <==> is_civil_date(year as int, month as int, day as int),
            r matches Some(d) ==> d@ == civil_date(year as int, month as int, day as int),
    {
        chrono_from_ymd(year, month, day)
    }

    /// Reads a date written `%Y-%m-%d`, such as `2026-08-01`.
    pub fn parse_ymd(text: &str) -> (r: Option<Date>)
        ensures
            r is Some <==> parsed_ymd(text@) is Some,
            r matches Some(d) ==> parsed_ymd(text@) == Some(d@) && d@.is_valid(),
    {
        chrono_parse_ymd(text)
    }

    /// The date `months` months later, clamped to the end of a shorter month.
    pub fn add_months(&self, months: u32) -> (r: Option<Date>)
        ensures
            r matches Some(x) ==> months_later(self@, months as int) == Some(x@),
            r is None ==> months_later(self@, months as int) is None,
    {
        proof {
            use_type_invariant(self);
        }
        chrono_add_months(self, months)
    }

    /// The date written `%Y-%m-%d`.
    pub fn format_ymd(&self) -> (r: String)
        ensures
            r@ == ymd_text(self@),
            parsed_ymd(r@) == Some(self@),
    {
        proof {
            use_type_invariant(self);
        }
        chrono_format_ymd(self)
    }

    /// The year.
    pub fn year(&self) -> (r: i32)
        ensures
            r == self@.year,
            self@.is_valid(),
    {
        proof {
            use_type_invariant(self);
        }
        self.year
    }

    /// The day of the year, from 1.
    pub fn ordinal(&self) -> (r: u32)
        ensures
            r == self@.ordinal,
            self@.is_valid(),
    {
        proof {
            use_type_invariant(self);
        }
        self.ordinal
    }

    /// Days since the 31st of December of year 0 (the first of January of
    /// year 1 is day 1).
    pub fn day_number(&self) -> (r: i32)
        ensures
            r == self@.day_number,
            self@.is_valid(),
    {
        proof {
            use_type_invariant(self);
        }
        self.day_number
    }
}

} // verus!
