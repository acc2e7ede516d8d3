//! Calendar dates, as the date filters of a query carry them.
//!
//! Validity and rendering are chrono's: a date exists when
//! `chrono::NaiveDate::from_ymd_opt` accepts it, and renders the way
//! `NaiveDate`'s `Display` writes it, `%Y-%m-%d`.

use vstd::prelude::*;
use crate::text::{decimal, digit_char};
use chrono::Datelike;

verus! {

/// The proleptic Gregorian leap year rule.
pub open spec fn leap_year(y: int) -> bool {
    y % 4 == 0 && (y % 100 != 0 || y % 400 == 0)
}

/// How many days month `m` of year `y` has.
pub open spec fn days_in_month(y: int, m: int) -> int {
    if m == 2 {
        if leap_year(y) {
            29
        } else {
            28
        }
    } else if m == 4 || m == 6 || m == 9 || m == 11 {
        30
    } else {
        31
    }
}

/// Whether `y-m-d` is a date chrono can hold: a real calendar day, in a year
/// within chrono's range.
pub open spec fn date_exists(y: i32, m: u32, d: u32) -> bool {
    &&& -262143 <= y <= 262142
    &&& 1 <= m <= 12
    &&& 1 <= d <= days_in_month(y as int, m as int)
}

/// `n` in decimal, padded on the left with zeros to at least `width` digits.
pub open spec fn zero_padded(n: nat, width: nat) -> Seq<char> {
    if decimal(n).len() >= width {
        decimal(n)
    } else {
        Seq::new((width - decimal(n).len()) as nat, |i: int| '0') + decimal(n)
    }
}

/// How chrono writes a year: four digits within `0..=9999`, otherwise with
/// an explicit sign in front of at least four digits.
pub open spec fn year_text(y: int) -> Seq<char> {
    if 0 <= y <= 9999 {
        zero_padded(y as nat, 4)
    } else if y > 0 {
        seq!['+'] + zero_padded(y as nat, 4)
    } else {
        seq!['-'] + zero_padded((-y) as nat, 4)
    }
}

/// Two decimal digits of a number below a hundred.
pub open spec fn two_digits(n: nat) -> Seq<char> {
    seq![digit_char(n / 10), digit_char(n % 10)]
}

/// `%Y-%m-%d`, the way `NaiveDate`'s `Display` writes a date.
pub open spec fn iso_date_text(y: i32, m: u32, d: u32) -> Seq<char> {
    year_text(y as int) + seq!['-'] + two_digits(m as nat) + seq!['-'] + two_digits(d as nat)
}

/// `chrono::NaiveDate::from_ymd_opt(y, m, d).is_some()`: whether chrono holds
/// the date.
#[verifier::external_body]
fn chrono_date_exists(y: i32, m: u32, d: u32) -> (r: bool)
    ensures
        r == date_exists(y, m, d),
{
    chrono::NaiveDate::from_ymd_opt(y, m, d).is_some()
}

/// `NaiveDate`'s `Display` of the date `y-m-d`.
#[verifier::external_body]
fn chrono_date_text(y: i32, m: u32, d: u32) -> (r: String)
    requires
        date_exists(y, m, d),
    ensures
        r@ == iso_date_text(y, m, d),
{
    match chrono::NaiveDate::from_ymd_opt(y, m, d) {
        Some(date) => date.to_string(),
        None => String::new(),
    }
}

/// What `NaiveDate`'s `FromStr` reads out of `s`, as year, month and day.
pub uninterp spec fn chrono_date_parsed(s: Seq<char>) -> Option<(i32, u32, u32)>;

/// `s.parse::<chrono::NaiveDate>()`, as year, month and day. Whatever chrono
/// reads is a date it holds; which strings it reads is not restated here.
#[verifier::external_body]
fn chrono_parse_date(s: &str) -> (r: Option<(i32, u32, u32)>)
    ensures
        r == chrono_date_parsed(s@),
        r matches Some(t) ==> date_exists(t.0, t.1, t.2),
{
    s.parse::<chrono::NaiveDate>().ok().map(|date| (date.year(), date.month(), date.day()))
}

/// A calendar date that chrono can hold.
#[derive(Debug, Clone, Copy, PartialEq, Eq)]
pub struct Date {
    year: i32,
    month: u32,
    day: u32,
}

/// A date written `%Y-%m-%d`.
pub open spec fn date_text(d: Date) -> Seq<char> {
    iso_date_text(d.spec_year(), d.spec_month(), d.spec_day())
}

impl Date {
    /// The date is one chrono holds.
    #[verifier::type_invariant]
    spec fn holds(self) -> bool {
        date_exists(self.year, self.month, self.day)
    }

    /// The year of the date.
    pub closed spec fn spec_year(self) -> i32 {
        self.year
    }

    /// The month of the date, from 1.
    pub closed spec fn spec_month(self) -> u32 {
        self.month
    }

    /// The day of the month, from 1.
    pub closed spec fn spec_day(self) -> u32 {
        self.day
    }

    /// The date `year-month-day`, or [`None`] if that day does not exist or
    /// lies outside the years chrono holds.
    pub fn from_ymd_opt(year: i32, month: u32, day: u32) -> (r: Option<Date>)
        ensures
            r is Some == date_exists(year, month, day),
            r matches Some(d) ==> d.spec_year() == year && d.spec_month() == month && d.spec_day()
                == day,
    {
        if chrono_date_exists(year, month, day) {
            Some(Date { year, month, day })
        } else {
            None
        }
    }

    /// Reads a date written `%Y-%m-%d`, the way chrono's `NaiveDate` reads one.
    pub fn parse(s: &str) -> (r: Option<Date>)
        ensures
            match chrono_date_parsed(s@) {
                Some(t) => r matches Some(d) && d.spec_year() == t.0 && d.spec_month() == t.1
                    && d.spec_day() == t.2,
                None => r is None,
            },
    {
        match chrono_parse_date(s) {
            Some(t) => Some(Date { year: t.0, month: t.1, day: t.2 }),
            None => None,
        }
    }

    /// The year of the date.
    pub fn year(&self) -> (r: i32)
        ensures
            r == self.spec_year(),
    {
        self.year
    }

    /// The month of the date, from 1.
    pub fn month(&self) -> (r: u32)
        ensures
            r == self.spec_month(),
    {
        self.month
    }

    /// The day of the month, from 1.
    pub fn day(&self) -> (r: u32)
        ensures
            r == self.spec_day(),
    {
        self.day
    }

    /// The date written `%Y-%m-%d`, e.g. `2020-01-01`.
    pub fn to_iso(&self) -> (r: String)
        ensures
            r@ == iso_date_text(self.spec_year(), self.spec_month(), self.spec_day()),
    {
        proof {
            use_type_invariant(self);
        }
        chrono_date_text(self.year, self.month, self.day)
    }
}

} // verus!
