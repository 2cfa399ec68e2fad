//! Calendar dates without time of day or time zone.
use vstd::prelude::*;
use chrono::Datelike;

verus! {

/// Earliest year that a date may carry.
pub const MIN_YEAR: i32 = -262143;

/// Latest year that a date may carry.
pub const MAX_YEAR: i32 = 262142;

/// Leap years of the proleptic Gregorian calendar.
pub open spec fn is_leap_year(year: int) -> bool {
    (year % 4 == 0 && year % 100 != 0) || year % 400 == 0
}

/// Number of days of a month, for `1 <= month <= 12`.
pub open spec fn days_in_month(year: int, month: int) -> int {
    if month == 2 {
        if is_leap_year(year) {
            29
        } else {
            28
        }
    } else if month == 4 || month == 6 || month == 9 || month == 11 {
        30
    } else {
        31
    }
}

/// Whether year, month and day name a day of the proleptic Gregorian calendar
/// within the supported years.
pub open spec fn is_calendar_date(year: int, month: int, day: int) -> bool {
    &&& MIN_YEAR <= year <= MAX_YEAR
    &&& 1 <= month <= 12
    &&& 1 <= day <= days_in_month(year, month)
}

/// What `chrono::NaiveDate::from_str` reads from a text, as year, month and day.
pub uninterp spec fn parsed_iso_date(s: Seq<char>) -> Option<(i32, u32, u32)>;

/// Relies on `chrono::NaiveDate::from_ymd_opt`: it returns `Some` exactly for
/// month and day of a Gregorian month within its year range `MIN_YEAR..=MAX_YEAR`.
#[verifier::external_body]
fn chrono_accepts_ymd(year: i32, month: u32, day: u32) -> (r: bool)
    ensures
        r == is_calendar_date(year as int, month as int, day as int),
{
    chrono::NaiveDate::from_ymd_opt(year, month, day).is_some()
}

/// Relies on `<chrono::NaiveDate as FromStr>::from_str`, which reads `%Y-%m-%d`;
/// the result depends on the text alone.
#[verifier::external_body]
fn chrono_parse_date(s: &str) -> (r: Option<(i32, u32, u32)>)
    ensures
        r == parsed_iso_date(s@),
{
    match s.parse::<chrono::NaiveDate>() {
        Ok(d) => Some((d.year(), d.month(), d.day())),
        Err(_) => None,
    }
}

/// A day of the proleptic Gregorian calendar.
#[derive(Clone, Copy, Debug, PartialEq, Eq)]
pub struct CalendarDate {
    year: i32,
    month: u32,
    day: u32,
}

/// The date with the given year, month and day, if it exists.
pub open spec fn date_of(year: int, month: int, day: int) -> Option<(int, int, int)> {
    if is_calendar_date(year, month, day) {
        Some((year, month, day))
    } else {
        None
    }
}

/// The day that a `YYYY-MM-DD` text names, if it names one.
pub open spec fn date_in_text(s: Seq<char>) -> Option<(int, int, int)> {
    match parsed_iso_date(s) {
        Some((y, m, d)) => date_of(y as int, m as int, d as int),
        None => None,
    }
}

impl View for CalendarDate {
    type V = (int, int, int);

    closed spec fn view(&self) -> (int, int, int) {
        (self.year as int, self.month as int, self.day as int)
    }
}

impl CalendarDate {
    #[verifier::type_invariant]
    spec fn valid(self) -> bool {
        is_calendar_date(self.year as int, self.month as int, self.day as int)
    }

    /// The date with this year, month and day; `None` where no such day exists.
    pub fn from_ymd(year: i32, month: u32, day: u32) -> (r: Option<CalendarDate>)
        ensures
            r is Some <==> is_calendar_date(year as int, month as int, day as int),
            r matches Some(d) ==> d@ == (year as int, month as int, day as int),
    {
        if chrono_accepts_ymd(year, month, day) {
            Some(CalendarDate { year, month, day })
        } else {
            None
        }
    }

    /// Reads a date written `YYYY-MM-DD`; `None` where the text is no date.
    pub fn parse(s: &str) -> (r: Option<CalendarDate>)
        ensures
            match date_in_text(s@) {
                Some(v) => r is Some && r->0@ == v,
                None => r is None,
            },
    {
        match chrono_parse_date(s) {
            Some((y, m, d)) => CalendarDate::from_ymd(y, m, d),
            None => None,
        }
    }

    /// The year; year 0 is 1 BCE.
    pub fn year(&self) -> (r: i32)
        ensures
            r as int == self@.0,
    {
        self.year
    }

    /// The month, from 1 to 12.
    pub fn month(&self) -> (r: u32)
        ensures
            r as int == self@.1,
            1 <= r <= 12,
    {
        proof {
            use_type_invariant(self);
        }
        self.month
    }

    /// The day of the month, from 1.
    pub fn day(&self) -> (r: u32)
        ensures
            r as int == self@.2,
            1 <= r <= 31,
    {
        proof {
            use_type_invariant(self);
        }
        self.day
    }
}

} // verus!
