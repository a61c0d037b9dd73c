//! Calendar dates of the proleptic Gregorian calendar and the instant an
//! analysis is evaluated at.
//!
//! A due date is a plain `Date`; it stands for local midnight at the start of
//! that day. The evaluation instant is a `Moment`: the number of its day and
//! the time elapsed since that day's midnight. Calendar arithmetic and the
//! clock come from `chrono`.

use chrono::{Datelike, Local, NaiveDate, Timelike};
use crate::text::digit_char;
use vstd::prelude::*;

verus! {

/// A calendar date with a four-digit year.
#[derive(Clone, Copy, Debug, PartialEq, Eq, Structural)]
pub struct Date {
    pub year: i32,
    pub month: u32,
    pub day: u32,
}

/// An instant in local time: the day, counted as `Date::day_number` counts,
/// and the time of day.
#[derive(Clone, Copy, Debug, PartialEq, Eq, Structural)]
pub struct Moment {
    /// Day number; day 1 is 0001-01-01.
    pub day: i32,
    /// Whole seconds since midnight.
    pub second: u32,
    /// Nanoseconds since the whole second.
    pub nanosecond: u32,
}

/// Gregorian leap years: every fourth year, except centuries not divisible by 400.
pub open spec fn is_leap_year(year: int) -> bool {
    year % 4 == 0 && (year % 100 != 0 || year % 400 == 0)
}

/// The number of days of `month` (1 to 12) in `year`; 0 for any other month.
pub open spec fn days_in_month(year: int, month: int) -> int {
    if month == 2 {
        if is_leap_year(year) {
            29
        } else {
            28
        }
    } else if month == 4 || month == 6 || month == 9 || month == 11 {
        30
    } else if 1 <= month <= 12 {
        31
    } else {
        0
    }
}

/// Whether the day exists in the calendar.
pub open spec fn is_calendar_date(year: int, month: int, day: int) -> bool {
    1 <= month <= 12 && 1 <= day <= days_in_month(year, month)
}

/// The days of `year` that lie before the first day of `month`.
pub open spec fn days_before_month(year: int, month: int) -> int
    decreases month,
{
    if month <= 1 {
        0
    } else {
        days_before_month(year, month - 1) + days_in_month(year, month - 1)
    }
}

/// The days from 0001-01-01 up to, and not including, the first day of `year`.
/// Negative for the year 0.
pub open spec fn days_before_year(year: int) -> int {
    let y = year - 1;
    365 * y + y / 4 - y / 100 + y / 400
}

/// A number below 100 written with two digits.
pub open spec fn two_digits(n: int) -> Seq<char>
    recommends
        0 <= n < 100,
{
    seq![digit_char(n / 10), digit_char(n % 10)]
}

impl Date {
    /// A day that exists, in a year that four digits can write.
    pub open spec fn wf(self) -> bool {
        0 <= self.year <= 9999 && is_calendar_date(
            self.year as int,
            self.month as int,
            self.day as int,
        )
    }

    /// The position of the day in the calendar: 0001-01-01 is day 1, and each
    /// following day is one more.
    pub open spec fn day_number(self) -> int {
        days_before_year(self.year as int) + days_before_month(
            self.year as int,
            self.month as int,
        ) + self.day
    }

    /// The date written as `YYYY-MM-DD`.
    pub open spec fn text(self) -> Seq<char> {
        two_digits(self.year as int / 100) + two_digits(self.year as int % 100) + seq!['-']
            + two_digits(self.month as int) + seq!['-'] + two_digits(self.day as int)
    }

    /// The date of the given year, month and day, if that day exists and the
    /// year is between 0 and 9999.
    pub fn new(year: i32, month: u32, day: u32) -> (r: Option<Date>)
        ensures
            r == (if 0 <= year <= 9999 && is_calendar_date(year as int, month as int, day as int) {
                Some(Date { year, month, day })
            } else {
                None
            }),
    {
        if year < 0 || year > 9999 || month < 1 || month > 12 || day < 1 {
            return None;
        }
        let leap = year % 4 == 0 && (year % 100 != 0 || year % 400 == 0);
        let length: u32 = if month == 2 {
            if leap {
                29
            } else {
                28
            }
        } else if month == 4 || month == 6 || month == 9 || month == 11 {
            30
        } else {
            31
        };
        if day <= length {
            Some(Date { year, month, day })
        } else {
            None
        }
    }

    /// The number of the day, as `day_number` defines it.
    pub fn days_from_ce(&self) -> (n: i32)
        requires
            self.wf(),
        ensures
            n == self.day_number(),
    {
        chrono_day_number(*self)
    }

    /// The date as `YYYY-MM-DD`.
    pub fn render(&self) -> (s: String)
        requires
            self.wf(),
        ensures
            s@ == self.text(),
    {
        chrono_render(*self)
    }
}

impl Moment {
    /// The time is a time of day: fewer seconds than a day has, and the
    /// nanoseconds of one second, or of a leap second that follows it.
    pub open spec fn wf(self) -> bool {
        self.second < 86_400 && self.nanosecond < 2_000_000_000
    }

    /// The instant at the given time of day on `date`, if the date is well
    /// formed and the time is a time of day.
    pub fn at(date: Date, hour: u32, minute: u32, second: u32) -> (r: Option<Moment>)
        ensures
            r == (if date.wf() && hour < 24 && minute < 60 && second < 60 {
                Some(
                    Moment {
                        day: date.day_number() as i32,
                        second: (hour * 3600 + minute * 60 + second) as u32,
                        nanosecond: 0,
                    },
                )
            } else {
                None
            }),
            r matches Some(moment) ==> moment.day == date.day_number() && moment.wf(),
    {
        if hour >= 24 || minute >= 60 || second >= 60 {
            return None;
        }
        match Date::new(date.year, date.month, date.day) {
            Some(valid) => Some(
                Moment {
                    day: valid.days_from_ce(),
                    second: hour * 3600 + minute * 60 + second,
                    nanosecond: 0,
                },
            ),
            None => None,
        }
    }

    /// The current local time: the day and the time of day that the clock
    /// shows. Which instant that is depends on when it is asked.
    pub fn now() -> (now: Moment)
        ensures
            now.wf(),
    {
        chrono_local_now()
    }

    /// Whether midnight at the start of `date` lies strictly before this
    /// instant.
    pub open spec fn is_past(self, date: Date) -> bool {
        date.day_number() < self.day || (date.day_number() == self.day && (self.second > 0
            || self.nanosecond > 0))
    }

    /// Whole days from this instant's day to `date`; negative once the date
    /// has gone by. The time of day does not count.
    pub open spec fn days_until(self, date: Date) -> int {
        date.day_number() - self.day
    }
}

/// `Datelike::num_days_from_ce` of the `NaiveDate` that `NaiveDate::from_ymd_opt`
/// makes of the date: chrono counts the days of the proleptic Gregorian
/// calendar with 0001-01-01 as day 1.
#[verifier::external_body]
fn chrono_day_number(date: Date) -> (n: i32)
    requires
        date.wf(),
    ensures
        n == date.day_number(),
{
    NaiveDate::from_ymd_opt(date.year, date.month, date.day).unwrap().num_days_from_ce()
}

/// `NaiveDate::format` with `%Y-%m-%d`: for a year from 0 to 9999 chrono writes
/// four digits, a hyphen, two digits of the month, a hyphen and two digits of
/// the day, each padded with zeros.
#[verifier::external_body]
fn chrono_render(date: Date) -> (s: String)
    requires
        date.wf(),
    ensures
        s@ == date.text(),
{
    NaiveDate::from_ymd_opt(date.year, date.month, date.day).unwrap().format("%Y-%m-%d").to_string()
}

/// `Local::now`, read in local time: the day number of its date
/// (`Datelike::num_days_from_ce`), the seconds since midnight
/// (`Timelike::num_seconds_from_midnight`, which chrono keeps below 86400) and
/// the nanoseconds of the second (`Timelike::nanosecond`, which chrono keeps
/// below 2000000000; from 1000000000 on they stand for a leap second).
/// Nothing else is claimed of the result: it is whatever the clock says.
/// chrono panics where the system clock is set before 1970.
#[verifier::external_body]
fn chrono_local_now() -> (now: Moment)
    ensures
        now.wf(),
{
    let now = Local::now().naive_local();
    Moment {
        day: now.num_days_from_ce(),
        second: now.num_seconds_from_midnight(),
        nanosecond: now.nanosecond(),
    }
}

} // verus!
