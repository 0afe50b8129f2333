//! Calendar dates: validity in the proleptic Gregorian calendar, the step to
//! the previous day, and the two date renderings the notification needs
//! (an RFC 3339 midnight instant and a Japanese year/month/day line).

use vstd::prelude::*;
use vstd::string::StringExecFns;
use crate::decimal::{padded_dec, format_padded};

verus! {

/// A calendar date, held as plain year, month and day fields.
#[derive(Clone, Copy, PartialEq, Eq, Structural, Debug)]
pub struct Date {
    pub year: i32,
    pub month: u32,
    pub day: u32,
}

pub open spec fn is_leap_year(y: int) -> bool {
    (y % 4 == 0 && y % 100 != 0) || y % 400 == 0
}

pub open spec fn days_in_month(y: int, m: int) -> int {
    if m == 2 {
        if is_leap_year(y) {
            29
        } else {
            28
        }
    } else if m == 4 || m == 6 || m == 9 || m == 11 {
        30
    } else {
        31
    }
}

impl Date {
    /// A real calendar date: the month exists and the day exists in it.
    pub open spec fn valid(self) -> bool {
        &&& 1 <= self.month <= 12
        &&& 1 <= self.day <= days_in_month(self.year as int, self.month as int)
    }

    /// Years whose decimal form fits the four-digit year fields below.
    pub open spec fn formattable(self) -> bool {
        0 <= self.year <= 9999
    }
}

/// The day before `d`: one day less, or the last day of the previous month,
/// or the last day of the previous year.
pub open spec fn spec_prev_day(d: Date) -> Date {
    if d.day > 1 {
        Date { year: d.year, month: d.month, day: (d.day - 1) as u32 }
    } else if d.month > 1 {
        Date {
            year: d.year,
            month: (d.month - 1) as u32,
            day: days_in_month(d.year as int, d.month as int - 1) as u32,
        }
    } else {
        Date { year: (d.year - 1) as i32, month: 12, day: 31 }
    }
}

fn days_in_month_exec(y: i32, m: u32) -> (r: u32)
    requires
        0 <= y,
        1 <= m <= 12,
    ensures
        r as int == days_in_month(y as int, m as int),
{
    if m == 2 {
        if (y % 4 == 0 && y % 100 != 0) || y % 400 == 0 {
            29
        } else {
            28
        }
    } else if m == 4 || m == 6 || m == 9 || m == 11 {
        30
    } else {
        31
    }
}

/// Step back one day, across month and year boundaries.
pub fn prev_day(d: Date) -> (r: Date)
    requires
        d.valid(),
        0 <= d.year,
    ensures
        r == spec_prev_day(d),
        r.valid(),
        d.year >= 1 ==> r.year >= 0,
{
    if d.day > 1 {
        Date { year: d.year, month: d.month, day: d.day - 1 }
    } else if d.month > 1 {
        let m = d.month - 1;
        let dim = days_in_month_exec(d.year, m);
        Date { year: d.year, month: m, day: dim }
    } else {
        Date { year: d.year - 1, month: 12, day: 31 }
    }
}

/// The midnight that begins `d`, written as an RFC 3339 instant in UTC.
pub open spec fn rfc3339_midnight(d: Date) -> Seq<char> {
    padded_dec(d.year as nat, 4) + "-"@ + padded_dec(d.month as nat, 2) + "-"@ + padded_dec(
        d.day as nat,
        2,
    ) + "T00:00:00+00:00"@
}

pub fn format_rfc3339_midnight(d: Date) -> (r: String)
    requires
        d.valid(),
        d.formattable(),
    ensures
        r@ == rfc3339_midnight(d),
{
    let mut s = format_padded(d.year as u64, 4);
    s.append("-");
    s.append(format_padded(d.month as u64, 2).as_str());
    s.append("-");
    s.append(format_padded(d.day as u64, 2).as_str());
    s.append("T00:00:00+00:00");
    s
}

/// `d` written as a Japanese calendar-date line, year/month/day zero-padded
/// to four and two digits.
pub open spec fn jp_date(d: Date) -> Seq<char> {
    padded_dec(d.year as nat, 4) + "年"@ + padded_dec(d.month as nat, 2) + "月"@ + padded_dec(
        d.day as nat,
        2,
    ) + "日"@
}

pub fn format_jp_date(d: Date) -> (r: String)
    requires
        d.valid(),
        d.formattable(),
    ensures
        r@ == jp_date(d),
{
    let mut s = format_padded(d.year as u64, 4);
    s.append("年");
    s.append(format_padded(d.month as u64, 2).as_str());
    s.append("月");
    s.append(format_padded(d.day as u64, 2).as_str());
    s.append("日");
    s
}

/// The year, month and day that an RFC 3339 timestamp displays, or `None`
/// where the text is not a valid RFC 3339 timestamp. The answer depends on
/// the characters alone.
pub uninterp spec fn rfc3339_ymd(s: Seq<char>) -> Option<(int, int, int)>;

/// Relies on chrono::DateTime::parse_from_rfc3339 and chrono::Datelike:
/// whether a string parses as an RFC 3339 timestamp, and the year, month and
/// day it then shows, depend on the characters alone; a parsed date is a real
/// calendar date (checked through chrono's NaiveDate) whose year was read
/// from exactly four digits.
#[verifier::external_body]
pub(crate) fn parse_timestamp_date(s: &str) -> (r: Option<Date>)
    ensures
        match r {
            Some(d) => {
                &&& rfc3339_ymd(s@) == Some((d.year as int, d.month as int, d.day as int))
                &&& d.valid()
                &&& d.formattable()
            },
            None => rfc3339_ymd(s@) is None,
        },
{
    match chrono::DateTime::parse_from_rfc3339(s) {
        Ok(t) => Some(
            Date {
                year: chrono::Datelike::year(&t),
                month: chrono::Datelike::month(&t),
                day: chrono::Datelike::day(&t),
            },
        ),
        Err(_) => None,
    }
}

/// Relies on chrono::Utc::now, DateTime::date_naive and chrono::Datelike:
/// the current UTC date is a real calendar date. Nothing more is promised of
/// it; the result follows the wall clock.
#[verifier::external_body]
pub(crate) fn today_utc() -> (d: Date)
    ensures
        d.valid(),
{
    let now = chrono::Utc::now().date_naive();
    Date {
        year: chrono::Datelike::year(&now),
        month: chrono::Datelike::month(&now),
        day: chrono::Datelike::day(&now),
    }
}

} // verus!
