//! Calendar dates and times as plain values.
//!
//! The pages carry dates as `dd/mm/yy` and times as `HH.MM.SS`.  Each
//! numeric field is one or two digits (the formats tolerate unpadded
//! values), separators are fixed, and only real calendar dates — leap
//! years included — parse.  Two-digit years map to 2000–2068 and
//! 1969–1999.  A leap second (`60`) does not parse.

use vstd::prelude::*;
use crate::text::{is_digit, digit_val, check_digit_char};
use chrono::{Datelike, Timelike};

verus! {

/// A calendar date.
#[derive(Debug, Clone, Copy, PartialEq, Eq, Structural)]
pub struct Date {
    pub year: i32,
    pub month: u8,
    pub day: u8,
}

/// A time of day (whole seconds).
#[derive(Debug, Clone, Copy, PartialEq, Eq, Structural)]
pub struct Time {
    pub hour: u8,
    pub minute: u8,
    pub second: u8,
}

/// A calendar date with a time of day.
#[derive(Debug, Clone, Copy, PartialEq, Eq, Structural)]
pub struct DateTime {
    pub date: Date,
    pub time: Time,
}

/// Gregorian leap-year rule.
pub open spec fn is_leap_year(y: int) -> bool {
    y % 4 == 0 && (y % 100 != 0 || y % 400 == 0)
}

/// Days in month `m` of year `y`.
pub open spec fn days_in_month(y: int, m: int) -> int {
    if m == 2 {
        if is_leap_year(y) {
            29
        } else {
            28
        }
    } else if m == 4 || m == 6 || m == 9 || m == 11 {
        30
    } else {
        31
    }
}

impl Date {
    /// A real calendar date.
    pub open spec fn wf(self) -> bool {
        1 <= self.month <= 12 && 1 <= self.day <= days_in_month(
            self.year as int,
            self.month as int,
        )
    }
}

impl Time {
    pub open spec fn wf(self) -> bool {
        self.hour < 24 && self.minute < 60 && self.second < 60
    }
}

impl DateTime {
    pub open spec fn wf(self) -> bool {
        self.date.wf() && self.time.wf()
    }
}

/// Relies on `chrono::Utc::now`: some valid current calendar timestamp.
/// Like that function, this aborts if the system clock reads before the
/// Unix epoch.
#[verifier::external_body]
pub(crate) fn now_utc() -> (r: DateTime)
    ensures
        r.wf(),
{
    let n = chrono::Utc::now().naive_utc();
    DateTime {
        date: Date { year: n.year(), month: n.month() as u8, day: n.day() as u8 },
        time: Time { hour: n.hour() as u8, minute: n.minute() as u8, second: n.second() as u8 },
    }
}

/// Milliseconds between two same-day clock readings, each given as
/// milliseconds since its day's midnight; negative when `now` reads
/// earlier than `start` (the clock wrapped past midnight or moved back).
pub fn get_elapsed_time(start_ms: u64, now_ms: u64) -> (r: i64)
    requires
        start_ms < 86_400_000,
        now_ms < 86_400_000,
    ensures
        r == now_ms - start_ms,
{
    (now_ms as i64) - (start_ms as i64)
}

/// Checks the leap-year rule.
pub fn leap_year(y: i32) -> (r: bool)
    ensures
        r == is_leap_year(y as int),
{
    y % 4 == 0 && (y % 100 != 0 || y % 400 == 0)
}

/// Number of days in month `m` of year `y`.
pub fn month_days(y: i32, m: u8) -> (r: u8)
    ensures
        r as int == days_in_month(y as int, m as int),
{
    if m == 2 {
        if leap_year(y) {
            29
        } else {
            28
        }
    } else if m == 4 || m == 6 || m == 9 || m == 11 {
        30
    } else {
        31
    }
}

/// The one- or two-digit number starting at `i` (greedy, as the formats
/// read unpadded fields) and the index just after it.
pub open spec fn num_scan(s: Seq<char>, i: int) -> Option<(int, int)> {
    if 0 <= i < s.len() && is_digit(s[i]) {
        if i + 1 < s.len() && is_digit(s[i + 1]) {
            Some((digit_val(s[i]) * 10 + digit_val(s[i + 1]), i + 2))
        } else {
            Some((digit_val(s[i]), i + 1))
        }
    } else {
        None
    }
}

/// The full year a two-digit year stands for: `00`–`68` are 2000-based,
/// `69`–`99` are 1900-based.
pub open spec fn expand_year(yy: int) -> int {
    if yy <= 68 {
        2000 + yy
    } else {
        1900 + yy
    }
}

/// The calendar date read at index `i` — `d/m/yy` with one- or two-digit
/// fields, validated against the calendar — and the index just after it.
pub open spec fn date_scan(s: Seq<char>, i: int) -> Option<(Date, int)> {
    match num_scan(s, i) {
        None => None,
        Some((d, j)) => {
            if j < s.len() && s[j] == '/' {
                match num_scan(s, j + 1) {
                    None => None,
                    Some((m, k)) => {
                        if k < s.len() && s[k] == '/' {
                            match num_scan(s, k + 1) {
                                None => None,
                                Some((yy, l)) => {
                                    let y = expand_year(yy);
                                    if 1 <= m <= 12 && 1 <= d <= days_in_month(y, m) {
                                        Some(
                                            (
                                                Date {
                                                    year: y as i32,
                                                    month: m as u8,
                                                    day: d as u8,
                                                },
                                                l,
                                            ),
                                        )
                                    } else {
                                        None
                                    }
                                },
                            }
                        } else {
                            None
                        }
                    },
                }
            } else {
                None
            }
        },
    }
}

/// The time of day read at index `i` — `H.M.S` with one- or two-digit
/// fields, within range — and the index just after it.
pub open spec fn time_scan(s: Seq<char>, i: int) -> Option<(Time, int)> {
    match num_scan(s, i) {
        None => None,
        Some((h, j)) => {
            if j < s.len() && s[j] == '.' {
                match num_scan(s, j + 1) {
                    None => None,
                    Some((mi, k)) => {
                        if k < s.len() && s[k] == '.' {
                            match num_scan(s, k + 1) {
                                None => None,
                                Some((sec, l)) => {
                                    if h < 24 && mi < 60 && sec < 60 {
                                        Some(
                                            (
                                                Time {
                                                    hour: h as u8,
                                                    minute: mi as u8,
                                                    second: sec as u8,
                                                },
                                                l,
                                            ),
                                        )
                                    } else {
                                        None
                                    }
                                },
                            }
                        } else {
                            None
                        }
                    },
                }
            } else {
                None
            }
        },
    }
}

/// The date a whole `dd/mm/yy` string denotes.
pub open spec fn spec_parse_date(s: Seq<char>) -> Option<Date> {
    match date_scan(s, 0) {
        Some((d, j)) => if j == s.len() {
            Some(d)
        } else {
            None
        },
        None => None,
    }
}

/// The time of day a whole `HH.MM.SS` string denotes.
pub open spec fn spec_parse_time(s: Seq<char>) -> Option<Time> {
    match time_scan(s, 0) {
        Some((t, j)) => if j == s.len() {
            Some(t)
        } else {
            None
        },
        None => None,
    }
}

/// The timestamp a whole string denotes: `dd/mm/yy HH.MM.SS` first, and
/// failing that `dd/mm/yy - HH.MM.SS`.
pub open spec fn spec_parse_datetime(s: Seq<char>) -> Option<DateTime> {
    match date_scan(s, 0) {
        None => None,
        Some((d, j)) => {
            let plain = if j < s.len() && s[j] == ' ' {
                match time_scan(s, j + 1) {
                    Some((t, l)) => if l == s.len() {
                        Some(DateTime { date: d, time: t })
                    } else {
                        None
                    },
                    None => None,
                }
            } else {
                None
            };
            match plain {
                Some(dt) => Some(dt),
                None => {
                    if j + 3 <= s.len() && s[j] == ' ' && s[j + 1] == '-' && s[j + 2] == ' ' {
                        match time_scan(s, j + 3) {
                            Some((t, l)) => if l == s.len() {
                                Some(DateTime { date: d, time: t })
                            } else {
                                None
                            },
                            None => None,
                        }
                    } else {
                        None
                    }
                },
            }
        },
    }
}

/// Reads a one- or two-digit number at index `i`.
fn scan_num(v: &Vec<char>, i: usize) -> (r: Option<(u8, usize)>)
    ensures
        match r {
            Some(p) => num_scan(v@, i as int) == Some((p.0 as int, p.1 as int)) && i < p.1
                <= v@.len(),
            None => num_scan(v@, i as int) is None,
        },
{
    let n = v.len();
    if i >= n || !check_digit_char(v[i]) {
        return None;
    }
    let d0: u8 = ((v[i] as u32) - 48) as u8;
    if i + 1 < n && check_digit_char(v[i + 1]) {
        let d1: u8 = ((v[i + 1] as u32) - 48) as u8;
        Some((d0 * 10 + d1, i + 2))
    } else {
        Some((d0, i + 1))
    }
}

/// Reads a `d/m/yy` calendar date at index `i`.
fn scan_date(v: &Vec<char>, i: usize) -> (r: Option<(Date, usize)>)
    ensures
        match r {
            Some(p) => date_scan(v@, i as int) == Some((p.0, p.1 as int)) && p.1 <= v@.len()
                && p.0.wf(),
            None => date_scan(v@, i as int) is None,
        },
{
    let (day, j) = match scan_num(v, i) {
        Some(p) => p,
        None => {
            return None;
        },
    };
    if !(j < v.len() && v[j] == '/') {
        return None;
    }
    let (month, k) = match scan_num(v, j + 1) {
        Some(p) => p,
        None => {
            return None;
        },
    };
    if !(k < v.len() && v[k] == '/') {
        return None;
    }
    let (yy, l) = match scan_num(v, k + 1) {
        Some(p) => p,
        None => {
            return None;
        },
    };
    let year: i32 = if yy <= 68 {
        2000 + (yy as i32)
    } else {
        1900 + (yy as i32)
    };
    if 1 <= month && month <= 12 && 1 <= day && day <= month_days(year, month) {
        Some((Date { year, month, day }, l))
    } else {
        None
    }
}

/// Reads an `H.M.S` time of day at index `i`.
fn scan_time(v: &Vec<char>, i: usize) -> (r: Option<(Time, usize)>)
    ensures
        match r {
            Some(p) => time_scan(v@, i as int) == Some((p.0, p.1 as int)) && p.1 <= v@.len()
                && p.0.wf(),
            None => time_scan(v@, i as int) is None,
        },
{
    let (hour, j) = match scan_num(v, i) {
        Some(p) => p,
        None => {
            return None;
        },
    };
    if !(j < v.len() && v[j] == '.') {
        return None;
    }
    let (minute, k) = match scan_num(v, j + 1) {
        Some(p) => p,
        None => {
            return None;
        },
    };
    if !(k < v.len() && v[k] == '.') {
        return None;
    }
    let (second, l) = match scan_num(v, k + 1) {
        Some(p) => p,
        None => {
            return None;
        },
    };
    if hour < 24 && minute < 60 && second < 60 {
        Some((Time { hour, minute, second }, l))
    } else {
        None
    }
}

/// Parses a `dd/mm/yy` date, validating it against the calendar.
pub fn parse_date(v: &Vec<char>) -> (r: Option<Date>)
    ensures
        r == spec_parse_date(v@),
{
    match scan_date(v, 0) {
        Some((d, j)) => if j == v.len() {
            Some(d)
        } else {
            None
        },
        None => None,
    }
}

/// Parses an `HH.MM.SS` time of day.
pub fn parse_time(v: &Vec<char>) -> (r: Option<Time>)
    ensures
        r == spec_parse_time(v@),
{
    match scan_time(v, 0) {
        Some((t, j)) => if j == v.len() {
            Some(t)
        } else {
            None
        },
        None => None,
    }
}

/// Parses a timestamp, trying `dd/mm/yy HH.MM.SS` first and
/// `dd/mm/yy - HH.MM.SS` second.
pub fn parse_datetime(v: &Vec<char>) -> (r: Option<DateTime>)
    ensures
        r == spec_parse_datetime(v@),
{
    let (date, j) = match scan_date(v, 0) {
        Some(p) => p,
        None => {
            return None;
        },
    };
    if j < v.len() && v[j] == ' ' {
        match scan_time(v, j + 1) {
            Some((t, l)) => {
                if l == v.len() {
                    return Some(DateTime { date, time: t });
                }
            },
            None => {},
        }
    }
    if v.len() - j >= 3 && v[j] == ' ' && v[j + 1] == '-' && v[j + 2] == ' ' {
        match scan_time(v, j + 3) {
            Some((t, l)) => {
                if l == v.len() {
                    return Some(DateTime { date, time: t });
                }
            },
            None => {},
        }
    }
    None
}

} // verus!
