//! The proleptic Gregorian calendar as plain arithmetic, and the calls into
//! `chrono` that the library makes for dates.

use chrono::{Datelike, NaiveDate};
use std::fmt::Write;
use vstd::prelude::*;

verus! {

/// The first year that `chrono` has dates for.
pub const MIN_YEAR: i32 = -262_143;

/// The last year that `chrono` has dates for.
pub const MAX_YEAR: i32 = 262_142;

/// Every fourth year is a leap year, except the centuries that 400 does not
/// divide. Year 0 and the years before it follow the same rule.
pub open spec fn is_leap_year(year: int) -> bool {
    year % 4 == 0 && (year % 100 != 0 || year % 400 == 0)
}

/// The number of days of a month, 1 for January to 12 for December.
pub open spec fn days_in_month(year: int, month: int) -> int {
    if month == 2 {
        if is_leap_year(year) {
            29
        } else {
            28
        }
    } else if month == 4 || month == 6 || month == 9 || month == 11 {
        30
    } else {
        31
    }
}

/// `year`, `month` and `day` name a day of the calendar that `chrono` can hold.
pub open spec fn is_calendar_date(year: int, month: int, day: int) -> bool {
    &&& MIN_YEAR <= year <= MAX_YEAR
    &&& 1 <= month <= 12
    &&& 1 <= day <= days_in_month(year, month)
}

/// The date exists and a day before it does too: every date but the first
/// of them has one.
pub open spec fn has_day_before(year: int, month: int, day: int) -> bool {
    is_calendar_date(year, month, day) && !(year == MIN_YEAR && month == 1 && day == 1)
}

/// The day of the month of the day before `year`-`month`-`day`.
pub open spec fn day_number_before(year: int, month: int, day: int) -> int {
    if day > 1 {
        day - 1
    } else if month > 1 {
        days_in_month(year, month - 1)
    } else {
        31
    }
}

/// The days of `year` that lie before the first of `month`.
pub open spec fn days_before_month(year: int, month: int) -> int
    decreases month,
{
    if month <= 1 {
        0
    } else {
        days_before_month(year, month - 1) + days_in_month(year, month - 1)
    }
}

/// The leap years from year 1 up to, not including, `year` (negative for
/// years before that).
pub open spec fn leap_years_before(year: int) -> int {
    (year - 1) / 4 - (year - 1) / 100 + (year - 1) / 400
}

/// The days from 1 January 1970 to 1 January of `year`.
pub open spec fn days_before_year(year: int) -> int {
    365 * (year - 1970) + leap_years_before(year) - leap_years_before(1970)
}

/// The days from 1 January 1970 to `year`-`month`-`day`.
pub open spec fn days_since_epoch(year: int, month: int, day: int) -> int {
    days_before_year(year) + days_before_month(year, month) + day - 1
}

/// The date exists and the time of day lies between 00:00:00 and 23:59:59.
pub open spec fn is_date_and_time(
    year: int,
    month: int,
    day: int,
    hour: int,
    minute: int,
    second: int,
) -> bool {
    &&& is_calendar_date(year, month, day)
    &&& 0 <= hour < 24
    &&& 0 <= minute < 60
    &&& 0 <= second < 60
}

/// The seconds from 1 January 1970, 00:00:00, to a date and time of day,
/// with 86400 seconds to every day.
pub open spec fn seconds_since_epoch(
    year: int,
    month: int,
    day: int,
    hour: int,
    minute: int,
    second: int,
) -> int {
    86400 * days_since_epoch(year, month, day) + 3600 * hour + 60 * minute + second
}

/// The day of the month of the day before a date.
///
/// Calls `NaiveDate::from_ymd_opt`, `NaiveDate::pred_opt` and
/// `Datelike::day` of `chrono`. Trusted: there is a result exactly when the
/// date exists and is not the first one that `chrono` can hold, and the
/// result is the day number of the previous day of the proleptic Gregorian
/// calendar.
#[verifier::external_body]
pub(crate) fn day_before(year: i32, month: u32, day: u32) -> (r: Option<u32>)
    ensures
        r is Some <==> has_day_before(year as int, month as int, day as int),
        r matches Some(d) ==> d == day_number_before(year as int, month as int, day as int),
{
    match NaiveDate::from_ymd_opt(year, month, day) {
        Some(date) => match date.pred_opt() {
            Some(previous) => Some(previous.day()),
            None => None,
        },
        None => None,
    }
}

/// The Unix timestamp of a date and time of day in UTC.
///
/// Calls `NaiveDate::from_ymd_opt`, `NaiveDate::and_hms_opt`,
/// `NaiveDateTime::and_utc` and `DateTime::timestamp` of `chrono`. Trusted:
/// there is a result exactly when the date exists and the time of day is
/// below 24:00:00, and the result counts 86400 seconds for each day since
/// 1 January 1970 plus the seconds since midnight.
#[verifier::external_body]
pub(crate) fn utc_timestamp(
    year: i32,
    month: u32,
    day: u32,
    hour: u32,
    minute: u32,
    second: u32,
) -> (r: Option<i64>)
    ensures
        r is Some <==> is_date_and_time(
            year as int,
            month as int,
            day as int,
            hour as int,
            minute as int,
            second as int,
        ),
        r matches Some(t) ==> t == seconds_since_epoch(
            year as int,
            month as int,
            day as int,
            hour as int,
            minute as int,
            second as int,
        ),
{
    match NaiveDate::from_ymd_opt(year, month, day) {
        Some(date) => match date.and_hms_opt(hour, minute, second) {
            Some(time) => Some(time.and_utc().timestamp()),
            None => None,
        },
        None => None,
    }
}

/// What `chrono` writes for a date and time of day under a `strftime`
/// pattern; `None` where the date or the time does not exist or the pattern
/// is not one that `chrono` accepts for a date and time.
pub uninterp spec fn formatted_date_time(
    year: int,
    month: int,
    day: int,
    hour: int,
    minute: int,
    second: int,
    pattern: Seq<char>,
) -> Option<Seq<char>>;

/// The characters of an optional text.
pub open spec fn text_of(text: Option<String>) -> Option<Seq<char>> {
    match text {
        Some(t) => Some(t@),
        None => None,
    }
}

/// A date and time of day written out under a `strftime` pattern.
///
/// Calls `NaiveDate::from_ymd_opt`, `NaiveDate::and_hms_opt` and
/// `NaiveDateTime::format` of `chrono`, and writes the result into a
/// `String`. Trusted: the text depends on the seven arguments alone, and
/// there is none unless the date and the time of day exist.
#[verifier::external_body]
pub(crate) fn format_date_time(
    year: i32,
    month: u32,
    day: u32,
    hour: u32,
    minute: u32,
    second: u32,
    pattern: &str,
) -> (r: Option<String>)
    ensures
        text_of(r) == formatted_date_time(
            year as int,
            month as int,
            day as int,
            hour as int,
            minute as int,
            second as int,
            pattern@,
        ),
        r is Some ==> is_date_and_time(
            year as int,
            month as int,
            day as int,
            hour as int,
            minute as int,
            second as int,
        ),
{
    let time = NaiveDate::from_ymd_opt(year, month, day)?.and_hms_opt(hour, minute, second)?;
    let mut text = String::new();
    match write!(text, "{}", time.format(pattern)) {
        Ok(()) => Some(text),
        Err(_) => None,
    }
}

/// A year has 365 days before its last month's end, one more in a leap year:
/// the days before each month, written out.
pub proof fn lemma_days_before_month(year: int, month: int)
    requires
        1 <= month <= 13,
    ensures
        0 <= days_before_month(year, month) <= 366,
        month <= 12 ==> days_before_month(year, month) + days_in_month(year, month) <= 366,
        days_before_month(year, 13) == if is_leap_year(year) {
            366int
        } else {
            365int
        },
{
    reveal_with_fuel(days_before_month, 14);
}

} // verus!
