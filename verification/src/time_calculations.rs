//! How much of the current minute, hour, day, month and year has gone by,
//! computed from one reading of the clock.

use crate::calendar::{
    day_before, days_before_month, days_before_year, days_in_month, days_since_epoch,
    is_calendar_date, is_leap_year, lemma_days_before_month, utc_timestamp, MAX_YEAR, MIN_YEAR,
};
use crate::percentage::{lemma_same_span_ahead_by, Percentage, Ratio};
use crate::progress_bars::TimeProgressBar;
use chrono::{Datelike, Local, Timelike, Utc};
use vstd::prelude::*;

verus! {

pub const SECONDS_IN_DAY: u32 = 86400;

/// The year's length that the year percentage is measured against: 365
/// days, in leap years too.
pub const SECONDS_IN_YEAR: u32 = 31536000;

pub const MILLIS_IN_MINUTE: u64 = 60_000;

pub const MILLIS_IN_HOUR: u64 = 3_600_000;

pub const MILLIS_IN_DAY: u64 = 86_400_000;

/// One reading of the clock, as plain numbers: the local time of day and day
/// of the month, and the same instant's date and Unix timestamp in UTC.
#[derive(Clone, Copy, Debug, PartialEq, Eq, Structural)]
pub struct ClockReading {
    /// Year of the local date.
    pub year: i32,
    /// Month of the local date, 1 to 12.
    pub month: u32,
    /// Local day of the month, from 1.
    pub day: u32,
    /// Local hour of the day, 0 to 23.
    pub hour: u32,
    /// Local minute of the hour, 0 to 59.
    pub minute: u32,
    /// Local second of the minute, 0 to 59.
    pub second: u32,
    /// Milliseconds since the last full second, 0 to 999.
    pub millis: u32,
    /// Year of the UTC date.
    pub utc_year: i32,
    /// Month of the UTC date, 1 to 12.
    pub utc_month: u32,
    /// Day of the month of the UTC date, from 1.
    pub utc_day: u32,
    /// Seconds since 1 January 1970, 00:00:00 UTC.
    pub utc_timestamp: i64,
}

impl ClockReading {
    /// Every field but the years lies in the range that a clock shows.
    pub open spec fn in_clock_ranges(self) -> bool {
        &&& 1 <= self.month <= 12
        &&& 1 <= self.day <= 31
        &&& self.hour < 24
        &&& self.minute < 60
        &&& self.second < 60
        &&& self.millis < 1000
        &&& 1 <= self.utc_month <= 12
        &&& 1 <= self.utc_day <= 31
    }

    /// The reading can be the reading of an instant: the fields are in range,
    /// the local date and the UTC date exist, and the timestamp falls on the
    /// UTC date. The last year of the calendar is left out, since the month
    /// after its December has no date.
    pub open spec fn is_valid(self) -> bool {
        &&& self.in_clock_ranges()
        &&& is_calendar_date(self.year as int, self.month as int, self.day as int)
        &&& is_calendar_date(self.utc_year as int, self.utc_month as int, self.utc_day as int)
        &&& self.utc_year < MAX_YEAR
        &&& 0 <= self.utc_timestamp - SECONDS_IN_DAY * days_since_epoch(
            self.utc_year as int,
            self.utc_month as int,
            self.utc_day as int,
        ) < SECONDS_IN_DAY
    }

    /// Milliseconds since the local minute began.
    pub open spec fn millis_into_minute(self) -> int {
        self.second * 1000 + self.millis
    }

    /// Milliseconds since the local hour began.
    pub open spec fn millis_into_hour(self) -> int {
        self.minute * MILLIS_IN_MINUTE + self.millis_into_minute()
    }

    /// Milliseconds since local midnight.
    pub open spec fn millis_into_day(self) -> int {
        self.hour * MILLIS_IN_HOUR + self.millis_into_hour()
    }

    /// Milliseconds since local midnight of the first day of the month.
    pub open spec fn millis_into_month(self) -> int {
        (self.day - 1) * MILLIS_IN_DAY + self.millis_into_day()
    }

    /// Seconds since 1 January of the UTC year, 00:00:00 UTC.
    pub open spec fn seconds_into_year(self) -> int {
        self.utc_timestamp - SECONDS_IN_DAY * days_before_year(self.utc_year as int)
    }

    /// The share of the minute that has gone by.
    pub open spec fn minute_ratio(self) -> Ratio {
        Ratio { elapsed: self.millis_into_minute() as nat, span: MILLIS_IN_MINUTE as nat }
    }

    /// The share of the hour that has gone by.
    pub open spec fn hour_ratio(self) -> Ratio {
        Ratio { elapsed: self.millis_into_hour() as nat, span: MILLIS_IN_HOUR as nat }
    }

    /// The share of the day that has gone by.
    pub open spec fn day_ratio(self) -> Ratio {
        Ratio { elapsed: self.millis_into_day() as nat, span: MILLIS_IN_DAY as nat }
    }

    /// The share of the month that has gone by: the local time since the
    /// month began, against the length of the month of the UTC date.
    pub open spec fn month_ratio(self) -> Ratio {
        Ratio {
            elapsed: self.millis_into_month() as nat,
            span: (days_in_month(self.utc_year as int, self.utc_month as int) * MILLIS_IN_DAY) as nat,
        }
    }

    /// The share of the year that has gone by, against a year of 365 days.
    pub open spec fn year_ratio(self) -> Ratio {
        Ratio { elapsed: self.seconds_into_year() as nat, span: SECONDS_IN_YEAR as nat }
    }
}

/// Reads the clock once.
///
/// Calls `Utc::now` of `chrono`, `DateTime::with_timezone` for the local
/// time zone, and the field getters of `Datelike`, `Timelike` and
/// `DateTime`. Trusted: months, days, hours, minutes and seconds lie in the
/// ranges that `chrono` documents for their getters, and the milliseconds
/// stay below 1000, since the system clock shows no leap second. Nothing is
/// claimed of the years, nor of which instant was read.
#[verifier::external_body]
fn read_clock() -> (r: ClockReading)
    ensures
        r.in_clock_ranges(),
{
    let utc = Utc::now();
    let local = utc.with_timezone(&Local);
    ClockReading {
        year: local.year(),
        month: local.month(),
        day: local.day(),
        hour: local.hour(),
        minute: local.minute(),
        second: local.second(),
        millis: local.timestamp_subsec_millis(),
        utc_year: utc.year(),
        utc_month: utc.month(),
        utc_day: utc.day(),
        utc_timestamp: utc.timestamp(),
    }
}

/// A clock reading that is known to be valid: the instant from which all
/// five percentages of one tick are computed.
#[derive(Clone, Copy, Debug)]
pub struct TimeSnapshot {
    reading: ClockReading,
}

impl View for TimeSnapshot {
    type V = ClockReading;

    closed spec fn view(&self) -> ClockReading {
        self.reading
    }
}

impl TimeSnapshot {
    #[verifier::type_invariant]
    spec fn reading_is_valid(self) -> bool {
        self.reading.is_valid()
    }

    /// The snapshot of a reading, if the reading is valid.
    pub fn new(reading: ClockReading) -> (r: Option<TimeSnapshot>)
        ensures
            r is Some <==> reading.is_valid(),
            r matches Some(snapshot) ==> snapshot@ == reading,
    {
        if reading.millis >= 1000 || reading.utc_year >= MAX_YEAR {
            return None;
        }
        let local = utc_timestamp(
            reading.year,
            reading.month,
            reading.day,
            reading.hour,
            reading.minute,
            reading.second,
        );
        if local.is_none() {
            return None;
        }
        match utc_timestamp(reading.utc_year, reading.utc_month, reading.utc_day, 0, 0, 0) {
            None => None,
            Some(midnight) => {
                proof {
                    lemma_days_since_epoch_bounds(
                        reading.utc_year as int,
                        reading.utc_month as int,
                        reading.utc_day as int,
                    );
                }
                if midnight <= reading.utc_timestamp && reading.utc_timestamp < midnight
                    + SECONDS_IN_DAY as i64 {
                    Some(TimeSnapshot { reading })
                } else {
                    None
                }
            },
        }
    }

    /// A snapshot of the present instant, from one reading of the clock;
    /// `None` where what the clock shows is not a valid reading.
    pub fn now() -> (r: Option<TimeSnapshot>)
        ensures
            r matches Some(snapshot) ==> snapshot@.is_valid(),
    {
        TimeSnapshot::new(read_clock())
    }

    /// The reading that the snapshot was made of.
    pub fn reading(&self) -> (r: ClockReading)
        ensures
            r == self@,
            r.is_valid(),
    {
        proof {
            use_type_invariant(self);
        }
        self.reading
    }
}

/// Every date of the calendar lies within a hundred million days of
/// 1 January 1970.
pub proof fn lemma_days_since_epoch_bounds(year: int, month: int, day: int)
    requires
        is_calendar_date(year, month, day),
    ensures
        -100_000_000 < days_since_epoch(year, month, day) < 100_000_000,
        days_before_year(year) <= days_since_epoch(year, month, day) < days_before_year(year)
            + 366,
        !(is_leap_year(year) && month == 12 && day == 31) ==> days_since_epoch(year, month, day)
            < days_before_year(year) + 365,
{
    lemma_days_before_month(year, month);
    lemma_days_before_month(year, 13);
    reveal_with_fuel(days_before_month, 14);
}

/// Milliseconds since the local minute began.
fn millis_since_minute(reading: &ClockReading) -> (millis: u64)
    requires
        reading.in_clock_ranges(),
    ensures
        millis == reading.millis_into_minute(),
{
    reading.second as u64 * 1000 + reading.millis as u64
}

/// Milliseconds since the local hour began.
fn millis_since_hour(reading: &ClockReading) -> (millis: u64)
    requires
        reading.in_clock_ranges(),
    ensures
        millis == reading.millis_into_hour(),
{
    reading.minute as u64 * MILLIS_IN_MINUTE + millis_since_minute(reading)
}

/// Milliseconds since local midnight.
fn millis_since_midnight(reading: &ClockReading) -> (millis: u64)
    requires
        reading.in_clock_ranges(),
    ensures
        millis == reading.millis_into_day(),
{
    reading.hour as u64 * MILLIS_IN_HOUR + millis_since_hour(reading)
}

/// The share of the minute that has gone by: seconds and milliseconds of the
/// local time, out of 60 seconds.
pub fn get_percentage_minute_left(now: &TimeSnapshot) -> (p: Percentage)
    ensures
        p@ == now@.minute_ratio(),
{
    let reading = now.reading();
    Percentage::new(millis_since_minute(&reading), MILLIS_IN_MINUTE).unwrap()
}

/// The share of the hour that has gone by: minutes, seconds and milliseconds
/// of the local time, out of 3600 seconds.
pub fn get_percentage_hour_left(now: &TimeSnapshot) -> (p: Percentage)
    ensures
        p@ == now@.hour_ratio(),
{
    let reading = now.reading();
    Percentage::new(millis_since_hour(&reading), MILLIS_IN_HOUR).unwrap()
}

/// The share of the day that has gone by: the local time of day, out of
/// 86400 seconds.
pub fn get_percentage_day_left(now: &TimeSnapshot) -> (p: Percentage)
    ensures
        p@ == now@.day_ratio(),
{
    let reading = now.reading();
    Percentage::new(millis_since_midnight(&reading), MILLIS_IN_DAY).unwrap()
}

/// The share of the month that has gone by: the local time since midnight of
/// the first of the month, out of the length of the month of the UTC date.
///
/// Around the turn of a month the local date and the UTC date can lie in
/// different months; the percentage is then measured against the length of
/// the UTC month all the same, and may exceed one hundred.
pub fn get_percentage_month_left(now: &TimeSnapshot) -> (p: Percentage)
    ensures
        p@ == now@.month_ratio(),
{
    let reading = now.reading();
    let elapsed: u64 = (reading.day as u64 - 1) * MILLIS_IN_DAY
        + millis_since_midnight(&reading);
    let span: u64 = seconds_in_month(reading.utc_year, reading.utc_month) as u64 * 1000;
    Percentage::new(elapsed, span).unwrap()
}

/// The share of the year that has gone by: the seconds since 1 January of
/// the UTC year, 00:00:00 UTC, out of 365 days.
///
/// In a leap year the year is a day longer than that, and on its last day
/// the percentage is above one hundred.
pub fn get_percentage_year_left(now: &TimeSnapshot) -> (p: Percentage)
    ensures
        p@ == now@.year_ratio(),
{
    let reading = now.reading();
    let start_of_year: i64 = utc_timestamp(reading.utc_year, 1, 1, 0, 0, 0).unwrap();
    proof {
        lemma_days_since_epoch_bounds(
            reading.utc_year as int,
            reading.utc_month as int,
            reading.utc_day as int,
        );
        lemma_days_since_epoch_bounds(reading.utc_year as int, 1, 1);
        reveal_with_fuel(days_before_month, 2);
    }
    let seconds_passed_this_year: i64 = reading.utc_timestamp - start_of_year;
    Percentage::new(seconds_passed_this_year as u64, SECONDS_IN_YEAR as u64).unwrap()
}

/// The length of a month in seconds.
///
/// The length in days is the day number of the day before the first of the
/// following month; the month after December is January of the next year.
pub fn seconds_in_month(year: i32, month: u32) -> (seconds: u32)
    requires
        MIN_YEAR <= year <= MAX_YEAR,
        1 <= month <= 12,
        year < MAX_YEAR || month < 12,
    ensures
        seconds == days_in_month(year as int, month as int) * SECONDS_IN_DAY,
{
    let (y, m): (i32, u32) = if month == 12 {
        (year + 1, 1)
    } else {
        (year, month + 1)
    };
    let last_day: u32 = day_before(y, m, 1).unwrap();
    last_day * SECONDS_IN_DAY
}

/// The lengths of the twelve months by which the day of the year is
/// counted. February has 28 days in every year.
pub open spec fn month_length_table() -> Seq<u32> {
    seq![31u32, 28u32, 31u32, 30u32, 31u32, 30u32, 31u32, 31u32, 30u32, 31u32, 30u32, 31u32]
}

/// The sum of the table's lengths of the months before `month`.
pub open spec fn table_days_before(month: int) -> int
    decreases month,
{
    if month <= 1 || month > 13 {
        0
    } else {
        table_days_before(month - 1) + month_length_table()[month - 2]
    }
}

/// The day of the year as the table counts it: the days of the months
/// before, plus the day of the month.
pub open spec fn day_of_year_of(month: int, day: int) -> int {
    table_days_before(month) + day
}

/// The day of the year of the UTC date, counted with a February of 28 days
/// in every year: from 1 March of a leap year on, the result is one less
/// than the calendar's.
pub fn get_current_day_of_year(now: &TimeSnapshot) -> (day_of_year: u32)
    ensures
        day_of_year == day_of_year_of(now@.utc_month as int, now@.utc_day as int),
        1 <= day_of_year <= 365,
{
    let reading = now.reading();
    let month_length_days: Vec<u32> = vec![31, 28, 31, 30, 31, 30, 31, 31, 30, 31, 30, 31];
    assert(month_length_days@ =~= month_length_table());
    let this_month: u32 = reading.utc_month - 1;
    let this_day: u32 = reading.utc_day;
    let mut month_ticker: usize = 0;
    let mut day_ticker: u32 = 0;
    while month_ticker < this_month as usize
        invariant
            month_ticker <= this_month <= 11,
            month_length_days@ == month_length_table(),
            day_ticker == table_days_before(month_ticker + 1),
            day_ticker <= 31 * month_ticker,
        decreases this_month - month_ticker,
    {
        day_ticker = day_ticker + month_length_days[month_ticker];
        month_ticker += 1;
    }
    proof {
        lemma_table_matches_common_year(reading.utc_year as int, reading.utc_month as int);
    }
    day_ticker = day_ticker + this_day;
    day_ticker
}

/// Up to February the table counts as the calendar does; later in the year
/// it is one day short in a leap year. Counted by the table, the last day
/// of a month is at most day 365, and 29 February is day 60.
pub proof fn lemma_table_matches_common_year(year: int, month: int)
    requires
        1 <= month <= 12,
    ensures
        table_days_before(month) == days_before_month(year, month) - if is_leap_year(year)
            && month > 2 {
            1int
        } else {
            0int
        },
        table_days_before(month) + days_in_month(year, month) <= 365 + if is_leap_year(year)
            && month == 2 {
            1int
        } else {
            0int
        },
{
    reveal_with_fuel(table_days_before, 14);
    reveal_with_fuel(days_before_month, 14);
}

/// `bar` shows `ratio` under `label`.
pub open spec fn is_metric(bar: TimeProgressBar, label: Seq<char>, ratio: Ratio) -> bool {
    bar.prefix@ == label && bar.percentage@ == ratio
}

/// `bars` are the five metrics of `reading`, in the order minute, hour, day,
/// month, year.
pub open spec fn are_metrics_of(bars: Seq<TimeProgressBar>, reading: ClockReading) -> bool {
    &&& bars.len() == 5
    &&& is_metric(bars[0], " M "@, reading.minute_ratio())
    &&& is_metric(bars[1], " H "@, reading.hour_ratio())
    &&& is_metric(bars[2], " D "@, reading.day_ratio())
    &&& is_metric(bars[3], " M "@, reading.month_ratio())
    &&& is_metric(bars[4], " Y "@, reading.year_ratio())
}

/// The five metrics of one snapshot, each with its label.
pub fn compute_metrics(now: &TimeSnapshot) -> (bars: Vec<TimeProgressBar>)
    ensures
        are_metrics_of(bars@, now@),
{
    let mut bars: Vec<TimeProgressBar> = Vec::new();
    bars.push(TimeProgressBar::new(get_percentage_minute_left(now), String::from_str(" M ")));
    bars.push(TimeProgressBar::new(get_percentage_hour_left(now), String::from_str(" H ")));
    bars.push(TimeProgressBar::new(get_percentage_day_left(now), String::from_str(" D ")));
    bars.push(TimeProgressBar::new(get_percentage_month_left(now), String::from_str(" M ")));
    bars.push(TimeProgressBar::new(get_percentage_year_left(now), String::from_str(" Y ")));
    bars
}

/// Reads the clock once and computes the five metrics from that reading;
/// `None` where the clock shows what no calendar date can be.
pub fn sample_and_compute_metrics() -> (r: Option<Vec<TimeProgressBar>>)
    ensures
        r matches Some(bars) ==> exists|reading: ClockReading|
            reading.is_valid() && are_metrics_of(bars@, reading),
{
    match TimeSnapshot::now() {
        Some(now) => {
            let bars = compute_metrics(&now);
            proof {
                use_type_invariant(&now);
                assert(now@.is_valid() && are_metrics_of(bars@, now@));
            }
            Some(bars)
        },
        None => None,
    }
}

/// No percentage is negative, and away from two boundaries every one is
/// below one hundred.
///
/// The minute, hour and day percentages always are. The month percentage is
/// while the local day of the month is a day of the UTC month; the two
/// differ around the turn of a month, where the local date and the UTC date
/// lie in different months. The year percentage is on every day but
/// 31 December of a leap year, the day that a year of 365 days does not have.
pub proof fn lemma_percentages_in_range(reading: ClockReading)
    requires
        reading.is_valid(),
    ensures
        reading.millis_into_minute() >= 0 && reading.minute_ratio().below_whole(),
        reading.millis_into_hour() >= 0 && reading.hour_ratio().below_whole(),
        reading.millis_into_day() >= 0 && reading.day_ratio().below_whole(),
        reading.millis_into_month() >= 0,
        reading.day <= days_in_month(reading.utc_year as int, reading.utc_month as int)
            ==> reading.month_ratio().below_whole(),
        reading.seconds_into_year() >= 0,
        !(is_leap_year(reading.utc_year as int) && reading.utc_month == 12 && reading.utc_day
            == 31) ==> reading.year_ratio().below_whole(),
{
    lemma_days_since_epoch_bounds(
        reading.utc_year as int,
        reading.utc_month as int,
        reading.utc_day as int,
    );
}

/// Within one minute, a clock that is `delta` milliseconds further on shows
/// a minute percentage that is `delta / 60000 * 100` higher.
pub proof fn lemma_minute_advances(earlier: ClockReading, later: ClockReading, delta: nat)
    requires
        earlier.is_valid(),
        later.is_valid(),
        later.millis_into_minute() == earlier.millis_into_minute() + delta,
    ensures
        later.minute_ratio().ahead_by(
            earlier.minute_ratio(),
            delta,
            MILLIS_IN_MINUTE as nat,
        ),
{
    lemma_same_span_ahead_by(earlier.minute_ratio(), later.minute_ratio(), delta);
}

/// Within one hour, a clock that is `delta` milliseconds further on shows an
/// hour percentage that is `delta / 3600000 * 100` higher.
pub proof fn lemma_hour_advances(earlier: ClockReading, later: ClockReading, delta: nat)
    requires
        earlier.is_valid(),
        later.is_valid(),
        later.millis_into_hour() == earlier.millis_into_hour() + delta,
    ensures
        later.hour_ratio().ahead_by(
            earlier.hour_ratio(),
            delta,
            MILLIS_IN_HOUR as nat,
        ),
{
    lemma_same_span_ahead_by(earlier.hour_ratio(), later.hour_ratio(), delta);
}

/// Within one day, a clock that is `delta` milliseconds further on shows a
/// day percentage that is `delta / 86400000 * 100` higher.
pub proof fn lemma_day_advances(earlier: ClockReading, later: ClockReading, delta: nat)
    requires
        earlier.is_valid(),
        later.is_valid(),
        later.millis_into_day() == earlier.millis_into_day() + delta,
    ensures
        later.day_ratio().ahead_by(earlier.day_ratio(), delta, MILLIS_IN_DAY as nat),
{
    lemma_same_span_ahead_by(earlier.day_ratio(), later.day_ratio(), delta);
}

/// Within one month of one year, a clock that is `delta` milliseconds further
/// on shows a month percentage that is higher by `delta` over the month's
/// length in milliseconds, times one hundred.
pub proof fn lemma_month_advances(earlier: ClockReading, later: ClockReading, delta: nat)
    requires
        earlier.is_valid(),
        later.is_valid(),
        later.utc_year == earlier.utc_year,
        later.utc_month == earlier.utc_month,
        later.millis_into_month() == earlier.millis_into_month() + delta,
    ensures
        later.month_ratio().ahead_by(
            earlier.month_ratio(),
            delta,
            (days_in_month(earlier.utc_year as int, earlier.utc_month as int) * MILLIS_IN_DAY) as nat,
        ),
{
    lemma_same_span_ahead_by(earlier.month_ratio(), later.month_ratio(), delta);
}

/// Within one year, a clock that is `delta` seconds further on shows a year
/// percentage that is `delta / 31536000 * 100` higher.
pub proof fn lemma_year_advances(earlier: ClockReading, later: ClockReading, delta: nat)
    requires
        earlier.is_valid(),
        later.is_valid(),
        later.utc_year == earlier.utc_year,
        later.utc_timestamp == earlier.utc_timestamp + delta,
    ensures
        later.year_ratio().ahead_by(earlier.year_ratio(), delta, SECONDS_IN_YEAR as nat),
{
    lemma_percentages_in_range(earlier);
    lemma_percentages_in_range(later);
    lemma_same_span_ahead_by(earlier.year_ratio(), later.year_ratio(), delta);
}

/// The year of the UTC date.
pub fn get_current_year(now: &TimeSnapshot) -> (year: i32)
    ensures
        year == now@.utc_year,
{
    now.reading().utc_year
}

} // verus!
