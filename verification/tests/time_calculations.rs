use chrono::{Datelike, FixedOffset, NaiveDate, TimeZone, Timelike, Utc};
use time_progress::percentage::Percentage;
use time_progress::time_calculations::{
    compute_metrics, get_current_day_of_year, get_current_year, get_percentage_day_left,
    get_percentage_hour_left, get_percentage_minute_left, get_percentage_month_left,
    get_percentage_year_left, sample_and_compute_metrics, seconds_in_month, ClockReading,
    TimeSnapshot,
};

/// The reading of the instant `y-mo-d h:mi:s.ms` UTC on a clock whose local
/// time is `offset_hours` ahead of UTC.
fn reading_at(y: i32, mo: u32, d: u32, h: u32, mi: u32, s: u32, ms: u32, offset_hours: i32) -> ClockReading {
    let utc = Utc
        .from_utc_datetime(&NaiveDate::from_ymd_opt(y, mo, d).unwrap().and_hms_milli_opt(h, mi, s, ms).unwrap());
    let local = utc.with_timezone(&FixedOffset::east_opt(offset_hours * 3600).unwrap());
    ClockReading {
        year: local.year(),
        month: local.month(),
        day: local.day(),
        hour: local.hour(),
        minute: local.minute(),
        second: local.second(),
        millis: local.timestamp_subsec_millis(),
        utc_year: utc.year(),
        utc_month: utc.month(),
        utc_day: utc.day(),
        utc_timestamp: utc.timestamp(),
    }
}

fn snapshot_at(y: i32, mo: u32, d: u32, h: u32, mi: u32, s: u32, ms: u32) -> TimeSnapshot {
    TimeSnapshot::new(reading_at(y, mo, d, h, mi, s, ms, 0)).unwrap()
}

fn as_float(p: &Percentage) -> f64 {
    p.elapsed() as f64 / p.span() as f64 * 100.0
}

fn close(a: f64, b: f64) -> bool {
    (a - b).abs() <= 1e-9
}

#[test]
fn seconds_in_february_of_a_leap_year() {
    assert_eq!(seconds_in_month(2024, 2), 29 * 86400);
}

#[test]
fn seconds_in_february_of_a_common_year() {
    assert_eq!(seconds_in_month(2023, 2), 28 * 86400);
}

#[test]
fn seconds_in_december_roll_over_to_january() {
    assert_eq!(seconds_in_month(2024, 12), 31 * 86400);
}

#[test]
fn seconds_in_every_month_of_two_years() {
    let common = [31, 28, 31, 30, 31, 30, 31, 31, 30, 31, 30, 31];
    for month in 1..=12u32 {
        assert_eq!(seconds_in_month(2023, month), common[(month - 1) as usize] * 86400);
        let leap = if month == 2 { 29 } else { common[(month - 1) as usize] };
        assert_eq!(seconds_in_month(2024, month), leap * 86400);
    }
    assert_eq!(seconds_in_month(1900, 2), 28 * 86400);
    assert_eq!(seconds_in_month(2000, 2), 29 * 86400);
    assert_eq!(seconds_in_month(0, 2), 29 * 86400);
    assert_eq!(seconds_in_month(-4, 2), 29 * 86400);
    assert_eq!(seconds_in_month(-100, 2), 28 * 86400);
    assert_eq!(seconds_in_month(-262_143, 1), 31 * 86400);
    assert_eq!(seconds_in_month(262_141, 12), 31 * 86400);
    assert_eq!(seconds_in_month(262_142, 11), 30 * 86400);
}

#[test]
fn minute_percentage_counts_seconds_and_milliseconds() {
    let now = snapshot_at(2023, 5, 17, 13, 45, 30, 0);
    let p = get_percentage_minute_left(&now);
    assert_eq!((p.elapsed(), p.span()), (30_000, 60_000));
    assert!(close(as_float(&p), 50.0));
    let later = snapshot_at(2023, 5, 17, 13, 45, 30, 750);
    let q = get_percentage_minute_left(&later);
    assert_eq!((q.elapsed(), q.span()), (30_750, 60_000));
    assert!(close(as_float(&q), (30.0 + 0.75) / 60.0 * 100.0));
}

#[test]
fn hour_percentage_counts_minutes_seconds_and_milliseconds() {
    let now = snapshot_at(2023, 5, 17, 13, 45, 30, 500);
    let p = get_percentage_hour_left(&now);
    assert_eq!((p.elapsed(), p.span()), (2_730_500, 3_600_000));
    assert!(close(as_float(&p), (45.0 * 60.0 + 30.0 + 0.5) / 3600.0 * 100.0));
}

#[test]
fn day_percentage_counts_the_time_of_day() {
    let now = snapshot_at(2023, 5, 17, 13, 45, 30, 500);
    let p = get_percentage_day_left(&now);
    assert_eq!((p.elapsed(), p.span()), (49_530_500, 86_400_000));
    assert!(close(as_float(&p), (13.0 * 3600.0 + 45.0 * 60.0 + 30.0 + 0.5) / 86400.0 * 100.0));
    let noon = snapshot_at(2023, 5, 17, 12, 0, 0, 0);
    assert!(close(as_float(&get_percentage_day_left(&noon)), 50.0));
}

#[test]
fn month_percentage_counts_from_the_first_of_the_month() {
    let start = snapshot_at(2023, 2, 1, 0, 0, 0, 0);
    let p = get_percentage_month_left(&start);
    assert_eq!((p.elapsed(), p.span()), (0, 28 * 86_400_000));
    let middle = snapshot_at(2023, 2, 15, 0, 0, 0, 0);
    assert!(close(as_float(&get_percentage_month_left(&middle)), 50.0));
    let leap = snapshot_at(2024, 2, 15, 12, 0, 0, 0);
    let q = get_percentage_month_left(&leap);
    assert_eq!((q.elapsed(), q.span()), (14 * 86_400_000 + 43_200_000, 29 * 86_400_000));
    assert!(close(as_float(&q), 50.0));
    let december = snapshot_at(2024, 12, 31, 23, 59, 59, 999);
    let r = get_percentage_month_left(&december);
    assert_eq!((r.elapsed(), r.span()), (31 * 86_400_000 - 1, 31 * 86_400_000));
}

#[test]
fn month_percentage_uses_local_time_and_utc_month_length() {
    // 1 November 04:00 UTC is 31 October 23:00 five hours west of Greenwich:
    // thirty local days and 23 hours against the thirty days of November.
    let now = TimeSnapshot::new(reading_at(2023, 11, 1, 4, 0, 0, 0, -5)).unwrap();
    let p = get_percentage_month_left(&now);
    assert_eq!((p.elapsed(), p.span()), ((30 * 86400 + 23 * 3600) * 1000, 30 * 86_400_000));
    assert!(as_float(&p) > 100.0);
}

#[test]
fn year_percentage_counts_seconds_since_new_year_against_365_days() {
    let start = snapshot_at(2023, 1, 1, 0, 0, 0, 0);
    let p = get_percentage_year_left(&start);
    assert_eq!((p.elapsed(), p.span()), (0, 31_536_000));
    let noon_of_july_2 = snapshot_at(2023, 7, 2, 12, 0, 0, 0);
    let q = get_percentage_year_left(&noon_of_july_2);
    assert_eq!((q.elapsed(), q.span()), (15_768_000, 31_536_000));
    assert!(close(as_float(&q), 50.0));
    let with_millis = snapshot_at(2023, 7, 2, 12, 0, 0, 900);
    assert_eq!(get_percentage_year_left(&with_millis).elapsed(), 15_768_000);
    let old = snapshot_at(1969, 12, 31, 23, 59, 59, 0);
    assert_eq!(get_percentage_year_left(&old).elapsed(), 31_536_000 - 1);
}

#[test]
fn year_percentage_exceeds_one_hundred_on_the_last_day_of_a_leap_year() {
    let before = snapshot_at(2024, 12, 30, 23, 59, 59, 0);
    assert!(as_float(&get_percentage_year_left(&before)) < 100.0);
    let last_day = snapshot_at(2024, 12, 31, 12, 0, 0, 0);
    let p = get_percentage_year_left(&last_day);
    assert_eq!((p.elapsed(), p.span()), (365 * 86400 + 43200, 31_536_000));
    assert!(as_float(&p) > 100.0);
}

#[test]
fn percentages_of_ordinary_instants_lie_between_zero_and_one_hundred() {
    for (y, mo, d, h, mi, s, ms) in [
        (2023, 1, 1, 0, 0, 0, 0),
        (2023, 2, 28, 23, 59, 59, 999),
        (2023, 6, 15, 12, 30, 30, 500),
        (2023, 12, 31, 23, 59, 59, 999),
        (2024, 2, 29, 6, 7, 8, 9),
        (2024, 12, 30, 23, 59, 59, 999),
        (1970, 1, 1, 0, 0, 0, 1),
        (1600, 3, 1, 1, 2, 3, 4),
    ] {
        let now = snapshot_at(y, mo, d, h, mi, s, ms);
        for p in [
            get_percentage_minute_left(&now),
            get_percentage_hour_left(&now),
            get_percentage_day_left(&now),
            get_percentage_month_left(&now),
            get_percentage_year_left(&now),
        ] {
            assert!(p.elapsed() < p.span());
            assert!(0.0 <= as_float(&p) && as_float(&p) <= 100.0);
        }
    }
}

#[test]
fn advancing_the_clock_raises_each_percentage_by_its_share() {
    let earlier = snapshot_at(2023, 3, 10, 8, 15, 20, 250);
    let later = snapshot_at(2023, 3, 10, 8, 15, 21, 750);
    let delta = 1.5;
    let minute = as_float(&get_percentage_minute_left(&later)) - as_float(&get_percentage_minute_left(&earlier));
    assert!(close(minute, delta / 60.0 * 100.0));
    let hour = as_float(&get_percentage_hour_left(&later)) - as_float(&get_percentage_hour_left(&earlier));
    assert!(close(hour, delta / 3600.0 * 100.0));
    let day = as_float(&get_percentage_day_left(&later)) - as_float(&get_percentage_day_left(&earlier));
    assert!(close(day, delta / 86400.0 * 100.0));
    let month = as_float(&get_percentage_month_left(&later)) - as_float(&get_percentage_month_left(&earlier));
    assert!(close(month, delta / (31.0 * 86400.0) * 100.0));
    let much_later = snapshot_at(2023, 3, 12, 9, 15, 20, 250);
    let year = as_float(&get_percentage_year_left(&much_later)) - as_float(&get_percentage_year_left(&earlier));
    assert!(close(year, (2.0 * 86400.0 + 3600.0) / 31_536_000.0 * 100.0));
    assert_eq!(
        get_percentage_minute_left(&later).elapsed() - get_percentage_minute_left(&earlier).elapsed(),
        1500
    );
}

#[test]
fn day_of_year_in_february_of_a_common_year() {
    let now = snapshot_at(2023, 2, 14, 10, 0, 0, 0);
    assert_eq!(get_current_day_of_year(&now), 31 + 14);
    assert_eq!(get_current_year(&now), 2023);
}

#[test]
fn day_of_year_counts_february_as_28_days_in_a_leap_year_too() {
    assert_eq!(get_current_day_of_year(&snapshot_at(2024, 2, 29, 0, 0, 0, 0)), 60);
    assert_eq!(get_current_day_of_year(&snapshot_at(2024, 3, 1, 0, 0, 0, 0)), 60);
    assert_eq!(get_current_day_of_year(&snapshot_at(2023, 3, 1, 0, 0, 0, 0)), 60);
    assert_eq!(get_current_day_of_year(&snapshot_at(2024, 12, 31, 0, 0, 0, 0)), 365);
    assert_eq!(get_current_day_of_year(&snapshot_at(2023, 12, 31, 0, 0, 0, 0)), 365);
    assert_eq!(get_current_day_of_year(&snapshot_at(2023, 1, 1, 0, 0, 0, 0)), 1);
}

#[test]
fn day_of_year_and_year_follow_the_utc_date() {
    // 31 December 23:30 UTC is already 1 January two hours east of Greenwich.
    let now = TimeSnapshot::new(reading_at(2023, 12, 31, 23, 30, 0, 0, 2)).unwrap();
    assert_eq!(now.reading().year, 2024);
    assert_eq!(get_current_year(&now), 2023);
    assert_eq!(get_current_day_of_year(&now), 365);
}

#[test]
fn metrics_come_in_order_with_their_labels() {
    let now = snapshot_at(2023, 7, 2, 12, 30, 15, 0);
    let bars = compute_metrics(&now);
    assert_eq!(bars.len(), 5);
    let labels: Vec<&str> = bars.iter().map(|b| b.prefix.as_str()).collect();
    assert_eq!(labels, vec![" M ", " H ", " D ", " M ", " Y "]);
    assert_eq!(bars[0].percentage.elapsed(), get_percentage_minute_left(&now).elapsed());
    assert_eq!(bars[0].percentage.span(), 60_000);
    assert_eq!(bars[1].percentage.elapsed(), get_percentage_hour_left(&now).elapsed());
    assert_eq!(bars[1].percentage.span(), 3_600_000);
    assert_eq!(bars[2].percentage.elapsed(), get_percentage_day_left(&now).elapsed());
    assert_eq!(bars[2].percentage.span(), 86_400_000);
    assert_eq!(bars[3].percentage.elapsed(), get_percentage_month_left(&now).elapsed());
    assert_eq!(bars[3].percentage.span(), 31 * 86_400_000);
    assert_eq!(bars[4].percentage.elapsed(), get_percentage_year_left(&now).elapsed());
    assert_eq!(bars[4].percentage.span(), 31_536_000);
}

#[test]
fn snapshot_keeps_a_valid_reading() {
    let reading = reading_at(2023, 5, 17, 13, 45, 30, 123, 0);
    let now = TimeSnapshot::new(reading).unwrap();
    assert_eq!(now.reading(), reading);
}

#[test]
fn snapshot_refuses_a_reading_that_no_instant_has() {
    let good = reading_at(2023, 5, 17, 13, 45, 30, 123, 0);
    assert!(TimeSnapshot::new(good).is_some());
    assert!(TimeSnapshot::new(ClockReading { hour: 24, ..good }).is_none());
    assert!(TimeSnapshot::new(ClockReading { minute: 60, ..good }).is_none());
    assert!(TimeSnapshot::new(ClockReading { second: 60, ..good }).is_none());
    assert!(TimeSnapshot::new(ClockReading { millis: 1000, ..good }).is_none());
    assert!(TimeSnapshot::new(ClockReading { day: 0, ..good }).is_none());
    assert!(TimeSnapshot::new(ClockReading { day: 32, ..good }).is_none());
    assert!(TimeSnapshot::new(ClockReading { month: 0, ..good }).is_none());
    assert!(TimeSnapshot::new(ClockReading { month: 13, ..good }).is_none());
    assert!(TimeSnapshot::new(ClockReading { month: 2, day: 30, ..good }).is_none());
    assert!(TimeSnapshot::new(ClockReading { year: 300_000, ..good }).is_none());
    assert!(TimeSnapshot::new(ClockReading { utc_month: 0, ..good }).is_none());
    assert!(TimeSnapshot::new(ClockReading { utc_month: 13, ..good }).is_none());
    assert!(TimeSnapshot::new(ClockReading { utc_day: 0, ..good }).is_none());
    assert!(TimeSnapshot::new(ClockReading { utc_month: 2, utc_day: 29, ..good }).is_none());
    assert!(TimeSnapshot::new(ClockReading { utc_year: 262_142, ..good }).is_none());
    assert!(TimeSnapshot::new(ClockReading { utc_year: -300_000, ..good }).is_none());
    // a timestamp that lies on another day than the UTC date
    assert!(TimeSnapshot::new(ClockReading { utc_day: 18, ..good }).is_none());
    assert!(TimeSnapshot::new(ClockReading { utc_year: 2024, ..good }).is_none());
    assert!(TimeSnapshot::new(ClockReading { utc_timestamp: good.utc_timestamp + 86400, ..good }).is_none());
    assert!(TimeSnapshot::new(ClockReading { utc_timestamp: i64::MAX, ..good }).is_none());
    assert!(TimeSnapshot::new(ClockReading { utc_timestamp: i64::MIN, ..good }).is_none());
}

#[test]
fn snapshot_accepts_the_first_and_last_second_of_a_day() {
    let first = reading_at(2023, 5, 17, 0, 0, 0, 0, 0);
    assert!(TimeSnapshot::new(first).is_some());
    assert!(TimeSnapshot::new(ClockReading { utc_timestamp: first.utc_timestamp - 1, ..first }).is_none());
    let last = reading_at(2023, 5, 17, 23, 59, 59, 999, 0);
    assert!(TimeSnapshot::new(last).is_some());
    assert!(TimeSnapshot::new(ClockReading { utc_timestamp: last.utc_timestamp + 1, ..last }).is_none());
    assert!(TimeSnapshot::new(reading_at(262_141, 12, 31, 23, 59, 59, 999, 0)).is_some());
    assert!(TimeSnapshot::new(reading_at(-262_143, 1, 1, 0, 0, 0, 0, 0)).is_some());
}

#[test]
fn the_present_instant_is_a_snapshot() {
    let before = Utc::now().timestamp();
    let now = TimeSnapshot::now().unwrap();
    let after = Utc::now().timestamp();
    let reading = now.reading();
    assert!(before <= reading.utc_timestamp && reading.utc_timestamp <= after);
    assert!(reading.hour < 24 && reading.minute < 60 && reading.second < 60 && reading.millis < 1000);
    assert!(1 <= reading.day && reading.day <= 31 && 1 <= reading.month && reading.month <= 12);
    assert_eq!(reading.utc_year, Utc.timestamp_opt(reading.utc_timestamp, 0).unwrap().year());
    assert_eq!(get_current_year(&now), reading.utc_year);
}

#[test]
fn sampled_metrics_are_five_bars() {
    let bars = sample_and_compute_metrics().unwrap();
    assert_eq!(bars.len(), 5);
    assert_eq!(bars[0].prefix, " M ");
    assert_eq!(bars[4].prefix, " Y ");
    assert_eq!(bars[0].percentage.span(), 60_000);
    assert!(bars[0].percentage.elapsed() < 60_000);
    assert_eq!(bars[4].percentage.span(), 31_536_000);
}
