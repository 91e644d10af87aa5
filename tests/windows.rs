use chrono::{Datelike, FixedOffset, NaiveDate, TimeZone, Timelike, Weekday};
use cupcli::time::{look_behind_window, resolve, LocalTime, TimeGet, TimeWindow};

fn at(offset_secs: i32, y: i32, mo: u32, d: u32, h: u32, mi: u32, s: u32) -> LocalTime {
    let tz = FixedOffset::east_opt(offset_secs).unwrap();
    let t = tz.with_ymd_and_hms(y, mo, d, h, mi, s).unwrap();
    LocalTime::from_parts(t.timestamp_millis(), offset_secs).unwrap()
}

fn local_ms(offset_secs: i32, y: i32, mo: u32, d: u32, h: u32, mi: u32, s: u32) -> i64 {
    let tz = FixedOffset::east_opt(offset_secs).unwrap();
    tz.with_ymd_and_hms(y, mo, d, h, mi, s).unwrap().timestamp_millis()
}

#[test]
fn yesterday_window_of_march_fifteenth() {
    let now = at(3600, 2024, 3, 15, 10, 0, 0);
    let w = resolve(TimeGet::Yesterday, &now);
    assert_eq!(w.start_ms, local_ms(3600, 2024, 3, 14, 0, 0, 1));
    assert_eq!(w.end_ms, local_ms(3600, 2024, 3, 14, 23, 59, 59));
}

#[test]
fn yesterday_window_in_utc() {
    let now = at(0, 2024, 3, 15, 10, 0, 0);
    let w = resolve(TimeGet::Yesterday, &now);
    assert_eq!(w, TimeWindow { start_ms: 1_710_374_401_000, end_ms: 1_710_460_799_000 });
}

#[test]
fn today_window_starts_one_second_after_midnight() {
    let now = at(-5 * 3600, 2024, 3, 15, 10, 30, 0);
    let w = resolve(TimeGet::Today, &now);
    assert_eq!(w.start_ms, local_ms(-5 * 3600, 2024, 3, 15, 0, 0, 1));
    assert_eq!(w.end_ms, now.epoch_ms);
}

#[test]
fn today_window_is_not_empty_after_first_second() {
    for offset in [-11 * 3600, -3600, 0, 3600, 5 * 3600 + 1800, 14 * 3600 - 60] {
        for (h, mi, s) in [(0, 0, 2), (0, 1, 0), (9, 15, 0), (23, 59, 59)] {
            let now = at(offset, 2023, 12, 31, h, mi, s);
            let w = resolve(TimeGet::Today, &now);
            assert!(w.start_ms < w.end_ms);
        }
    }
}

#[test]
fn today_window_at_midnight_is_empty() {
    let now = at(0, 2024, 1, 1, 0, 0, 0);
    let w = resolve(TimeGet::Today, &now);
    assert_eq!(w.start_ms, now.epoch_ms + 1000);
}

#[test]
fn week_window_starts_on_monday_for_every_weekday() {
    let tz = FixedOffset::east_opt(2 * 3600).unwrap();
    // 2024-03-11 is a Monday; check it and the six days after.
    for day in 11..=17 {
        let now = at(2 * 3600, 2024, 3, day, 13, 45, 7);
        let w = resolve(TimeGet::Week, &now);
        let start = tz.timestamp_millis_opt(w.start_ms).unwrap();
        assert_eq!(start.weekday(), Weekday::Mon);
        assert_eq!(start.date_naive(), NaiveDate::from_ymd_opt(2024, 3, 11).unwrap());
        assert_eq!((start.hour(), start.minute(), start.second()), (0, 0, 1));
        assert_eq!(w.end_ms, now.epoch_ms);
    }
}

#[test]
fn week_window_on_sunday_reaches_back_six_days() {
    let now = at(0, 2024, 3, 17, 8, 0, 0);
    let w = resolve(TimeGet::Week, &now);
    assert_eq!(w.start_ms, local_ms(0, 2024, 3, 11, 0, 0, 1));
}

#[test]
fn look_behind_window_goes_back_whole_days() {
    let now = at(3600, 2024, 3, 15, 10, 0, 0);
    let w = look_behind_window(3, &now);
    assert_eq!(w.start_ms, local_ms(3600, 2024, 3, 12, 0, 0, 1));
    assert_eq!(w.end_ms, now.epoch_ms);
}

#[test]
fn look_behind_window_stops_at_year_one() {
    let now = at(0, 2024, 3, 15, 10, 0, 0);
    let w = look_behind_window(u32::MAX, &now);
    let first = NaiveDate::from_ymd_opt(1, 1, 1).unwrap().and_hms_opt(0, 0, 1).unwrap();
    assert_eq!(w.start_ms, first.and_utc().timestamp_millis());
}

#[test]
fn local_time_rejects_out_of_range_parts() {
    assert!(LocalTime::from_parts(-1, 0).is_none());
    assert!(LocalTime::from_parts(0, 86_400).is_none());
    assert!(LocalTime::from_parts(0, -86_400).is_none());
    assert!(LocalTime::from_parts(253_402_300_800_000, 0).is_none());
    let t = LocalTime::from_parts(0, -3600).unwrap();
    assert_eq!((t.epoch_ms, t.offset_ms), (0, -3_600_000));
    assert_eq!(t.local_day(), -1);
}

#[test]
fn clock_reads_a_time_in_range() {
    let now = LocalTime::now().unwrap();
    assert!(now.epoch_ms > 1_600_000_000_000);
    assert!(now.offset_ms.abs() < 86_400_000);
}
