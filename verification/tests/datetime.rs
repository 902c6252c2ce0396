use ambient_core::datetime::{datetime_seconds, day_count, format_current_time, parse_naive_datetime};
use ambient_core::text::{fmt_mm, fmt_two_dec, fmt_u64};
use ambient_core::types::DateTime;

fn dt(year: u32, month: u32, day: u32, hour: u32, minute: u32, second: u32) -> DateTime {
    DateTime { year, month, day, hour, minute, second }
}

#[test]
fn parse_minute_form() {
    let parsed = parse_naive_datetime("2025-02-10T07:30");
    assert_eq!(parsed, Some(dt(2025, 2, 10, 7, 30, 0)));
}

#[test]
fn parse_second_form() {
    let parsed = parse_naive_datetime("2025-02-10T07:30:45");
    assert_eq!(parsed, Some(dt(2025, 2, 10, 7, 30, 45)));
}

#[test]
fn parse_rejects_malformed() {
    assert_eq!(parse_naive_datetime(""), None);
    assert_eq!(parse_naive_datetime("2025-02-10"), None);
    assert_eq!(parse_naive_datetime("2025/02/10T07:30"), None);
    assert_eq!(parse_naive_datetime("2025-02-10 07:30"), None);
    assert_eq!(parse_naive_datetime("2025-02-10T07:30:4"), None);
    assert_eq!(parse_naive_datetime("2025-02-10T07:30:455"), None);
    assert_eq!(parse_naive_datetime("not-a-datetime!!"), None);
    assert_eq!(parse_naive_datetime("20XX-02-10T07:30"), None);
    assert_eq!(parse_naive_datetime("2025-02-10T07:30.45"), None);
}

#[test]
fn parse_rejects_impossible_instants() {
    assert_eq!(parse_naive_datetime("2025-00-10T07:30"), None);
    assert_eq!(parse_naive_datetime("2025-13-01T07:30"), None);
    assert_eq!(parse_naive_datetime("2025-02-00T07:30"), None);
    assert_eq!(parse_naive_datetime("2025-02-30T07:30"), None);
    assert_eq!(parse_naive_datetime("2025-04-31T07:30"), None);
    assert_eq!(parse_naive_datetime("2025-02-10T24:00"), None);
    assert_eq!(parse_naive_datetime("2025-02-10T07:60"), None);
    assert_eq!(parse_naive_datetime("2025-02-10T07:30:60"), None);
}

#[test]
fn parse_knows_leap_years() {
    assert!(parse_naive_datetime("2024-02-29T12:00").is_some());
    assert_eq!(parse_naive_datetime("2023-02-29T12:00"), None);
    assert!(parse_naive_datetime("2000-02-29T12:00").is_some());
    assert_eq!(parse_naive_datetime("1900-02-29T12:00"), None);
}

#[test]
fn seconds_count_adjacent_instants() {
    let base = datetime_seconds(&dt(2025, 1, 1, 0, 0, 0));
    assert_eq!(datetime_seconds(&dt(2025, 1, 1, 0, 0, 1)) - base, 1);
    assert_eq!(datetime_seconds(&dt(2025, 1, 1, 0, 1, 0)) - base, 60);
    assert_eq!(datetime_seconds(&dt(2025, 1, 1, 1, 0, 0)) - base, 3600);
    assert_eq!(datetime_seconds(&dt(2025, 1, 2, 0, 0, 0)) - base, 86400);
}

#[test]
fn seconds_cross_month_and_leap_boundaries() {
    let feb_end = datetime_seconds(&dt(2025, 2, 28, 23, 59, 0));
    let mar_start = datetime_seconds(&dt(2025, 3, 1, 0, 0, 0));
    assert_eq!(mar_start - feb_end, 60);
    let leap_feb_end = datetime_seconds(&dt(2024, 2, 28, 23, 59, 0));
    let leap_mar_start = datetime_seconds(&dt(2024, 3, 1, 0, 0, 0));
    assert_eq!(leap_mar_start - leap_feb_end, 60 + 86400);
}

#[test]
fn day_count_spans_years() {
    let d2024 = day_count(&dt(2024, 1, 1, 0, 0, 0));
    let d2025 = day_count(&dt(2025, 1, 1, 0, 0, 0));
    assert_eq!(d2025 - d2024, 366);
    let d2026 = day_count(&dt(2026, 1, 1, 0, 0, 0));
    assert_eq!(d2026 - d2025, 365);
}

#[test]
fn clock_face_formatting() {
    let formatted = format_current_time(&dt(2025, 11, 28, 7, 5, 0), 1764310500000);
    assert_eq!(formatted.time, "07:05");
    assert_eq!(formatted.date, "NOV 28, 2025");
    assert_eq!(formatted.day_of_week, "FRIDAY");
    assert_eq!(formatted.timestamp, 1764310500000);
}

#[test]
fn weekday_anchor_is_correct() {
    assert_eq!(format_current_time(&dt(1970, 1, 1, 0, 0, 0), 0).day_of_week, "THURSDAY");
    assert_eq!(format_current_time(&dt(2000, 1, 1, 0, 0, 0), 0).day_of_week, "SATURDAY");
    assert_eq!(format_current_time(&dt(2025, 6, 2, 0, 0, 0), 0).day_of_week, "MONDAY");
}

#[test]
fn decimal_rendering() {
    assert_eq!(fmt_u64(0), "0");
    assert_eq!(fmt_u64(7), "7");
    assert_eq!(fmt_u64(10), "10");
    assert_eq!(fmt_u64(12345), "12345");
    assert_eq!(fmt_two_dec(0), "00");
    assert_eq!(fmt_two_dec(5), "05");
    assert_eq!(fmt_two_dec(59), "59");
}

#[test]
fn millimetre_rendering() {
    assert_eq!(fmt_mm(0), "0");
    assert_eq!(fmt_mm(200), "2");
    assert_eq!(fmt_mm(250), "2.5");
    assert_eq!(fmt_mm(25), "0.25");
    assert_eq!(fmt_mm(1005), "10.05");
}
