use ambient_core::solar::{classify_solar, get_time_of_day};
use ambient_core::types::{DateTime, TimeOfDayLabel};

fn dt(year: u32, month: u32, day: u32, hour: u32, minute: u32, second: u32) -> DateTime {
    DateTime { year, month, day, hour, minute, second }
}

fn label_at(hour: u32, minute: u32) -> (String, String) {
    let now = dt(2025, 6, 1, hour, minute, 0);
    let tod = get_time_of_day(
        &now,
        Some("2025-06-01T06:00".to_string()),
        Some("2025-06-01T20:00".to_string()),
    );
    (tod.time_of_day, tod.source)
}

#[test]
fn window_partitions_the_day() {
    assert_eq!(label_at(4, 59), ("night".to_string(), "api".to_string()));
    assert_eq!(label_at(5, 0), ("dawn".to_string(), "api".to_string()));
    assert_eq!(label_at(6, 30), ("dawn".to_string(), "api".to_string()));
    assert_eq!(label_at(6, 59), ("dawn".to_string(), "api".to_string()));
    assert_eq!(label_at(7, 0), ("day".to_string(), "api".to_string()));
    assert_eq!(label_at(12, 0), ("day".to_string(), "api".to_string()));
    assert_eq!(label_at(18, 59), ("day".to_string(), "api".to_string()));
    assert_eq!(label_at(19, 0), ("dusk".to_string(), "api".to_string()));
    assert_eq!(label_at(20, 59), ("dusk".to_string(), "api".to_string()));
    assert_eq!(label_at(21, 0), ("night".to_string(), "api".to_string()));
    assert_eq!(label_at(23, 59), ("night".to_string(), "api".to_string()));
}

#[test]
fn every_minute_gets_exactly_one_label() {
    for hour in 0..24u32 {
        for minute in 0..60u32 {
            let (label, source) = label_at(hour, minute);
            assert_eq!(source, "api");
            assert!(["dawn", "day", "dusk", "night"].contains(&label.as_str()));
        }
    }
}

#[test]
fn absent_window_falls_back_to_night() {
    let now = dt(2025, 6, 1, 12, 0, 0);
    let tod = get_time_of_day(&now, None, None);
    assert_eq!(tod.time_of_day, "night");
    assert_eq!(tod.source, "fallback");
    let tod = get_time_of_day(&now, Some("2025-06-01T06:00".to_string()), None);
    assert_eq!(tod.time_of_day, "night");
    assert_eq!(tod.source, "fallback");
    let tod = get_time_of_day(&now, None, Some("2025-06-01T20:00".to_string()));
    assert_eq!(tod.time_of_day, "night");
    assert_eq!(tod.source, "fallback");
}

#[test]
fn malformed_window_falls_back_to_night() {
    let now = dt(2025, 6, 1, 12, 0, 0);
    let cases = [
        ("garbage", "2025-06-01T20:00"),
        ("2025-06-01T06:00", "garbage"),
        ("2025-06-31T06:00", "2025-06-01T20:00"),
        ("2025-06-01 06:00", "2025-06-01T20:00"),
    ];
    for (sunrise, sunset) in cases {
        let tod = get_time_of_day(&now, Some(sunrise.to_string()), Some(sunset.to_string()));
        assert_eq!(tod.time_of_day, "night");
        assert_eq!(tod.source, "fallback");
    }
}

#[test]
fn dusk_wins_over_day_when_windows_touch() {
    // A very short day: the dawn window ends where the dusk window starts.
    let now = dt(2025, 12, 21, 11, 30, 0);
    let tod = get_time_of_day(
        &now,
        Some("2025-12-21T10:00".to_string()),
        Some("2025-12-21T12:00".to_string()),
    );
    assert_eq!(tod.time_of_day, "dusk");
    assert_eq!(tod.source, "api");
}

#[test]
fn classifier_saturates_at_the_extremes() {
    assert_eq!(classify_solar(0, i64::MIN, i64::MAX), TimeOfDayLabel::Day);
    assert_eq!(classify_solar(i64::MIN, i64::MIN, i64::MAX), TimeOfDayLabel::Dawn);
    assert_eq!(classify_solar(i64::MAX, i64::MIN, i64::MAX), TimeOfDayLabel::Night);
}
