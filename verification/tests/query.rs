use std::collections::HashSet;

use ambient_core::query::{build_photo_query, holiday_pool};
use ambient_core::types::{DateTime, HolidayLabel, WeatherSnapshot};

fn dt(year: u32, month: u32, day: u32, hour: u32, minute: u32, second: u32) -> DateTime {
    DateTime { year, month, day, hour, minute, second }
}

fn weather(
    cloudcover: u32,
    rain_cmm: u32,
    snowfall_cmm: u32,
    sunrise: Option<&str>,
    sunset: Option<&str>,
) -> WeatherSnapshot {
    WeatherSnapshot {
        cloudcover,
        rain_cmm,
        snowfall_cmm,
        sunrise: sunrise.map(|s| s.to_string()),
        sunset: sunset.map(|s| s.to_string()),
    }
}

#[test]
fn winter_day_with_snow() {
    // Midday in February: no holiday, the day term contributes nothing, the
    // snow term suppresses the cloud term despite the heavy cover.
    let now = dt(2025, 2, 10, 12, 0, 0);
    let w = weather(80, 0, 500, Some("2025-02-10T07:00"), Some("2025-02-10T18:00"));
    let q = build_photo_query(2, 10, &now, &w);
    assert_eq!(q.query, "winter snow");
}

#[test]
fn winter_day_with_rain() {
    let now = dt(2025, 2, 10, 12, 0, 0);
    let w = weather(80, 120, 0, Some("2025-02-10T07:00"), Some("2025-02-10T18:00"));
    let q = build_photo_query(2, 10, &now, &w);
    assert_eq!(q.query, "winter rain");
}

#[test]
fn snow_wins_over_rain() {
    let now = dt(2025, 2, 10, 12, 0, 0);
    let w = weather(80, 120, 30, Some("2025-02-10T07:00"), Some("2025-02-10T18:00"));
    let q = build_photo_query(2, 10, &now, &w);
    assert_eq!(q.query, "winter snow");
}

#[test]
fn cloud_term_needs_heavy_cover_and_dry_sky() {
    let now = dt(2025, 2, 10, 12, 0, 0);
    let clear = weather(69, 0, 0, Some("2025-02-10T07:00"), Some("2025-02-10T18:00"));
    assert_eq!(build_photo_query(2, 10, &now, &clear).query, "winter");
    let cloudy = weather(70, 0, 0, Some("2025-02-10T07:00"), Some("2025-02-10T18:00"));
    assert_eq!(build_photo_query(2, 10, &now, &cloudy).query, "winter cloudy");
}

#[test]
fn missing_window_adds_the_night_term() {
    let now = dt(2025, 7, 15, 12, 0, 0);
    let w = weather(0, 0, 0, None, None);
    assert_eq!(build_photo_query(7, 15, &now, &w).query, "summer night");
}

#[test]
fn dawn_and_dusk_terms_appear() {
    let w = weather(0, 0, 0, Some("2025-05-10T06:00"), Some("2025-05-10T20:00"));
    let at_dawn = dt(2025, 5, 10, 5, 30, 0);
    assert_eq!(build_photo_query(5, 10, &at_dawn, &w).query, "spring dawn");
    let at_dusk = dt(2025, 5, 10, 20, 30, 0);
    assert_eq!(build_photo_query(5, 10, &at_dusk, &w).query, "spring dusk");
}

#[test]
fn christmas_query_varies_its_flavour_words() {
    // A December night: the query must open with "christmas", carry two
    // distinct pool words, and close with "night"; over many runs at least
    // two different word pairs must appear.
    let now = dt(2025, 12, 20, 23, 30, 0);
    let w = weather(10, 0, 0, Some("2025-12-20T08:00"), Some("2025-12-20T16:00"));
    let pool: Vec<String> = holiday_pool(HolidayLabel::Christmas);
    let mut combos: HashSet<(String, String)> = HashSet::new();
    for _ in 0..100 {
        let q = build_photo_query(12, 20, &now, &w).query;
        let words: Vec<&str> = q.split(' ').collect();
        assert_eq!(words.len(), 4, "query was {:?}", q);
        assert_eq!(words[0], "christmas");
        assert_eq!(words[3], "night");
        assert_ne!(words[1], words[2]);
        assert!(pool.iter().any(|p| p == words[1]), "{} not in pool", words[1]);
        assert!(pool.iter().any(|p| p == words[2]), "{} not in pool", words[2]);
        combos.insert((words[1].to_string(), words[2].to_string()));
    }
    assert!(combos.len() >= 2, "no variety over 100 runs");
}

#[test]
fn each_holiday_leads_its_query() {
    let w = weather(0, 0, 0, None, None);
    let now = dt(2025, 12, 31, 23, 0, 0);
    let q = build_photo_query(12, 31, &now, &w).query;
    assert!(q.starts_with("new year "), "query was {:?}", q);
    let now = dt(2025, 10, 31, 22, 0, 0);
    let q = build_photo_query(10, 31, &now, &w).query;
    assert!(q.starts_with("halloween "), "query was {:?}", q);
    let now = dt(2025, 4, 10, 22, 0, 0);
    let q = build_photo_query(4, 10, &now, &w).query;
    assert!(q.starts_with("easter "), "query was {:?}", q);
}

#[test]
fn holiday_pools_hold_the_fixed_vocabulary() {
    let christmas = holiday_pool(HolidayLabel::Christmas);
    let words: Vec<&str> = christmas.iter().map(|s| s.as_str()).collect();
    assert_eq!(
        words,
        vec![
            "decorated", "tree", "lights", "fireplace", "cozy", "festive", "ornaments", "wreath",
            "gift", "warm",
        ]
    );
    assert_eq!(holiday_pool(HolidayLabel::NewYear).len(), 8);
    assert_eq!(holiday_pool(HolidayLabel::Halloween).len(), 9);
    assert_eq!(holiday_pool(HolidayLabel::Easter).len(), 9);
}
