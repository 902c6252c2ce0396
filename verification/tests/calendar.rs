use ambient_core::calendar::{classify_holiday, classify_season, get_holiday, get_season};
use ambient_core::types::{HolidayLabel, SeasonLabel};

#[test]
fn season_of_every_month() {
    let expected = [
        (1, SeasonLabel::Winter),
        (2, SeasonLabel::Winter),
        (3, SeasonLabel::Spring),
        (4, SeasonLabel::Spring),
        (5, SeasonLabel::Spring),
        (6, SeasonLabel::Summer),
        (7, SeasonLabel::Summer),
        (8, SeasonLabel::Summer),
        (9, SeasonLabel::Autumn),
        (10, SeasonLabel::Autumn),
        (11, SeasonLabel::Autumn),
        (12, SeasonLabel::Winter),
    ];
    for (month, label) in expected {
        assert_eq!(classify_season(month), label);
    }
}

#[test]
fn season_string_form() {
    assert_eq!(get_season(3).season, "spring");
    assert_eq!(get_season(7).season, "summer");
    assert_eq!(get_season(10).season, "autumn");
    assert_eq!(get_season(1).season, "winter");
}

#[test]
fn holiday_boundaries() {
    assert_eq!(classify_holiday(12, 1), Some(HolidayLabel::Christmas));
    assert_eq!(classify_holiday(12, 26), Some(HolidayLabel::Christmas));
    assert_eq!(classify_holiday(12, 27), Some(HolidayLabel::NewYear));
    assert_eq!(classify_holiday(12, 31), Some(HolidayLabel::NewYear));
    assert_eq!(classify_holiday(1, 1), Some(HolidayLabel::NewYear));
    assert_eq!(classify_holiday(1, 5), Some(HolidayLabel::NewYear));
    assert_eq!(classify_holiday(1, 6), None);
    assert_eq!(classify_holiday(10, 24), None);
    assert_eq!(classify_holiday(10, 25), Some(HolidayLabel::Halloween));
    assert_eq!(classify_holiday(10, 31), Some(HolidayLabel::Halloween));
    assert_eq!(classify_holiday(3, 19), None);
    assert_eq!(classify_holiday(3, 20), Some(HolidayLabel::Easter));
    assert_eq!(classify_holiday(3, 31), Some(HolidayLabel::Easter));
    assert_eq!(classify_holiday(4, 20), Some(HolidayLabel::Easter));
    assert_eq!(classify_holiday(4, 21), None);
    assert_eq!(classify_holiday(7, 15), None);
}

#[test]
fn at_most_one_holiday_per_date() {
    for month in 1..=12u32 {
        for day in 1..=31u32 {
            let mut active = 0;
            if month == 12 && day <= 26 {
                active += 1;
            }
            if (month == 12 && day >= 27) || (month == 1 && day <= 5) {
                active += 1;
            }
            if month == 10 && day >= 25 {
                active += 1;
            }
            if (month == 3 && day >= 20) || (month == 4 && day <= 20) {
                active += 1;
            }
            assert!(active <= 1, "month {} day {} matches {} ranges", month, day, active);
            let classified = classify_holiday(month, day);
            assert_eq!(classified.is_some(), active == 1);
        }
    }
}

#[test]
fn holiday_string_form() {
    assert_eq!(get_holiday(12, 10).holiday.as_deref(), Some("christmas"));
    assert_eq!(get_holiday(12, 30).holiday.as_deref(), Some("new year"));
    assert_eq!(get_holiday(10, 31).holiday.as_deref(), Some("halloween"));
    assert_eq!(get_holiday(4, 1).holiday.as_deref(), Some("easter"));
    assert_eq!(get_holiday(6, 15).holiday, None);
}
