//! Calendar classification: the season of a month and the holiday, if any,
//! of a month-and-day pair.

use vstd::prelude::*;

use crate::types::{Holiday, HolidayLabel, Season, SeasonLabel};

verus! {

/// The season a month belongs to: March through May is spring, June through
/// August summer, September through November autumn, the rest winter.
pub open spec fn season_of(month: u32) -> SeasonLabel {
    if 3 <= month && month <= 5 {
        SeasonLabel::Spring
    } else if 6 <= month && month <= 8 {
        SeasonLabel::Summer
    } else if 9 <= month && month <= 11 {
        SeasonLabel::Autumn
    } else {
        SeasonLabel::Winter
    }
}

pub open spec fn season_word(s: SeasonLabel) -> Seq<char> {
    match s {
        SeasonLabel::Spring => "spring"@,
        SeasonLabel::Summer => "summer"@,
        SeasonLabel::Autumn => "autumn"@,
        SeasonLabel::Winter => "winter"@,
    }
}

/// Classify a month into its season. Total: every month value, even one
/// outside 1..=12, receives a label, with out-of-range months falling to
/// winter like the months around the turn of the year.
pub fn classify_season(month: u32) -> (r: SeasonLabel)
    ensures
        r == season_of(month),
{
    if 3 <= month && month <= 5 {
        SeasonLabel::Spring
    } else if 6 <= month && month <= 8 {
        SeasonLabel::Summer
    } else if 9 <= month && month <= 11 {
        SeasonLabel::Autumn
    } else {
        SeasonLabel::Winter
    }
}

/// The season's lowercase name.
pub fn season_name(s: SeasonLabel) -> (r: String)
    ensures
        r@ == season_word(s),
{
    match s {
        SeasonLabel::Spring => String::from_str("spring"),
        SeasonLabel::Summer => String::from_str("summer"),
        SeasonLabel::Autumn => String::from_str("autumn"),
        SeasonLabel::Winter => String::from_str("winter"),
    }
}

/// Season classification in its string form.
pub fn get_season(month: u32) -> (r: Season)
    ensures
        r.season@ == season_word(season_of(month)),
{
    Season { season: season_name(classify_season(month)) }
}

/// Christmas runs through December 26.
pub open spec fn in_christmas_range(month: u32, day: u32) -> bool {
    month == 12 && day <= 26
}

/// New year spans the turn of the year: December 27 through January 5.
pub open spec fn in_new_year_range(month: u32, day: u32) -> bool {
    (month == 12 && day >= 27) || (month == 1 && day <= 5)
}

/// Halloween takes the last week of October.
pub open spec fn in_halloween_range(month: u32, day: u32) -> bool {
    month == 10 && day >= 25
}

/// The easter window runs from March 20 through April 20.
pub open spec fn in_easter_range(month: u32, day: u32) -> bool {
    (month == 3 && day >= 20) || (month == 4 && day <= 20)
}

/// The active holiday of a date, if any, checked in the fixed priority
/// order christmas, new year, halloween, easter.
pub open spec fn holiday_of(month: u32, day: u32) -> Option<HolidayLabel> {
    if in_christmas_range(month, day) {
        Some(HolidayLabel::Christmas)
    } else if in_new_year_range(month, day) {
        Some(HolidayLabel::NewYear)
    } else if in_halloween_range(month, day) {
        Some(HolidayLabel::Halloween)
    } else if in_easter_range(month, day) {
        Some(HolidayLabel::Easter)
    } else {
        None
    }
}

pub open spec fn holiday_word(h: HolidayLabel) -> Seq<char> {
    match h {
        HolidayLabel::Christmas => "christmas"@,
        HolidayLabel::NewYear => "new year"@,
        HolidayLabel::Halloween => "halloween"@,
        HolidayLabel::Easter => "easter"@,
    }
}

/// Classify a date into its holiday, if any.
pub fn classify_holiday(month: u32, day: u32) -> (r: Option<HolidayLabel>)
    ensures
        r == holiday_of(month, day),
{
    if month == 12 && day <= 26 {
        Some(HolidayLabel::Christmas)
    } else if (month == 12 && day >= 27) || (month == 1 && day <= 5) {
        Some(HolidayLabel::NewYear)
    } else if month == 10 && day >= 25 {
        Some(HolidayLabel::Halloween)
    } else if (month == 3 && day >= 20) || (month == 4 && day <= 20) {
        Some(HolidayLabel::Easter)
    } else {
        None
    }
}

/// The holiday's lowercase name.
pub fn holiday_name(h: HolidayLabel) -> (r: String)
    ensures
        r@ == holiday_word(h),
{
    match h {
        HolidayLabel::Christmas => String::from_str("christmas"),
        HolidayLabel::NewYear => String::from_str("new year"),
        HolidayLabel::Halloween => String::from_str("halloween"),
        HolidayLabel::Easter => String::from_str("easter"),
    }
}

/// Holiday classification in its string form.
pub fn get_holiday(month: u32, day: u32) -> (r: Holiday)
    ensures
        match holiday_of(month, day) {
            Some(h) => r.holiday matches Some(s) && s@ == holiday_word(h),
            None => r.holiday is None,
        },
{
    match classify_holiday(month, day) {
        Some(h) => Holiday { holiday: Some(holiday_name(h)) },
        None => Holiday { holiday: None },
    }
}

/// Law: every month receives exactly one season label, and the label is a
/// function of the month alone, so it is constant across every day of that
/// month. The four conditions below are exhaustive and pairwise disjoint.
pub proof fn lemma_season_total(month: u32)
    ensures
        season_of(month) is Spring <==> 3 <= month <= 5,
        season_of(month) is Summer <==> 6 <= month <= 8,
        season_of(month) is Autumn <==> 9 <= month <= 11,
        season_of(month) is Winter <==> !(3 <= month <= 11),
{
}

/// Law: the four holiday date ranges are mutually exclusive. For every
/// month-and-day pair at most one of the predicates holds, so the priority
/// order in `holiday_of` never hides a second active holiday: a label is
/// returned exactly when its own range matches.
pub proof fn lemma_holiday_ranges_disjoint(month: u32, day: u32)
    ensures
        in_christmas_range(month, day) ==> !in_new_year_range(month, day)
            && !in_halloween_range(month, day) && !in_easter_range(month, day),
        in_new_year_range(month, day) ==> !in_christmas_range(month, day)
            && !in_halloween_range(month, day) && !in_easter_range(month, day),
        in_halloween_range(month, day) ==> !in_christmas_range(month, day)
            && !in_new_year_range(month, day) && !in_easter_range(month, day),
        in_easter_range(month, day) ==> !in_christmas_range(month, day)
            && !in_new_year_range(month, day) && !in_halloween_range(month, day),
        holiday_of(month, day) == Some(HolidayLabel::Christmas) <==> in_christmas_range(month, day),
        holiday_of(month, day) == Some(HolidayLabel::NewYear) <==> in_new_year_range(month, day),
        holiday_of(month, day) == Some(HolidayLabel::Halloween) <==> in_halloween_range(month, day),
        holiday_of(month, day) == Some(HolidayLabel::Easter) <==> in_easter_range(month, day),
{
}

} // verus!
