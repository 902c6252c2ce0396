//! Time-of-day classification from the current instant and the day's solar
//! window. Dawn and dusk each span a fixed window from one hour before to
//! one hour after sunrise and sunset; day fills the span between them and
//! night the rest. When the window is missing or malformed the label falls
//! back to night — a deliberate conservative default, not an hour-of-day
//! heuristic.

use vstd::prelude::*;

use crate::datetime::{parse_naive_datetime, parse_stamp, datetime_seconds, seconds_of,
    valid_datetime};
use crate::types::{DateTime, TimeOfDay, TimeOfDayLabel};

verus! {

/// One hour, in seconds.
pub const HOUR_SECONDS: i64 = 3600;

/// An exact sum clamped into the range of `i64`, the saturating arithmetic
/// the classifier uses at the time-range extremes.
pub open spec fn sat_i64(x: int) -> int {
    if x < i64::MIN as int {
        i64::MIN as int
    } else if x > i64::MAX as int {
        i64::MAX as int
    } else {
        x
    }
}

/// The label of an instant against a solar window, all on the seconds
/// timeline. The dawn and dusk checks come first, so where the windows of a
/// very short day overlap, dawn and dusk win over day; intervals are
/// half-open, closed at their lower end.
pub open spec fn spec_time_of_day(now: int, sunrise: int, sunset: int) -> TimeOfDayLabel {
    let dawn_start = sat_i64(sunrise - HOUR_SECONDS);
    let dawn_end = sat_i64(sunrise + HOUR_SECONDS);
    let dusk_start = sat_i64(sunset - HOUR_SECONDS);
    let dusk_end = sat_i64(sunset + HOUR_SECONDS);
    if dawn_start <= now && now < dawn_end {
        TimeOfDayLabel::Dawn
    } else if dusk_start <= now && now < dusk_end {
        TimeOfDayLabel::Dusk
    } else if dawn_end <= now && now < dusk_start {
        TimeOfDayLabel::Day
    } else {
        TimeOfDayLabel::Night
    }
}

fn saturating_sub_hour(x: i64) -> (r: i64)
    ensures
        r as int == sat_i64(x - HOUR_SECONDS),
{
    if x >= i64::MIN + HOUR_SECONDS {
        x - HOUR_SECONDS
    } else {
        i64::MIN
    }
}

fn saturating_add_hour(x: i64) -> (r: i64)
    ensures
        r as int == sat_i64(x + HOUR_SECONDS),
{
    if x <= i64::MAX - HOUR_SECONDS {
        x + HOUR_SECONDS
    } else {
        i64::MAX
    }
}

/// Classify an instant against a solar window, all three given in seconds
/// on one timeline. Total: the shifts saturate at the ends of the range
/// rather than overflow.
pub fn classify_solar(now: i64, sunrise: i64, sunset: i64) -> (r: TimeOfDayLabel)
    ensures
        r == spec_time_of_day(now as int, sunrise as int, sunset as int),
{
    let dawn_start = saturating_sub_hour(sunrise);
    let dawn_end = saturating_add_hour(sunrise);
    let dusk_start = saturating_sub_hour(sunset);
    let dusk_end = saturating_add_hour(sunset);
    if dawn_start <= now && now < dawn_end {
        TimeOfDayLabel::Dawn
    } else if dusk_start <= now && now < dusk_end {
        TimeOfDayLabel::Dusk
    } else if dawn_end <= now && now < dusk_start {
        TimeOfDayLabel::Day
    } else {
        TimeOfDayLabel::Night
    }
}

/// The view of an optional textual stamp.
pub open spec fn opt_view(o: Option<String>) -> Option<Seq<char>> {
    match o {
        Some(s) => Some(s@),
        None => None,
    }
}

/// The label and its provenance for an instant and the provider's optional
/// sunrise and sunset stamps: the solar classification when both stamps
/// parse (provenance true), night as the fallback otherwise (provenance
/// false).
pub open spec fn solar_label_of(
    now: DateTime,
    sunrise: Option<Seq<char>>,
    sunset: Option<Seq<char>>,
) -> (TimeOfDayLabel, bool) {
    match (sunrise, sunset) {
        (Some(a), Some(b)) => match (parse_stamp(a), parse_stamp(b)) {
            (Some(sr), Some(ss)) => (
                spec_time_of_day(seconds_of(now), seconds_of(sr), seconds_of(ss)),
                true,
            ),
            _ => (TimeOfDayLabel::Night, false),
        },
        _ => (TimeOfDayLabel::Night, false),
    }
}

/// Classify the current instant against the provider's optional sunrise and
/// sunset stamps. The second component tells whether real solar data decided
/// the label.
pub fn time_of_day_label(
    now: &DateTime,
    sunrise_iso: &Option<String>,
    sunset_iso: &Option<String>,
) -> (r: (TimeOfDayLabel, bool))
    requires
        valid_datetime(*now),
    ensures
        r == solar_label_of(*now, opt_view(*sunrise_iso), opt_view(*sunset_iso)),
{
    if let (Some(a), Some(b)) = (sunrise_iso, sunset_iso) {
        let sr = parse_naive_datetime(a.as_str());
        let ss = parse_naive_datetime(b.as_str());
        if let (Some(sr), Some(ss)) = (sr, ss) {
            let now_s = datetime_seconds(now);
            let sr_s = datetime_seconds(&sr);
            let ss_s = datetime_seconds(&ss);
            return (classify_solar(now_s, sr_s, ss_s), true);
        }
        return (TimeOfDayLabel::Night, false);
    }
    (TimeOfDayLabel::Night, false)
}

pub open spec fn tod_word(l: TimeOfDayLabel) -> Seq<char> {
    match l {
        TimeOfDayLabel::Dawn => "dawn"@,
        TimeOfDayLabel::Day => "day"@,
        TimeOfDayLabel::Dusk => "dusk"@,
        TimeOfDayLabel::Night => "night"@,
    }
}

/// The label's lowercase name.
pub fn tod_name(l: TimeOfDayLabel) -> (r: String)
    ensures
        r@ == tod_word(l),
{
    match l {
        TimeOfDayLabel::Dawn => String::from_str("dawn"),
        TimeOfDayLabel::Day => String::from_str("day"),
        TimeOfDayLabel::Dusk => String::from_str("dusk"),
        TimeOfDayLabel::Night => String::from_str("night"),
    }
}

/// Time-of-day classification in its string form: the label word, and
/// `"api"` or `"fallback"` as the provenance.
pub fn get_time_of_day(
    now: &DateTime,
    sunrise_iso: Option<String>,
    sunset_iso: Option<String>,
) -> (r: TimeOfDay)
    requires
        valid_datetime(*now),
    ensures
        ({
            let (label, from_solar) = solar_label_of(
                *now,
                opt_view(sunrise_iso),
                opt_view(sunset_iso),
            );
            r.time_of_day@ == tod_word(label) && r.source@ == if from_solar {
                "api"@
            } else {
                "fallback"@
            }
        }),
{
    let (label, from_solar) = time_of_day_label(now, &sunrise_iso, &sunset_iso);
    let source = if from_solar {
        String::from_str("api")
    } else {
        String::from_str("fallback")
    };
    TimeOfDay { time_of_day: tod_name(label), source }
}

/// Law: with a solar window far from the ends of the timeline and whose
/// dawn window ends no later than its dusk window begins, the four labels
/// partition the timeline into four regions with no gaps and no overlaps,
/// and the region boundaries lie exactly one hour before and after sunrise
/// and sunset.
pub proof fn lemma_solar_partition(now: int, sunrise: int, sunset: int)
    requires
        i64::MIN + HOUR_SECONDS <= sunrise <= i64::MAX - HOUR_SECONDS,
        i64::MIN + HOUR_SECONDS <= sunset <= i64::MAX - HOUR_SECONDS,
        sunrise + HOUR_SECONDS <= sunset - HOUR_SECONDS,
    ensures
        spec_time_of_day(now, sunrise, sunset) is Dawn <==> sunrise - HOUR_SECONDS <= now < sunrise
            + HOUR_SECONDS,
        spec_time_of_day(now, sunrise, sunset) is Dusk <==> sunset - HOUR_SECONDS <= now < sunset
            + HOUR_SECONDS,
        spec_time_of_day(now, sunrise, sunset) is Day <==> sunrise + HOUR_SECONDS <= now < sunset
            - HOUR_SECONDS,
        spec_time_of_day(now, sunrise, sunset) is Night <==> now < sunrise - HOUR_SECONDS || now
            >= sunset + HOUR_SECONDS,
{
}

/// Law: an absent or malformed solar window always yields the night label
/// with fallback provenance, whatever the current instant.
pub proof fn lemma_missing_solar_is_night(
    now: DateTime,
    sunrise: Option<Seq<char>>,
    sunset: Option<Seq<char>>,
)
    requires
        sunrise is None || sunset is None || parse_stamp(sunrise.unwrap()) is None || parse_stamp(
            sunset.unwrap(),
        ) is None,
    ensures
        solar_label_of(now, sunrise, sunset) == (TimeOfDayLabel::Night, false),
{
}

} // verus!
