//! The value types that cross the library's boundary.
//!
//! Labels are sum types; the structs mirror them as plain strings for the
//! display layer, which wants words such as `"spring"` or `"fallback"`.

use vstd::prelude::*;

verus! {

/// The season of a month, northern-hemisphere convention.
#[derive(Clone, Copy, Debug, PartialEq, Eq, Structural)]
pub enum SeasonLabel {
    Spring,
    Summer,
    Autumn,
    Winter,
}

/// A holiday window around a calendar date; at most one is active at a time.
#[derive(Clone, Copy, Debug, PartialEq, Eq, Structural)]
pub enum HolidayLabel {
    Christmas,
    NewYear,
    Halloween,
    Easter,
}

/// Where the current instant falls relative to sunrise and sunset.
#[derive(Clone, Copy, Debug, PartialEq, Eq, Structural)]
pub enum TimeOfDayLabel {
    Dawn,
    Day,
    Dusk,
    Night,
}

/// A calendar instant in the viewer's local time zone, to the second.
#[derive(Clone, Copy, Debug, PartialEq, Eq, Structural)]
pub struct DateTime {
    pub year: u32,
    pub month: u32,
    pub day: u32,
    pub hour: u32,
    pub minute: u32,
    pub second: u32,
}

/// The weather fields the core logic reads. Precipitation amounts are in
/// hundredths of a millimetre, cloud cover in whole percent; the sunrise and
/// sunset stamps stay in the provider's textual form until they are parsed.
#[derive(Clone, Debug)]
pub struct WeatherSnapshot {
    pub cloudcover: u32,
    pub rain_cmm: u32,
    pub snowfall_cmm: u32,
    pub sunrise: Option<String>,
    pub sunset: Option<String>,
}

/// Season classification in the display layer's string form.
#[derive(Clone, Debug)]
pub struct Season {
    pub season: String,
}

/// Holiday classification in the display layer's string form.
#[derive(Clone, Debug)]
pub struct Holiday {
    pub holiday: Option<String>,
}

/// Time-of-day classification with its provenance: `source` is `"api"` when
/// real solar data decided the label and `"fallback"` otherwise.
#[derive(Clone, Debug)]
pub struct TimeOfDay {
    pub time_of_day: String,
    pub source: String,
}

/// A composed photo search query; term order carries relevance weight.
#[derive(Clone, Debug)]
pub struct PhotoQuery {
    pub query: String,
}

/// The current instant formatted for the clock face.
#[derive(Clone, Debug)]
pub struct FormattedTime {
    pub time: String,
    pub date: String,
    pub day_of_week: String,
    pub timestamp: u64,
}

/// A background photograph and its attribution.
#[derive(Clone, Debug)]
pub struct UnsplashPhoto {
    pub url: String,
    pub author: String,
    pub author_url: String,
    pub download_location: String,
}

/// A cached photograph with the query that found it and the capture instant
/// in milliseconds since the Unix epoch. The caller owns the cache; this
/// library only evaluates freshness.
#[derive(Clone, Debug)]
pub struct PhotoCache {
    pub photo: UnsplashPhoto,
    pub query: String,
    pub timestamp: u64,
}

/// The display triple for current precipitation.
#[derive(Clone, Debug)]
pub struct PrecipitationDisplay {
    pub icon: String,
    pub label: String,
    pub value: String,
}

/// Diagnostic summary shown by the debug overlay.
#[derive(Clone, Debug)]
pub struct DebugInfo {
    pub photo_age: String,
    pub query: String,
    pub time_source: String,
    pub time_of_day: String,
}

} // verus!
