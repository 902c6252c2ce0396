//! The precipitation display triple: an icon id, a label, and a value
//! string. Snow wins over rain when both fall; with neither, the triple
//! reads as a clear sky.

use vstd::prelude::*;

use crate::text::{fmt_mm, spec_mm};
use crate::types::{PrecipitationDisplay, WeatherSnapshot};

verus! {

/// The display triple of the current weather: snowfall shows as `Snow` with
/// its amount, otherwise rain as `Rain` with its amount, otherwise a clear
/// `Sky`. Amounts keep their native precision.
pub fn get_precipitation_display(weather: &WeatherSnapshot) -> (r: PrecipitationDisplay)
    ensures
        weather.snowfall_cmm > 0 ==> r.icon@ == "snowflake"@ && r.label@ == "Snow"@ && r.value@
            == spec_mm(weather.snowfall_cmm as int) + " mm"@,
        weather.snowfall_cmm == 0 && weather.rain_cmm > 0 ==> r.icon@ == "droplet"@ && r.label@
            == "Rain"@ && r.value@ == spec_mm(weather.rain_cmm as int) + " mm"@,
        weather.snowfall_cmm == 0 && weather.rain_cmm == 0 ==> r.icon@ == "umbrella"@ && r.label@
            == "Sky"@ && r.value@ == "Clear"@,
{
    if weather.snowfall_cmm > 0 {
        let mut value = fmt_mm(weather.snowfall_cmm);
        value.append(" mm");
        PrecipitationDisplay {
            icon: String::from_str("snowflake"),
            label: String::from_str("Snow"),
            value,
        }
    } else if weather.rain_cmm > 0 {
        let mut value = fmt_mm(weather.rain_cmm);
        value.append(" mm");
        PrecipitationDisplay {
            icon: String::from_str("droplet"),
            label: String::from_str("Rain"),
            value,
        }
    } else {
        PrecipitationDisplay {
            icon: String::from_str("umbrella"),
            label: String::from_str("Sky"),
            value: String::from_str("Clear"),
        }
    }
}

} // verus!
