//! The photo-query composer: holiday or season base terms, the time-of-day
//! term, precipitation and cloud terms, joined into one search string whose
//! term order carries relevance weight.
//!
//! The two extra holiday terms are the composer's only nondeterminism: they
//! are drawn without replacement from the holiday's fixed pool, so repeated
//! runs on the same inputs vary the flavour words and nothing else.

use vstd::prelude::*;

use crate::calendar::{classify_holiday, classify_season, holiday_name, holiday_of, holiday_word,
    season_name, season_of, season_word};
use crate::datetime::valid_datetime;
use crate::solar::{opt_view, solar_label_of, time_of_day_label, tod_name, tod_word};
use crate::text::{join_spaces, join_words};
use crate::types::{DateTime, HolidayLabel, PhotoQuery, TimeOfDayLabel, WeatherSnapshot};

verus! {

/// The curated pool of extra search words of a holiday, in its fixed order.
pub open spec fn pool_words(h: HolidayLabel) -> Seq<Seq<char>> {
    match h {
        HolidayLabel::Christmas => seq![
            "decorated"@,
            "tree"@,
            "lights"@,
            "fireplace"@,
            "cozy"@,
            "festive"@,
            "ornaments"@,
            "wreath"@,
            "gift"@,
            "warm"@,
        ],
        HolidayLabel::NewYear => seq![
            "celebration"@,
            "fireworks"@,
            "champagne"@,
            "festive"@,
            "party"@,
            "countdown"@,
            "sparkle"@,
            "midnight"@,
        ],
        HolidayLabel::Halloween => seq![
            "spooky"@,
            "pumpkin"@,
            "haunted"@,
            "autumn"@,
            "witch"@,
            "ghost"@,
            "candle"@,
            "dark"@,
            "mysterious"@,
        ],
        HolidayLabel::Easter => seq![
            "spring"@,
            "colorful"@,
            "flowers"@,
            "pastel"@,
            "bunny"@,
            "eggs"@,
            "garden"@,
            "bloom"@,
            "bright"@,
        ],
    }
}

/// The pool of a holiday as runtime strings. The pools are configuration
/// data: adding a holiday means adding an arm here and in `pool_words`,
/// never touching the selection algorithm.
pub fn holiday_pool(h: HolidayLabel) -> (r: Vec<String>)
    ensures
        r@.map_values(|s: String| s@) == pool_words(h),
        r@.len() == pool_words(h).len(),
{
    let mut v: Vec<String> = Vec::new();
    match h {
        HolidayLabel::Christmas => {
            v.push(String::from_str("decorated"));
            v.push(String::from_str("tree"));
            v.push(String::from_str("lights"));
            v.push(String::from_str("fireplace"));
            v.push(String::from_str("cozy"));
            v.push(String::from_str("festive"));
            v.push(String::from_str("ornaments"));
            v.push(String::from_str("wreath"));
            v.push(String::from_str("gift"));
            v.push(String::from_str("warm"));
        },
        HolidayLabel::NewYear => {
            v.push(String::from_str("celebration"));
            v.push(String::from_str("fireworks"));
            v.push(String::from_str("champagne"));
            v.push(String::from_str("festive"));
            v.push(String::from_str("party"));
            v.push(String::from_str("countdown"));
            v.push(String::from_str("sparkle"));
            v.push(String::from_str("midnight"));
        },
        HolidayLabel::Halloween => {
            v.push(String::from_str("spooky"));
            v.push(String::from_str("pumpkin"));
            v.push(String::from_str("haunted"));
            v.push(String::from_str("autumn"));
            v.push(String::from_str("witch"));
            v.push(String::from_str("ghost"));
            v.push(String::from_str("candle"));
            v.push(String::from_str("dark"));
            v.push(String::from_str("mysterious"));
        },
        HolidayLabel::Easter => {
            v.push(String::from_str("spring"));
            v.push(String::from_str("colorful"));
            v.push(String::from_str("flowers"));
            v.push(String::from_str("pastel"));
            v.push(String::from_str("bunny"));
            v.push(String::from_str("eggs"));
            v.push(String::from_str("garden"));
            v.push(String::from_str("bloom"));
            v.push(String::from_str("bright"));
        },
    }
    proof {
        assert(v@.map_values(|s: String| s@) =~= pool_words(h));
    }
    v
}

/// Relies on rand::seq::index::sample, seeded by rand::rng: it returns
/// exactly `amount` distinct indices drawn uniformly from `0..length`, in
/// random order, and panics only when `amount` exceeds `length`.
#[verifier::external_body]
fn sample_two_indices(length: usize) -> (r: (usize, usize))
    requires
        2 <= length,
    ensures
        r.0 < length,
        r.1 < length,
        r.0 != r.1,
{
    let mut rng = rand::rng();
    let picked = rand::seq::index::sample(&mut rng, length, 2);
    (picked.index(0), picked.index(1))
}

/// The deterministic trailing terms: the time-of-day word (day contributes
/// none), then snow or rain — snow wins when both fall — then cloudy, only
/// under heavy cover with no precipitation at all.
pub open spec fn weather_terms(
    label: TimeOfDayLabel,
    cloudcover: u32,
    rain_cmm: u32,
    snowfall_cmm: u32,
) -> Seq<Seq<char>> {
    let tod_part: Seq<Seq<char>> = if label is Day {
        seq![]
    } else {
        seq![tod_word(label)]
    };
    let precip_part: Seq<Seq<char>> = if snowfall_cmm > 0 {
        seq!["snow"@]
    } else if rain_cmm > 0 {
        seq!["rain"@]
    } else {
        seq![]
    };
    let cloud_part: Seq<Seq<char>> = if snowfall_cmm == 0 && rain_cmm == 0 && cloudcover >= 70 {
        seq!["cloudy"@]
    } else {
        seq![]
    };
    tod_part + precip_part + cloud_part
}

/// Compose the photo search query for a date, the current instant and the
/// weather. With a holiday active the query opens with the holiday's name
/// and two flavour words drawn without replacement from its pool — the sole
/// randomized element; otherwise it opens with the season's name alone. The
/// deterministic weather terms follow in their fixed order.
pub fn build_photo_query(month: u32, day: u32, now: &DateTime, weather: &WeatherSnapshot) -> (r:
    PhotoQuery)
    requires
        valid_datetime(*now),
    ensures
        ({
            let label = solar_label_of(
                *now,
                opt_view(weather.sunrise),
                opt_view(weather.sunset),
            ).0;
            let tail = weather_terms(
                label,
                weather.cloudcover,
                weather.rain_cmm,
                weather.snowfall_cmm,
            );
            match holiday_of(month, day) {
                Some(h) => exists|i: int, j: int|
                    #![trigger pool_words(h)[i], pool_words(h)[j]]
                    0 <= i < pool_words(h).len() && 0 <= j < pool_words(h).len() && i != j
                        && r.query@ == join_words(
                        seq![holiday_word(h), pool_words(h)[i], pool_words(h)[j]] + tail,
                    ),
                None => r.query@ == join_words(seq![season_word(season_of(month))] + tail),
            }
        }),
{
    let ghost mut expected: Seq<Seq<char>> = Seq::empty();
    let ghost mut wi: int = 0;
    let ghost mut wj: int = 0;
    let mut parts: Vec<String> = Vec::new();
    let hol = classify_holiday(month, day);
    match hol {
        Some(h) => {
            parts.push(holiday_name(h));
            let pool = holiday_pool(h);
            assert(pool_words(h).len() >= 2);
            let (i, j) = sample_two_indices(pool.len());
            let first = pool[i].clone();
            let second = pool[j].clone();
            parts.push(first);
            parts.push(second);
            proof {
                wi = i as int;
                wj = j as int;
                expected = seq![holiday_word(h), pool_words(h)[wi], pool_words(h)[wj]];
                assert(parts@.map_values(|s: String| s@) =~= expected);
            }
        },
        None => {
            parts.push(season_name(classify_season(month)));
            proof {
                expected = seq![season_word(season_of(month))];
                assert(parts@.map_values(|s: String| s@) =~= expected);
            }
        },
    }
    let (label, _from_solar) = time_of_day_label(now, &weather.sunrise, &weather.sunset);
    match label {
        TimeOfDayLabel::Day => {},
        _ => {
            parts.push(tod_name(label));
            proof {
                expected = expected.push(tod_word(label));
                assert(parts@.map_values(|s: String| s@) =~= expected);
            }
        },
    }
    if weather.snowfall_cmm > 0 {
        parts.push(String::from_str("snow"));
        proof {
            expected = expected.push("snow"@);
            assert(parts@.map_values(|s: String| s@) =~= expected);
        }
    } else if weather.rain_cmm > 0 {
        parts.push(String::from_str("rain"));
        proof {
            expected = expected.push("rain"@);
            assert(parts@.map_values(|s: String| s@) =~= expected);
        }
    }
    if weather.snowfall_cmm == 0 && weather.rain_cmm == 0 && weather.cloudcover >= 70 {
        parts.push(String::from_str("cloudy"));
        proof {
            expected = expected.push("cloudy"@);
            assert(parts@.map_values(|s: String| s@) =~= expected);
        }
    }
    let query = join_spaces(&parts);
    proof {
        let tail = weather_terms(label, weather.cloudcover, weather.rain_cmm, weather.snowfall_cmm);
        match holiday_of(month, day) {
            Some(h) => {
                assert(expected =~= seq![holiday_word(h), pool_words(h)[wi], pool_words(h)[wj]]
                    + tail);
            },
            None => {
                assert(expected =~= seq![season_word(season_of(month))] + tail);
            },
        }
    }
    PhotoQuery { query }
}

/// Law: no holiday pool repeats a word, so the two flavour terms the
/// composer draws at distinct positions are always two distinct words,
/// whatever the random draw returned.
pub proof fn lemma_pool_words_distinct(h: HolidayLabel, i: int, j: int)
    requires
        0 <= i < pool_words(h).len(),
        0 <= j < pool_words(h).len(),
        i != j,
    ensures
        pool_words(h)[i] != pool_words(h)[j],
{
    match h {
        HolidayLabel::Christmas => {
            reveal_strlit("decorated");
            reveal_strlit("tree");
            reveal_strlit("lights");
            reveal_strlit("fireplace");
            reveal_strlit("cozy");
            reveal_strlit("festive");
            reveal_strlit("ornaments");
            reveal_strlit("wreath");
            reveal_strlit("gift");
            reveal_strlit("warm");
            assert("decorated"@.len() == 9);
            assert("tree"@.len() == 4);
            assert("lights"@.len() == 6);
            assert("fireplace"@.len() == 9);
            assert("cozy"@.len() == 4);
            assert("festive"@.len() == 7);
            assert("ornaments"@.len() == 9);
            assert("wreath"@.len() == 6);
            assert("gift"@.len() == 4);
            assert("warm"@.len() == 4);
            assert("decorated"@[0] == 'd');
            assert("tree"@[0] == 't');
            assert("lights"@[0] == 'l');
            assert("fireplace"@[0] == 'f');
            assert("cozy"@[0] == 'c');
            assert("festive"@[0] == 'f');
            assert("ornaments"@[0] == 'o');
            assert("wreath"@[0] == 'w');
            assert("gift"@[0] == 'g');
            assert("warm"@[0] == 'w');
        },
        HolidayLabel::NewYear => {
            reveal_strlit("celebration");
            reveal_strlit("fireworks");
            reveal_strlit("champagne");
            reveal_strlit("festive");
            reveal_strlit("party");
            reveal_strlit("countdown");
            reveal_strlit("sparkle");
            reveal_strlit("midnight");
            assert("celebration"@.len() == 11);
            assert("fireworks"@.len() == 9);
            assert("champagne"@.len() == 9);
            assert("festive"@.len() == 7);
            assert("party"@.len() == 5);
            assert("countdown"@.len() == 9);
            assert("sparkle"@.len() == 7);
            assert("midnight"@.len() == 8);
            assert("celebration"@[0] == 'c');
            assert("fireworks"@[0] == 'f');
            assert("champagne"@[0] == 'c');
            assert("festive"@[0] == 'f');
            assert("party"@[0] == 'p');
            assert("countdown"@[0] == 'c');
            assert("sparkle"@[0] == 's');
            assert("midnight"@[0] == 'm');
            assert("champagne"@[1] == 'h');
            assert("countdown"@[1] == 'o');
        },
        HolidayLabel::Halloween => {
            reveal_strlit("spooky");
            reveal_strlit("pumpkin");
            reveal_strlit("haunted");
            reveal_strlit("autumn");
            reveal_strlit("witch");
            reveal_strlit("ghost");
            reveal_strlit("candle");
            reveal_strlit("dark");
            reveal_strlit("mysterious");
            assert("spooky"@.len() == 6);
            assert("pumpkin"@.len() == 7);
            assert("haunted"@.len() == 7);
            assert("autumn"@.len() == 6);
            assert("witch"@.len() == 5);
            assert("ghost"@.len() == 5);
            assert("candle"@.len() == 6);
            assert("dark"@.len() == 4);
            assert("mysterious"@.len() == 10);
            assert("spooky"@[0] == 's');
            assert("pumpkin"@[0] == 'p');
            assert("haunted"@[0] == 'h');
            assert("autumn"@[0] == 'a');
            assert("witch"@[0] == 'w');
            assert("ghost"@[0] == 'g');
            assert("candle"@[0] == 'c');
            assert("dark"@[0] == 'd');
            assert("mysterious"@[0] == 'm');
        },
        HolidayLabel::Easter => {
            reveal_strlit("spring");
            reveal_strlit("colorful");
            reveal_strlit("flowers");
            reveal_strlit("pastel");
            reveal_strlit("bunny");
            reveal_strlit("eggs");
            reveal_strlit("garden");
            reveal_strlit("bloom");
            reveal_strlit("bright");
            assert("spring"@.len() == 6);
            assert("colorful"@.len() == 8);
            assert("flowers"@.len() == 7);
            assert("pastel"@.len() == 6);
            assert("bunny"@.len() == 5);
            assert("eggs"@.len() == 4);
            assert("garden"@.len() == 6);
            assert("bloom"@.len() == 5);
            assert("bright"@.len() == 6);
            assert("spring"@[0] == 's');
            assert("colorful"@[0] == 'c');
            assert("flowers"@[0] == 'f');
            assert("pastel"@[0] == 'p');
            assert("bunny"@[0] == 'b');
            assert("eggs"@[0] == 'e');
            assert("garden"@[0] == 'g');
            assert("bloom"@[0] == 'b');
            assert("bright"@[0] == 'b');
            assert("bunny"@[1] == 'u');
            assert("bloom"@[1] == 'l');
        },
    }
}

} // verus!
