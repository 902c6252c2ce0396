//! Naive local date-times: the fixed-format stamp parser, calendar
//! arithmetic down to a second count on a single timeline, the weekday, and
//! the clock-face formatting.
//!
//! The weather provider hands sunrise and sunset as local stamps in one of
//! two forms, `YYYY-MM-DDTHH:MM` or `YYYY-MM-DDTHH:MM:SS`, with no offset.
//! Anything else counts as malformed and degrades to the fallback
//! time-of-day label rather than erring.

use vstd::prelude::*;

use crate::text::{fmt_two_dec, fmt_u64, spec_dec, spec_two_dec};
use crate::types::{DateTime, FormattedTime};

verus! {

/// Gregorian leap year rule.
pub open spec fn leap(y: int) -> bool {
    y % 4 == 0 && (y % 100 != 0 || y % 400 == 0)
}

/// Whether a year is a leap year.
pub fn is_leap_year(year: u32) -> (r: bool)
    ensures
        r == leap(year as int),
{
    year % 4 == 0 && (year % 100 != 0 || year % 400 == 0)
}

/// The number of days in a month of a given year.
pub open spec fn days_in_month_of(y: int, m: int) -> int {
    if m == 2 {
        if leap(y) {
            29
        } else {
            28
        }
    } else if m == 4 || m == 6 || m == 9 || m == 11 {
        30
    } else {
        31
    }
}

/// The number of days in a month.
pub fn days_in_month(year: u32, month: u32) -> (r: u32)
    requires
        1 <= month <= 12,
    ensures
        r == days_in_month_of(year as int, month as int),
        28 <= r <= 31,
{
    if month == 2 {
        if is_leap_year(year) {
            29
        } else {
            28
        }
    } else if month == 4 || month == 6 || month == 9 || month == 11 {
        30
    } else {
        31
    }
}

/// A well-formed calendar instant: a real date of a four-digit year and a
/// real time of day.
pub open spec fn valid_datetime(dt: DateTime) -> bool {
    &&& dt.year <= 9999
    &&& 1 <= dt.month <= 12
    &&& 1 <= dt.day <= days_in_month_of(dt.year as int, dt.month as int)
    &&& dt.hour <= 23
    &&& dt.minute <= 59
    &&& dt.second <= 59
}

/// Days in all the months of year `y` before month `m`.
pub open spec fn days_before_month(y: int, m: int) -> int
    decreases m,
{
    if m <= 1 {
        0
    } else {
        days_before_month(y, m - 1) + days_in_month_of(y, m - 1)
    }
}

/// Days in all the years before year `y`, counted from year zero.
pub open spec fn days_before_year(y: int) -> int
    decreases y,
{
    if y <= 0 {
        0
    } else {
        days_before_year(y - 1) + if leap(y - 1) {
            366int
        } else {
            365int
        }
    }
}

/// The index of a date's day on the timeline that starts at the first day
/// of year zero.
pub open spec fn day_number(dt: DateTime) -> int {
    days_before_year(dt.year as int) + days_before_month(dt.year as int, dt.month as int) + (
    dt.day - 1)
}

/// The instant's position on the timeline, in seconds.
pub open spec fn seconds_of(dt: DateTime) -> int {
    day_number(dt) * 86400 + dt.hour * 3600 + dt.minute * 60 + dt.second
}

proof fn lemma_days_before_year_bound(y: int)
    requires
        0 <= y,
    ensures
        days_before_year(y) <= 366 * y,
    decreases y,
{
    if y > 0 {
        lemma_days_before_year_bound(y - 1);
    }
}

/// The date's day index on the year-zero timeline, as a machine integer.
pub fn day_count(dt: &DateTime) -> (r: u64)
    requires
        valid_datetime(*dt),
    ensures
        r as int == day_number(*dt),
        r < 3_700_000,
{
    proof {
        lemma_days_before_year_bound(dt.year as int);
    }
    let mut days: u64 = 0;
    let mut y: u32 = 0;
    while y < dt.year
        invariant
            y <= dt.year <= 9999,
            days as int == days_before_year(y as int),
            days as int <= 366 * y,
        decreases dt.year - y,
    {
        if is_leap_year(y) {
            days = days + 366;
        } else {
            days = days + 365;
        }
        y = y + 1;
    }
    let mut m: u32 = 1;
    while m < dt.month
        invariant
            1 <= m <= dt.month <= 12,
            valid_datetime(*dt),
            y == dt.year,
            days as int == days_before_year(dt.year as int) + days_before_month(
                dt.year as int,
                m as int,
            ),
            days as int <= 366 * dt.year + 31 * m,
        decreases dt.month - m,
    {
        days = days + days_in_month(dt.year, m) as u64;
        m = m + 1;
    }
    days + (dt.day - 1) as u64
}

/// The instant's position on the timeline in seconds, as a machine integer.
/// Every valid instant fits comfortably in `i64`, so the later one-hour
/// shifts around sunrise and sunset stay far from the ends of the type.
pub fn datetime_seconds(dt: &DateTime) -> (r: i64)
    requires
        valid_datetime(*dt),
    ensures
        r as int == seconds_of(*dt),
        0 <= r < 320_000_000_000,
{
    let days = day_count(dt);
    let secs: u64 = days * 86400 + (dt.hour as u64) * 3600 + (dt.minute as u64) * 60 + (
    dt.second as u64);
    secs as i64
}

/// A decimal digit character.
pub open spec fn is_digit(c: char) -> bool {
    48 <= c as int <= 57
}

/// The value of a decimal digit character.
pub open spec fn digit_val(c: char) -> int {
    c as int - 48
}

/// The digit at position `i`, or nothing when the character there is not a
/// digit.
fn digit_at(s: &str, i: usize) -> (r: Option<u32>)
    requires
        i < s@.len(),
    ensures
        match r {
            Some(v) => is_digit(s@[i as int]) && v as int == digit_val(s@[i as int]),
            None => !is_digit(s@[i as int]),
        },
{
    let c = s.get_char(i);
    let v = c as u32;
    if 48 <= v && v <= 57 {
        Some(v - 48)
    } else {
        None
    }
}

/// The stamp's characters have the accepted shape: `YYYY-MM-DDTHH:MM`,
/// optionally extended by `:SS`.
pub open spec fn well_formed_stamp(s: Seq<char>) -> bool {
    &&& (s.len() == 16 || s.len() == 19)
    &&& is_digit(s[0]) && is_digit(s[1]) && is_digit(s[2]) && is_digit(s[3])
    &&& s[4] == '-'
    &&& is_digit(s[5]) && is_digit(s[6])
    &&& s[7] == '-'
    &&& is_digit(s[8]) && is_digit(s[9])
    &&& s[10] == 'T'
    &&& is_digit(s[11]) && is_digit(s[12])
    &&& s[13] == ':'
    &&& is_digit(s[14]) && is_digit(s[15])
    &&& (s.len() == 19 ==> s[16] == ':' && is_digit(s[17]) && is_digit(s[18]))
}

pub open spec fn four_digit(s: Seq<char>, i: int) -> int {
    digit_val(s[i]) * 1000 + digit_val(s[i + 1]) * 100 + digit_val(s[i + 2]) * 10 + digit_val(
        s[i + 3],
    )
}

pub open spec fn two_digit(s: Seq<char>, i: int) -> int {
    digit_val(s[i]) * 10 + digit_val(s[i + 1])
}

/// The fields a well-formed stamp carries; the seconds field is zero in the
/// shorter form.
pub open spec fn stamp_fields(s: Seq<char>) -> DateTime {
    DateTime {
        year: four_digit(s, 0) as u32,
        month: two_digit(s, 5) as u32,
        day: two_digit(s, 8) as u32,
        hour: two_digit(s, 11) as u32,
        minute: two_digit(s, 14) as u32,
        second: if s.len() == 19 {
            two_digit(s, 17) as u32
        } else {
            0
        },
    }
}

/// What parsing a stamp yields: its fields, when the text has the accepted
/// shape and names a real instant; nothing otherwise.
pub open spec fn parse_stamp(s: Seq<char>) -> Option<DateTime> {
    if well_formed_stamp(s) && valid_datetime(stamp_fields(s)) {
        Some(stamp_fields(s))
    } else {
        None
    }
}

/// Parse a sunrise or sunset stamp. Accepts exactly the two provider forms,
/// `YYYY-MM-DDTHH:MM` and `YYYY-MM-DDTHH:MM:SS`, as naive local time, and
/// rejects any text that does not name a real instant.
pub fn parse_naive_datetime(s: &str) -> (r: Option<DateTime>)
    ensures
        r == parse_stamp(s@),
        r matches Some(dt) ==> valid_datetime(dt),
{
    let n = s.unicode_len();
    if n != 16 && n != 19 {
        return None;
    }
    if s.get_char(4) != '-' || s.get_char(7) != '-' || s.get_char(10) != 'T' || s.get_char(13)
        != ':' {
        return None;
    }
    if n == 19 && s.get_char(16) != ':' {
        return None;
    }
    let y0 = match digit_at(s, 0) {
        Some(v) => v,
        None => { return None; },
    };
    let y1 = match digit_at(s, 1) {
        Some(v) => v,
        None => { return None; },
    };
    let y2 = match digit_at(s, 2) {
        Some(v) => v,
        None => { return None; },
    };
    let y3 = match digit_at(s, 3) {
        Some(v) => v,
        None => { return None; },
    };
    let mo0 = match digit_at(s, 5) {
        Some(v) => v,
        None => { return None; },
    };
    let mo1 = match digit_at(s, 6) {
        Some(v) => v,
        None => { return None; },
    };
    let d0 = match digit_at(s, 8) {
        Some(v) => v,
        None => { return None; },
    };
    let d1 = match digit_at(s, 9) {
        Some(v) => v,
        None => { return None; },
    };
    let h0 = match digit_at(s, 11) {
        Some(v) => v,
        None => { return None; },
    };
    let h1 = match digit_at(s, 12) {
        Some(v) => v,
        None => { return None; },
    };
    let mi0 = match digit_at(s, 14) {
        Some(v) => v,
        None => { return None; },
    };
    let mi1 = match digit_at(s, 15) {
        Some(v) => v,
        None => { return None; },
    };
    let second: u32 = if n == 19 {
        let s0 = match digit_at(s, 17) {
            Some(v) => v,
            None => { return None; },
        };
        let s1 = match digit_at(s, 18) {
            Some(v) => v,
            None => { return None; },
        };
        s0 * 10 + s1
    } else {
        0
    };
    let dt = DateTime {
        year: y0 * 1000 + y1 * 100 + y2 * 10 + y3,
        month: mo0 * 10 + mo1,
        day: d0 * 10 + d1,
        hour: h0 * 10 + h1,
        minute: mi0 * 10 + mi1,
        second,
    };
    proof {
        assert(well_formed_stamp(s@));
        assert(dt == stamp_fields(s@));
    }
    if dt.month < 1 || dt.month > 12 {
        return None;
    }
    if dt.day < 1 || dt.day > days_in_month(dt.year, dt.month) {
        return None;
    }
    if dt.hour > 23 || dt.minute > 59 || dt.second > 59 {
        return None;
    }
    Some(dt)
}

/// The weekday of a date, as an index with Monday zero. The timeline's day
/// zero falls on a Saturday, so a shift of five days aligns the count.
pub open spec fn weekday_index(dt: DateTime) -> int {
    (day_number(dt) + 5) % 7
}

pub open spec fn weekday_word(i: int) -> Seq<char> {
    if i == 0 {
        "MONDAY"@
    } else if i == 1 {
        "TUESDAY"@
    } else if i == 2 {
        "WEDNESDAY"@
    } else if i == 3 {
        "THURSDAY"@
    } else if i == 4 {
        "FRIDAY"@
    } else if i == 5 {
        "SATURDAY"@
    } else {
        "SUNDAY"@
    }
}

/// The uppercase weekday name of a date.
pub fn weekday_name(dt: &DateTime) -> (r: String)
    requires
        valid_datetime(*dt),
    ensures
        r@ == weekday_word(weekday_index(*dt)),
{
    let days = day_count(dt);
    let idx = (days + 5) % 7;
    if idx == 0 {
        String::from_str("MONDAY")
    } else if idx == 1 {
        String::from_str("TUESDAY")
    } else if idx == 2 {
        String::from_str("WEDNESDAY")
    } else if idx == 3 {
        String::from_str("THURSDAY")
    } else if idx == 4 {
        String::from_str("FRIDAY")
    } else if idx == 5 {
        String::from_str("SATURDAY")
    } else {
        String::from_str("SUNDAY")
    }
}

/// The uppercase three-letter abbreviation of a month.
pub open spec fn month_abbrev(m: int) -> Seq<char> {
    if m == 1 {
        "JAN"@
    } else if m == 2 {
        "FEB"@
    } else if m == 3 {
        "MAR"@
    } else if m == 4 {
        "APR"@
    } else if m == 5 {
        "MAY"@
    } else if m == 6 {
        "JUN"@
    } else if m == 7 {
        "JUL"@
    } else if m == 8 {
        "AUG"@
    } else if m == 9 {
        "SEP"@
    } else if m == 10 {
        "OCT"@
    } else if m == 11 {
        "NOV"@
    } else {
        "DEC"@
    }
}

fn month_abbrev_name(m: u32) -> (r: &'static str)
    requires
        1 <= m <= 12,
    ensures
        r@ == month_abbrev(m as int),
{
    if m == 1 {
        "JAN"
    } else if m == 2 {
        "FEB"
    } else if m == 3 {
        "MAR"
    } else if m == 4 {
        "APR"
    } else if m == 5 {
        "MAY"
    } else if m == 6 {
        "JUN"
    } else if m == 7 {
        "JUL"
    } else if m == 8 {
        "AUG"
    } else if m == 9 {
        "SEP"
    } else if m == 10 {
        "OCT"
    } else if m == 11 {
        "NOV"
    } else {
        "DEC"
    }
}

/// The clock face's view of an instant: `HH:MM`, a date line such as
/// `NOV 28, 2025`, the uppercase weekday, and the caller's millisecond
/// timestamp carried through unchanged.
pub fn format_current_time(now: &DateTime, timestamp_ms: u64) -> (r: FormattedTime)
    requires
        valid_datetime(*now),
    ensures
        r.time@ == spec_two_dec(now.hour as int) + seq![':'] + spec_two_dec(now.minute as int),
        r.date@ == month_abbrev(now.month as int) + seq![' '] + spec_dec(now.day as int) + seq![
            ',',
            ' ',
        ] + spec_dec(now.year as int),
        r.day_of_week@ == weekday_word(weekday_index(*now)),
        r.timestamp == timestamp_ms,
{
    let mut time = fmt_two_dec(now.hour as u64);
    proof { reveal_strlit(":"); }
    time.append(":");
    let minute_part = fmt_two_dec(now.minute as u64);
    time.append(minute_part.as_str());
    proof {
        assert(time@ =~= spec_two_dec(now.hour as int) + seq![':'] + spec_two_dec(
            now.minute as int,
        ));
    }
    let mut date = String::from_str(month_abbrev_name(now.month));
    proof { reveal_strlit(" "); }
    date.append(" ");
    let day_part = fmt_u64(now.day as u64);
    date.append(day_part.as_str());
    proof { reveal_strlit(", "); }
    date.append(", ");
    let year_part = fmt_u64(now.year as u64);
    date.append(year_part.as_str());
    proof {
        assert(date@ =~= month_abbrev(now.month as int) + seq![' '] + spec_dec(now.day as int)
            + seq![',', ' '] + spec_dec(now.year as int));
    }
    FormattedTime { time, date, day_of_week: weekday_name(now), timestamp: timestamp_ms }
}

} // verus!
