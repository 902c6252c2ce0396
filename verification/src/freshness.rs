//! Cache freshness: whether a stored snapshot is still valid, and the
//! human-readable age and remaining-time strings. All arithmetic saturates,
//! so a captured-at instant ahead of the clock reads as age zero rather
//! than erring.

use vstd::prelude::*;

use crate::datetime::valid_datetime;
use crate::solar::{opt_view, solar_label_of, time_of_day_label, tod_name, tod_word};
use crate::text::{fmt_two_dec, fmt_u64, spec_dec, spec_two_dec};
use crate::types::{DateTime, DebugInfo};

verus! {

/// How long a cached weather or photo snapshot stays valid: thirty minutes,
/// in milliseconds.
pub const CACHE_TTL_MS: u64 = 1_800_000;

/// The age of a snapshot: how far the clock has moved past the capture
/// instant, zero under clock skew.
pub open spec fn age_of(captured_at_ms: u64, now_ms: u64) -> int {
    if now_ms >= captured_at_ms {
        now_ms - captured_at_ms
    } else {
        0
    }
}

/// A snapshot is fresh while its age is strictly below the time-to-live.
pub open spec fn spec_is_fresh(captured_at_ms: u64, now_ms: u64, ttl_ms: u64) -> bool {
    age_of(captured_at_ms, now_ms) < ttl_ms
}

/// Whether a snapshot captured at the given instant is still fresh at the
/// current instant, for the given time-to-live.
pub fn is_fresh(captured_at_ms: u64, now_ms: u64, ttl_ms: u64) -> (r: bool)
    ensures
        r == spec_is_fresh(captured_at_ms, now_ms, ttl_ms),
{
    now_ms.saturating_sub(captured_at_ms) < ttl_ms
}

/// Whether the photo cache entry captured at the given instant is still
/// valid at the current instant, under the fixed thirty-minute window.
pub fn is_cache_valid(cache_timestamp: u64, now_ms: u64) -> (r: bool)
    ensures
        r == spec_is_fresh(cache_timestamp, now_ms, CACHE_TTL_MS),
{
    is_fresh(cache_timestamp, now_ms, CACHE_TTL_MS)
}

/// Law: a zero age is always fresh, for any capture instant and any
/// positive time-to-live; and at exactly the time-to-live the entry has
/// expired — the boundary is exclusive.
pub proof fn lemma_freshness_boundaries(t: u64, ttl: u64)
    requires
        ttl > 0,
    ensures
        spec_is_fresh(t, t, ttl),
        t + ttl <= u64::MAX ==> !spec_is_fresh(t, (t + ttl) as u64, ttl),
{
}

/// A snapshot's age bucketed for display: seconds under a minute, then
/// whole minutes under an hour, whole hours under a day, else whole days,
/// each by truncating division.
pub open spec fn spec_age_text(captured_at_ms: u64, now_ms: u64) -> Seq<char> {
    let seconds = age_of(captured_at_ms, now_ms) / 1000;
    let minutes = seconds / 60;
    let hours = minutes / 60;
    if seconds < 60 {
        spec_dec(seconds) + "s ago"@
    } else if minutes < 60 {
        spec_dec(minutes) + "m ago"@
    } else if hours < 24 {
        spec_dec(hours) + "h ago"@
    } else {
        spec_dec(hours / 24) + "d ago"@
    }
}

/// Render a snapshot's age for display.
pub fn format_age(captured_at_ms: u64, now_ms: u64) -> (r: String)
    ensures
        r@ == spec_age_text(captured_at_ms, now_ms),
{
    let seconds = now_ms.saturating_sub(captured_at_ms) / 1000;
    let minutes = seconds / 60;
    let hours = minutes / 60;
    if seconds < 60 {
        let mut r = fmt_u64(seconds);
        r.append("s ago");
        r
    } else if minutes < 60 {
        let mut r = fmt_u64(minutes);
        r.append("m ago");
        r
    } else if hours < 24 {
        let mut r = fmt_u64(hours);
        r.append("h ago");
        r
    } else {
        let mut r = fmt_u64(hours / 24);
        r.append("d ago");
        r
    }
}

/// The time left until an instant, bucketed for display: nonpositive spans
/// read `0s`; with whole hours left, hours and zero-padded minutes; with
/// minutes left, minutes and zero-padded seconds; else bare seconds.
pub open spec fn spec_remaining_text(milliseconds: int) -> Seq<char> {
    if milliseconds <= 0 {
        "0s"@
    } else {
        let total_seconds = milliseconds / 1000;
        let hours = total_seconds / 3600;
        let minutes = (total_seconds % 3600) / 60;
        let seconds = total_seconds % 60;
        if hours > 0 {
            spec_dec(hours) + "h "@ + spec_two_dec(minutes) + "m"@
        } else if minutes > 0 {
            spec_dec(minutes) + "m "@ + spec_two_dec(seconds) + "s"@
        } else {
            spec_dec(seconds) + "s"@
        }
    }
}

/// Render the time left until an instant.
pub fn format_time_remaining(milliseconds: i64) -> (r: String)
    ensures
        r@ == spec_remaining_text(milliseconds as int),
{
    if milliseconds <= 0 {
        return String::from_str("0s");
    }
    let total_seconds = milliseconds / 1000;
    let hours = total_seconds / 3600;
    let minutes = (total_seconds % 3600) / 60;
    let seconds = total_seconds % 60;
    if hours > 0 {
        let mut r = fmt_u64(hours as u64);
        r.append("h ");
        let m = fmt_two_dec(minutes as u64);
        r.append(m.as_str());
        r.append("m");
        r
    } else if minutes > 0 {
        let mut r = fmt_u64(minutes as u64);
        r.append("m ");
        let s = fmt_two_dec(seconds as u64);
        r.append(s.as_str());
        r.append("s");
        r
    } else {
        let mut r = fmt_u64(seconds as u64);
        r.append("s");
        r
    }
}

/// The diagnostic overlay's summary: the cached photo's bucketed age (or
/// `unknown` without a cache), the active query (or `n/a`), and the
/// time-of-day classification with its provenance.
pub fn get_debug_info(
    cache_timestamp: Option<u64>,
    query: Option<String>,
    now_ms: u64,
    now: &DateTime,
    sunrise_iso: Option<String>,
    sunset_iso: Option<String>,
) -> (r: DebugInfo)
    requires
        valid_datetime(*now),
    ensures
        r.photo_age@ == match cache_timestamp {
            Some(ts) => spec_age_text(ts, now_ms),
            None => "unknown"@,
        },
        r.query@ == match query {
            Some(q) => q@,
            None => "n/a"@,
        },
        ({
            let (label, from_solar) = solar_label_of(
                *now,
                opt_view(sunrise_iso),
                opt_view(sunset_iso),
            );
            r.time_of_day@ == tod_word(label) && r.time_source@ == if from_solar {
                "api"@
            } else {
                "fallback"@
            }
        }),
{
    let photo_age = match cache_timestamp {
        Some(ts) => format_age(ts, now_ms),
        None => String::from_str("unknown"),
    };
    let query_str = match query {
        Some(q) => q,
        None => String::from_str("n/a"),
    };
    let (label, from_solar) = time_of_day_label(now, &sunrise_iso, &sunset_iso);
    let time_source = if from_solar {
        String::from_str("api")
    } else {
        String::from_str("fallback")
    };
    DebugInfo { photo_age, query: query_str, time_source, time_of_day: tod_name(label) }
}

} // verus!
