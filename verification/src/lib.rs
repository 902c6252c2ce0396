//! Ambient-display core: calendar and solar classification, photo-query
//! composition, precipitation display, and cache-freshness evaluation.
//!
//! Every function here is pure: callers hand in the current instant, the
//! weather values and the cached timestamps as plain values, and the
//! surrounding application performs the clock reads and the network calls.

pub mod calendar;
pub mod datetime;
pub mod freshness;
pub mod photos;
pub mod precipitation;
pub mod query;
pub mod solar;
pub mod text;
pub mod types;

use vstd::prelude::*;

verus! {

/// Greeting used by the surrounding application to check the bridge between
/// the user interface and this library.
pub fn greet(name: &str) -> (r: String)
    ensures
        r@ == "Hello, "@ + name@ + "! You've been greeted from Rust!"@,
{
    let mut s = String::from_str("Hello, ");
    s.append(name);
    s.append("! You've been greeted from Rust!");
    s
}

} // verus!
