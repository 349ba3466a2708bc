//! The tick interval and its bounds.

use vstd::prelude::*;

verus! {

/// Shortest display time of one image, in milliseconds.
pub const MIN_INTERVAL_MS: u32 = 100;

/// Longest display time of one image, in milliseconds.
pub const MAX_INTERVAL_MS: u32 = 2000;

/// The interval nearest to `ms` within the bounds.
pub open spec fn clamped(ms: nat) -> nat {
    if ms < MIN_INTERVAL_MS {
        MIN_INTERVAL_MS as nat
    } else if ms > MAX_INTERVAL_MS {
        MAX_INTERVAL_MS as nat
    } else {
        ms
    }
}

/// Brings a requested interval into the bounds: a value below the minimum
/// becomes the minimum, one above the maximum becomes the maximum, and a
/// value within the bounds is kept.
pub fn clamp_interval(ms: u32) -> (r: u32)
    ensures
        r == clamped(ms as nat),
        MIN_INTERVAL_MS <= r <= MAX_INTERVAL_MS,
        MIN_INTERVAL_MS <= ms <= MAX_INTERVAL_MS ==> r == ms,
{
    if ms < MIN_INTERVAL_MS {
        MIN_INTERVAL_MS
    } else if ms > MAX_INTERVAL_MS {
        MAX_INTERVAL_MS
    } else {
        ms
    }
}

} // verus!
