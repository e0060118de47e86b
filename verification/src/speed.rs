//! The speed estimator.
//!
//! A speed in bytes per second is the single-interval average of the bytes
//! transferred since the previous sample over the elapsed wall-clock
//! milliseconds. When no time has passed, the previous estimate is kept
//! unchanged rather than dividing by zero. A result too large for the speed
//! type saturates at `u64::MAX`.

use vstd::prelude::*;

verus! {

/// The estimated speed in bytes per second: `bytes * 1000 / elapsed_ms`,
/// saturated at `u64::MAX`; the previous estimate when `elapsed_ms == 0`.
pub open spec fn spec_estimate(prev: nat, bytes: nat, elapsed_ms: nat) -> nat {
    if elapsed_ms == 0 {
        prev
    } else {
        let s = bytes * 1000 / elapsed_ms;
        if s > u64::MAX {
            u64::MAX as nat
        } else {
            s
        }
    }
}

/// Computes the speed estimate from the bytes transferred since the
/// previous sample and the elapsed milliseconds, per `spec_estimate`.
/// When `elapsed_ms == 0` the previous estimate is returned unchanged.
pub fn estimate_speed(prev: u64, bytes: u64, elapsed_ms: u64) -> (r: u64)
    ensures
        r as nat == spec_estimate(prev as nat, bytes as nat, elapsed_ms as nat),
        elapsed_ms == 0 ==> r == prev,
{
    if elapsed_ms == 0 {
        prev
    } else {
        let s: u128 = (bytes as u128) * 1000 / (elapsed_ms as u128);
        if s > u64::MAX as u128 {
            u64::MAX
        } else {
            s as u64
        }
    }
}

} // verus!
