//! The animated-icon state machine.
//!
//! Each direction of traffic owns one animation phase, a fixed-point counter
//! measured in phase units: `PHASE_SCALE` phase units are one icon step.
//! Every frame the phase grows by an advance derived from the current speed,
//! and is wrapped modulo the icon count, so that `phase / PHASE_SCALE` is
//! always a valid icon index.
//!
//! The advance per second is `lin_coeff * speed + log_coeff * ilog10(speed + 1)`
//! phase units, where `ilog10` is the integer part of the base-10 logarithm:
//! the linear term dominates at high speeds, the logarithmic term keeps slow
//! transfers visibly moving. The advance for a frame scales with the frame's
//! wall-clock duration in nanoseconds, so the perceived animation rate does
//! not depend on the frame rate. Intermediate values saturate at `u64::MAX`
//! phase units instead of overflowing.

use vstd::arithmetic::div_mod::lemma_mod_division_less_than_divisor;
use vstd::arithmetic::mul::lemma_mul_upper_bound;
use vstd::prelude::*;

verus! {

/// Number of phase units in one icon step.
pub const PHASE_SCALE: u64 = 1_000_000_000;

/// Nanoseconds per second: the time base of the advance formula.
pub const NANOS_PER_SEC: u64 = 1_000_000_000;

/// The integer part of the base-10 logarithm of `x`
/// (the position of the leading digit); `0` for `x == 0`.
pub open spec fn log10_floor(x: nat) -> nat
    decreases x,
{
    if x < 10 {
        0
    } else {
        log10_floor(x / 10) + 1
    }
}

/// `log10_floor` never exceeds its argument.
proof fn lemma_log10_floor_le(x: nat)
    ensures
        log10_floor(x) <= x,
    decreases x,
{
    if x >= 10 {
        lemma_log10_floor_le(x / 10);
    }
}

/// The animation advance of one frame, in phase units: the speed-derived
/// rate in phase units per second, scaled by the frame duration in
/// nanoseconds, with both the rate and the result saturating at `u64::MAX`.
pub open spec fn spec_advance(lin: nat, logc: nat, speed: nat, elapsed_ns: nat) -> nat {
    let rate = lin * speed + logc * log10_floor(speed + 1);
    let rate_capped = if rate > u64::MAX { u64::MAX as nat } else { rate };
    let adv = rate_capped * elapsed_ns / (NANOS_PER_SEC as nat);
    if adv > u64::MAX {
        u64::MAX as nat
    } else {
        adv
    }
}

/// For all non-negative coefficients, speeds and frame durations, the
/// animation advance is non-negative: the animation never runs backwards.
pub proof fn lemma_advance_nonneg(lin: nat, logc: nat, speed: nat, elapsed_ns: nat)
    ensures
        spec_advance(lin, logc, speed, elapsed_ns) >= 0,
{
}

/// The integer part of the base-10 logarithm of `x`; `0` for `x == 0`.
fn log10_floor_u128(x: u128) -> (r: u128)
    ensures
        r as nat == log10_floor(x as nat),
    decreases x,
{
    if x < 10 {
        0
    } else {
        proof {
            lemma_log10_floor_le((x / 10) as nat);
        }
        log10_floor_u128(x / 10) + 1
    }
}

/// Computes the animation advance of one frame in phase units, per
/// `spec_advance`.
pub fn compute_advance(lin: u64, logc: u64, speed: u64, elapsed_ns: u64) -> (a: u64)
    ensures
        a as nat == spec_advance(lin as nat, logc as nat, speed as nat, elapsed_ns as nat),
{
    let l10: u128 = log10_floor_u128(speed as u128 + 1);
    proof {
        lemma_log10_floor_le((speed + 1) as nat);
        lemma_mul_upper_bound(lin as int, u64::MAX as int, speed as int, u64::MAX as int);
        lemma_mul_upper_bound(
            logc as int,
            u64::MAX as int,
            l10 as int,
            u64::MAX as int + 1,
        );
    }
    let p1: u128 = (lin as u128) * (speed as u128);
    let p2: u128 = (logc as u128) * l10;
    let p1c: u128 = if p1 > u64::MAX as u128 {
        u64::MAX as u128
    } else {
        p1
    };
    let p2c: u128 = if p2 > u64::MAX as u128 {
        u64::MAX as u128
    } else {
        p2
    };
    let sum: u128 = p1c + p2c;
    let rate_capped: u128 = if sum > u64::MAX as u128 {
        u64::MAX as u128
    } else {
        sum
    };
    proof {
        lemma_mul_upper_bound(rate_capped as int, u64::MAX as int, elapsed_ns as int, u64::MAX as int);
    }
    let adv: u128 = rate_capped * (elapsed_ns as u128) / (NANOS_PER_SEC as u128);
    if adv > u64::MAX as u128 {
        u64::MAX
    } else {
        adv as u64
    }
}

/// A phase increased by an advance and wrapped modulo `n` icon steps.
pub open spec fn spec_wrap_phase(phase: nat, adv: nat, n: nat) -> nat {
    (phase + adv) % (n * PHASE_SCALE as nat)
}

/// A wrapped phase always lies within the `n` icon steps: for every icon
/// count `n >= 1`, the phase after any advance stays in `[0, n)` steps.
pub proof fn lemma_wrap_phase_in_range(phase: nat, adv: nat, n: nat)
    requires
        1 <= n,
    ensures
        spec_wrap_phase(phase, adv, n) < n * PHASE_SCALE as nat,
{
    assert(n * PHASE_SCALE as nat >= PHASE_SCALE as nat) by (nonlinear_arith)
        requires 1 <= n;
    lemma_mod_division_less_than_divisor((phase + adv) as int, (n * PHASE_SCALE as nat) as int);
}

/// Advances a phase and wraps it into the `n` icon steps.
pub fn advance_phase(phase: u64, adv: u64, n: usize) -> (p: u64)
    requires
        1 <= n,
        (n as nat) * (PHASE_SCALE as nat) <= u64::MAX as nat,
    ensures
        p as nat == spec_wrap_phase(phase as nat, adv as nat, n as nat),
        (p as nat) < (n as nat) * (PHASE_SCALE as nat),
{
    proof {
        lemma_wrap_phase_in_range(phase as nat, adv as nat, n as nat);
    }
    let modulus: u64 = (n as u64) * PHASE_SCALE;
    let s: u128 = phase as u128 + adv as u128;
    (s % (modulus as u128)) as u64
}

/// The icon index selected by a phase: the whole icon steps it holds.
pub open spec fn spec_icon_index(phase: nat) -> nat {
    phase / (PHASE_SCALE as nat)
}

/// The icon index for a phase that lies within the `n` icon steps.
pub fn icon_index(phase: u64, n: usize) -> (i: usize)
    requires
        1 <= n,
        (phase as nat) < (n as nat) * (PHASE_SCALE as nat),
    ensures
        i as nat == spec_icon_index(phase as nat),
        i < n,
{
    proof {
        assert((phase as nat) / (PHASE_SCALE as nat) < (n as nat)) by (nonlinear_arith)
            requires (phase as nat) < (n as nat) * (PHASE_SCALE as nat);
    }
    (phase / PHASE_SCALE) as usize
}

} // verus!
