//! The adaptive frame pacer.
//!
//! After each frame the pacer derives the next sleep delay from the larger
//! of the two directions' animation advances:
//!
//! - advance above one icon step per frame (the animation is too fast to
//!   resolve at the current frame rate): the delay shrinks in proportion,
//!   so that a frame of the same speed-derived rate advances one step;
//! - both advances below a tenth of a step (the animation is nearly
//!   static): the delay is restored to the configured base interval;
//! - otherwise the delay is left unchanged — the hysteresis band between
//!   the two thresholds prevents oscillation.

use vstd::arithmetic::div_mod::{
    lemma_div_is_ordered_by_denominator, lemma_div_multiples_vanish, lemma_fundamental_div_mod,
    lemma_mod_division_less_than_divisor, lemma_multiply_divide_lt,
};
use vstd::prelude::*;

use crate::anim::{log10_floor, spec_advance, NANOS_PER_SEC, PHASE_SCALE};

verus! {

/// Advance threshold, in phase units, above which the delay shrinks:
/// one icon step per frame.
pub const ADVANCE_HIGH: u64 = PHASE_SCALE;

/// Advance threshold, in phase units, below which the delay is restored
/// to the base interval: a tenth of an icon step per frame.
pub const ADVANCE_LOW: u64 = PHASE_SCALE / 10;

/// The next frame delay in nanoseconds, from the current delay, the two
/// directions' advances of this frame, and the configured base delay.
pub open spec fn spec_next_delay(delay: nat, adv_up: nat, adv_down: nat, base: nat) -> nat {
    let m = if adv_up >= adv_down {
        adv_up
    } else {
        adv_down
    };
    if m > ADVANCE_HIGH as nat {
        delay * (PHASE_SCALE as nat) / m
    } else if adv_up < ADVANCE_LOW as nat && adv_down < ADVANCE_LOW as nat {
        base
    } else {
        delay
    }
}

/// Computes the next frame delay, per `spec_next_delay`.
pub fn next_delay(delay_ns: u64, adv_up: u64, adv_down: u64, base_ns: u64) -> (d: u64)
    ensures
        d as nat == spec_next_delay(delay_ns as nat, adv_up as nat, adv_down as nat, base_ns as nat),
        adv_up < ADVANCE_LOW && adv_down < ADVANCE_LOW ==> d == base_ns,
{
    let m = if adv_up >= adv_down {
        adv_up
    } else {
        adv_down
    };
    if m > ADVANCE_HIGH {
        let shrunk: u128 = (delay_ns as u128) * (PHASE_SCALE as u128) / (m as u128);
        proof {
            lemma_div_is_ordered_by_denominator(
                delay_ns as int * PHASE_SCALE as int,
                PHASE_SCALE as int,
                m as int,
            );
            lemma_div_multiples_vanish(delay_ns as int, PHASE_SCALE as int);
        }
        shrunk as u64
    } else if adv_up < ADVANCE_LOW && adv_down < ADVANCE_LOW {
        base_ns
    } else {
        delay_ns
    }
}

/// The pacer's clamp-down rule shrinks the delay exactly far enough and no
/// further. When the larger advance `m` exceeds one icon step per frame, the
/// new delay `d` is the largest whole-nanosecond delay at which a frame of
/// the same speed-derived rate (`m` phase units per `delay` nanoseconds)
/// advances at most one icon step: `m * d <= delay * PHASE_SCALE`, while
/// every longer delay advances more than one step. And once both advances
/// fall below a tenth of a step, the delay is restored to exactly the
/// configured base interval.
pub proof fn lemma_pacer_adapts(delay: nat, adv_up: nat, adv_down: nat, base: nat)
    ensures
        ({
            let m = if adv_up >= adv_down { adv_up } else { adv_down };
            let d = spec_next_delay(delay, adv_up, adv_down, base);
            m > ADVANCE_HIGH ==> m * d <= delay * (PHASE_SCALE as nat) && m * (d + 1) > delay * (
            PHASE_SCALE as nat)
        }),
        adv_up < ADVANCE_LOW && adv_down < ADVANCE_LOW ==> spec_next_delay(
            delay,
            adv_up,
            adv_down,
            base,
        ) == base,
{
    let m = if adv_up >= adv_down {
        adv_up
    } else {
        adv_down
    };
    if m > ADVANCE_HIGH {
        let x = delay * (PHASE_SCALE as nat);
        let d = x / m;
        lemma_fundamental_div_mod(x as int, m as int);
        lemma_mod_division_less_than_divisor(x as int, m as int);
        assert(m * d <= x) by (nonlinear_arith)
            requires
                x as int == (m as int) * (d as int) + ((x as int) % (m as int)),
                (x as int) % (m as int) >= 0,
        ;
        assert(m * (d + 1) > x) by (nonlinear_arith)
            requires
                x as int == (m as int) * (d as int) + ((x as int) % (m as int)),
                (x as int) % (m as int) < (m as int),
        ;
    }
}

/// The pacer never shrinks the delay so far that the animation would
/// overshoot. When the larger advance of a frame is the upload or download
/// advance for the current speed estimate, exceeds one icon step, and is
/// not saturated, a next frame of the shrunk delay at the same speed
/// estimate advances at most one icon step.
pub proof fn lemma_pacer_prevents_overshoot(
    lin: nat,
    logc: nat,
    speed: nat,
    delay: nat,
    adv_other: nat,
    base: nat,
)
    requires
        spec_advance(lin, logc, speed, delay) > ADVANCE_HIGH,
        adv_other <= spec_advance(lin, logc, speed, delay),
        spec_advance(lin, logc, speed, delay) < u64::MAX,
    ensures
        spec_advance(
            lin,
            logc,
            speed,
            spec_next_delay(delay, spec_advance(lin, logc, speed, delay), adv_other, base),
        ) <= ADVANCE_HIGH,
{
    let nn = NANOS_PER_SEC as nat;
    let s = PHASE_SCALE as nat;
    let rate = lin * speed + logc * log10_floor(speed + 1);
    let r = if rate > u64::MAX {
        u64::MAX as nat
    } else {
        rate
    };
    let adv = r * delay / nn;
    assert(spec_advance(lin, logc, speed, delay) == adv);
    let nd = delay * s / adv;
    assert(spec_next_delay(delay, adv, adv_other, base) == nd);
    lemma_fundamental_div_mod((delay * s) as int, adv as int);
    lemma_mod_division_less_than_divisor((delay * s) as int, adv as int);
    assert(adv * nd <= delay * s) by (nonlinear_arith)
        requires
            (delay * s) as int == (adv as int) * (nd as int) + (((delay * s) as int) % (
            adv as int)),
            ((delay * s) as int) % (adv as int) >= 0,
    ;
    lemma_fundamental_div_mod((r * delay) as int, nn as int);
    lemma_mod_division_less_than_divisor((r * delay) as int, nn as int);
    assert(r * delay < (adv + 1) * nn) by (nonlinear_arith)
        requires
            (r * delay) as int == (nn as int) * (adv as int) + (((r * delay) as int) % (
            nn as int)),
            ((r * delay) as int) % (nn as int) < nn as int,
    ;
    assert(r * nd < nn * (s + 1)) by (nonlinear_arith)
        requires
            adv * nd <= delay * s,
            r * delay < (adv + 1) * nn,
            s < adv,
            nn >= 1,
            r >= 0,
            s >= 1,
    ;
    lemma_multiply_divide_lt((r * nd) as int, nn as int, (s + 1) as int);
    assert(r * nd / nn <= s);
    assert(spec_advance(lin, logc, speed, nd) <= s);
}

} // verus!
