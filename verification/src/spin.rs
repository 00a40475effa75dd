//! Spin animator: a decaying oscillation attached to an entity after a drop.
//!
//! An amplitude is an angle in fixed-point units (`ANGLE_UNIT` units per
//! radian). Each tick the animator sets the entity's rotation to the current
//! amplitude and then applies the decay rule
//! `amplitude -= clamp(amplitude, -1, 1) * 0.05`: large amplitudes lose a
//! capped constant per tick, amplitudes below one radian decay geometrically.
//! Once the magnitude falls to `SPIN_EPSILON` or below the oscillation is at
//! rest and the component is removed.

use vstd::prelude::*;
use vstd::math::abs;
use vstd::math::min;
use vstd::arithmetic::div_mod::lemma_div_is_ordered;
use vstd::arithmetic::div_mod::lemma_div_nonincreasing;
use vstd::arithmetic::div_mod::lemma_div_pos_is_pos;

verus! {

/// Fixed-point angle scale: this many units stand for one radian.
pub const ANGLE_UNIT: i64 = 1_000_000;

/// A quarter turn (pi/2 radians) in fixed-point units.
pub const HALF_PI_ANGLE: i64 = 1_570_796;

/// Amplitudes at or below this magnitude (0.001 radians) count as at rest.
pub const SPIN_EPSILON: i64 = 1_000;

/// Reciprocal of the per-tick decay factor 0.05.
pub const DECAY_DIVISOR: i64 = 20;

/// One decay tick on a non-negative amplitude magnitude: subtract one
/// twentieth of the magnitude, capping the correction at one twentieth of a
/// radian for magnitudes above one radian.
pub open spec fn decay_mag(m: int) -> int
    recommends
        m >= 0,
{
    m - min(m, ANGLE_UNIT as int) / (DECAY_DIVISOR as int)
}

/// One decay tick on a signed amplitude. The rule is odd-symmetric, so it is
/// the decay of the magnitude with the sign carried through.
pub open spec fn decay_step(a: int) -> int {
    if a >= 0 {
        decay_mag(a)
    } else {
        -decay_mag(-a)
    }
}

/// Executable decay tick, exactly the rule `decay_step` states.
pub fn decay_amplitude(a: i64) -> (r: i64)
    requires
        a != i64::MIN,
    ensures
        r == decay_step(a as int),
{
    if a >= 0 {
        let m: u64 = a as u64;
        let c: u64 = if m > (ANGLE_UNIT as u64) {
            ANGLE_UNIT as u64
        } else {
            m
        };
        let d: u64 = c / (DECAY_DIVISOR as u64);
        a - (d as i64)
    } else {
        let m: u64 = (-a) as u64;
        let c: u64 = if m > (ANGLE_UNIT as u64) {
            ANGLE_UNIT as u64
        } else {
            m
        };
        let d: u64 = c / (DECAY_DIVISOR as u64);
        a + (d as i64)
    }
}

/// The amplitude's magnitude never grows under decay, and the sign is kept:
/// the oscillation converges toward zero without overshooting it.
pub proof fn lemma_decay_monotone(a: int)
    ensures
        abs(decay_step(a)) <= abs(a),
        a >= 0 ==> 0 <= decay_step(a) <= a,
        a < 0 ==> a <= decay_step(a) <= 0,
{
    let m = abs(a) as int;
    let c = min(m, ANGLE_UNIT as int);
    lemma_div_pos_is_pos(c, DECAY_DIVISOR as int);
    lemma_div_nonincreasing(c, DECAY_DIVISOR as int);
    lemma_div_is_ordered(c, m, DECAY_DIVISOR as int);
}

/// While the amplitude is not yet at rest, each tick shrinks its magnitude by
/// at least 50 fixed-point units.
pub proof fn lemma_decay_progress(a: int)
    requires
        abs(a) > SPIN_EPSILON,
    ensures
        abs(decay_step(a)) <= abs(a) - 50,
{
    let m = abs(a) as int;
    let c = min(m, ANGLE_UNIT as int);
    assert(c >= SPIN_EPSILON + 1);
    assert((SPIN_EPSILON + 1) / (DECAY_DIVISOR as int) == 50);
    lemma_div_is_ordered(SPIN_EPSILON + 1, c, DECAY_DIVISOR as int);
    lemma_div_nonincreasing(c, DECAY_DIVISOR as int);
}

/// How many decay ticks an amplitude takes to come to rest.
pub open spec fn ticks_to_rest(a: int) -> nat
    decreases abs(a),
    via ticks_to_rest_decreases
{
    if abs(a) <= SPIN_EPSILON {
        0
    } else {
        1 + ticks_to_rest(decay_step(a))
    }
}

#[via_fn]
proof fn ticks_to_rest_decreases(a: int) {
    if abs(a) > SPIN_EPSILON {
        lemma_decay_progress(a);
    }
}

/// Spin decay terminates: any amplitude no larger than a quarter turn is at
/// rest after a bounded number of ticks (at most `HALF_PI_ANGLE / 50`).
pub proof fn lemma_spin_decay_terminates(a0: int)
    requires
        abs(a0) <= HALF_PI_ANGLE,
    ensures
        50 * ticks_to_rest(a0) <= abs(a0),
        ticks_to_rest(a0) <= 31415,
    decreases abs(a0),
{
    if abs(a0) <= SPIN_EPSILON {
    } else {
        lemma_decay_progress(a0);
        lemma_spin_decay_terminates(decay_step(a0));
    }
}

} // verus!
