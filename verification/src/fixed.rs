//! Saturating fixed-point helpers shared by the drag updater and the camera.
//!
//! World coordinates are `i64` fixed-point values. Dragging applies unbounded
//! pointer deltas, so sums are saturated at the representable range instead of
//! overflowing; within range they are exact.

use vstd::prelude::*;

verus! {

/// The sum of two fixed-point values, saturated at the `i64` range.
pub open spec fn sat_add(a: int, b: int) -> int {
    if a + b > i64::MAX {
        i64::MAX as int
    } else if a + b < i64::MIN {
        i64::MIN as int
    } else {
        a + b
    }
}

/// The difference of two fixed-point values, saturated at the `i64` range.
pub open spec fn sat_sub(a: int, b: int) -> int {
    if a - b > i64::MAX {
        i64::MAX as int
    } else if a - b < i64::MIN {
        i64::MIN as int
    } else {
        a - b
    }
}

/// Executable saturating addition, exactly `sat_add`.
pub fn sat_add_i64(a: i64, b: i64) -> (r: i64)
    ensures
        r == sat_add(a as int, b as int),
{
    if b >= 0 {
        if a > i64::MAX - b {
            i64::MAX
        } else {
            a + b
        }
    } else {
        if a < i64::MIN - b {
            i64::MIN
        } else {
            a + b
        }
    }
}

/// Executable saturating subtraction, exactly `sat_sub`.
pub fn sat_sub_i64(a: i64, b: i64) -> (r: i64)
    ensures
        r == sat_sub(a as int, b as int),
{
    if b >= 0 {
        if a < i64::MIN + b {
            i64::MIN
        } else {
            a - b
        }
    } else {
        if a > i64::MAX + b {
            i64::MAX
        } else {
            a - b
        }
    }
}

} // verus!
