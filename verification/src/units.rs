//! Units, limits and the rounding rules of the fixed-point arithmetic.

use vstd::prelude::*;

verus! {

/// Raw value of one pixel, of one speed unit and of one radian.
pub const SCALE: i64 = 1000;

/// Largest window width or height, in thousandths of a pixel, that a geometry
/// is derived from.
pub const WINDOW_LIMIT: i64 = 1_000_000_000_000;

/// Speed of a vehicle with a free road ahead: 2.2.
pub const CRUISE_SPEED: i64 = 2200;

/// Speed of a vehicle that crosses the junction: 1.2.
pub const CROSSING_SPEED: i64 = 1200;

/// Target speed of a vehicle held back in a right lane: 0.2.
pub const CREEP_SPEED: i64 = 200;

/// Largest change of speed within one tick: 0.15.
pub const SPEED_STEP: i64 = 150;

/// Number of ticks in one second.
pub const TICKS_PER_SECOND: u64 = 60;

/// `k` tenths of the length `v`, rounded towards zero.
pub open spec fn tenths(k: int, v: int) -> int {
    k * v / 10
}

/// `v` brought into the range of `i64`.
pub open spec fn saturate(v: int) -> i64 {
    if v < i64::MIN {
        i64::MIN
    } else if v > i64::MAX {
        i64::MAX
    } else {
        v as i64
    }
}

/// Computes `k` tenths of a length.
pub fn tenths_of(k: i64, v: i64) -> (r: i64)
    requires
        0 <= k <= 100,
        0 <= v <= WINDOW_LIMIT,
    ensures
        r == tenths(k as int, v as int),
        0 <= r <= 10 * v,
{
    assert(0 <= k * v <= 100 * v) by (nonlinear_arith)
        requires
            0 <= k <= 100,
            0 <= v,
    ;
    k * v / 10
}

/// Brings a wide intermediate result back into `i64`.
pub fn saturating(v: i128) -> (r: i64)
    ensures
        r == saturate(v as int),
{
    if v < i64::MIN as i128 {
        i64::MIN
    } else if v > i64::MAX as i128 {
        i64::MAX
    } else {
        v as i64
    }
}

} // verus!
