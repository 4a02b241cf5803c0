//! Integer helpers: clamping, division that rounds toward zero, and the
//! distance covered at a given speed in a given time.
use vstd::prelude::*;
use crate::config::MICROS_PER_SECOND;

verus! {

/// `v` limited to the closed range `[lo, hi]`.
pub open spec fn clamp(v: int, lo: int, hi: int) -> int {
    if v < lo {
        lo
    } else if v > hi {
        hi
    } else {
        v
    }
}

/// `a / d` rounded toward zero (for `d > 0`).
pub open spec fn div_toward_zero(a: int, d: int) -> int {
    if a >= 0 {
        a / d
    } else {
        -((-a) / d)
    }
}

/// A frame's elapsed time as used by the physics: negative values count as no time.
pub open spec fn elapsed_of(micros: i64) -> int {
    if micros < 0 {
        0
    } else {
        micros as int
    }
}

/// Signed distance covered at `speed` (per second) during `micros`
/// microseconds, rounded toward zero.
pub open spec fn travel(speed: int, micros: i64) -> int {
    div_toward_zero(speed * elapsed_of(micros), MICROS_PER_SECOND as int)
}

/// `v` limited to the closed range `[lo, hi]`.
pub fn clamp_i128(v: i128, lo: i128, hi: i128) -> (r: i128)
    requires
        lo <= hi,
    ensures
        r == clamp(v as int, lo as int, hi as int),
        lo <= r <= hi,
{
    if v < lo {
        lo
    } else if v > hi {
        hi
    } else {
        v
    }
}

/// `v` limited to the range of `i64`.
pub fn saturate_i64(v: i128) -> (r: i64)
    ensures
        r == clamp(v as int, i64::MIN as int, i64::MAX as int),
{
    let c = clamp_i128(v, i64::MIN as i128, i64::MAX as i128);
    c as i64
}

/// Distance covered at `speed` during `micros` microseconds, rounded toward
/// zero; a negative time covers no distance.
pub fn travel_distance(speed: i64, micros: i64) -> (r: i128)
    ensures
        r == travel(speed as int, micros),
        -0x1000_0000_0000_0000_0000_0000_0000 <= r <= 0x1000_0000_0000_0000_0000_0000_0000,
{
    let t: i128 = if micros < 0 { 0 } else { micros as i128 };
    let v: i128 = speed as i128;
    let m: i128 = MICROS_PER_SECOND as i128;
    if v >= 0 {
        assert(0 <= v * t <= 0x4000_0000_0000_0000_0000_0000_0000_0000) by (nonlinear_arith)
            requires
                0 <= v <= 0x8000_0000_0000_0000,
                0 <= t <= 0x8000_0000_0000_0000,
        ;
        let p: i128 = v * t;
        assert(p / m <= p) by (nonlinear_arith)
            requires
                0 <= p,
                m == 1_000_000,
        ;
        assert(p / m <= 0x1000_0000_0000_0000_0000_0000_0000) by (nonlinear_arith)
            requires
                0 <= p <= 0x4000_0000_0000_0000_0000_0000_0000_0000,
                m == 1_000_000,
        ;
        p / m
    } else {
        let w: i128 = -v;
        assert(0 <= w * t <= 0x4000_0000_0000_0000_0000_0000_0000_0000) by (nonlinear_arith)
            requires
                0 <= w <= 0x8000_0000_0000_0000,
                0 <= t <= 0x8000_0000_0000_0000,
        ;
        let p: i128 = w * t;
        assert(p / m <= 0x1000_0000_0000_0000_0000_0000_0000) by (nonlinear_arith)
            requires
                0 <= p <= 0x4000_0000_0000_0000_0000_0000_0000_0000,
                m == 1_000_000,
        ;
        assert(v * t == -(w * t)) by (nonlinear_arith)
            requires
                w == -v,
        ;
        -(p / m)
    }
}

} // verus!
