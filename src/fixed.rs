//! Fixed-point helpers shared by the color and particle logic.
use vstd::prelude::*;

verus! {

/// Units that stand for the real number `1.0`.
pub const SCALE: i64 = 1_000_000;

/// `v` clamped to `[lo, hi]`.
pub open spec fn clamp_spec(v: int, lo: int, hi: int) -> int {
    if v < lo {
        lo
    } else if v > hi {
        hi
    } else {
        v
    }
}

/// Division of `n` by a positive `d`, rounded toward zero (as a float-to-int cast rounds).
pub open spec fn trunc_div(n: int, d: int) -> int {
    if n >= 0 {
        n / d
    } else {
        -((-n) / d)
    }
}

/// Linear interpolation from `a` (at `t == 0`) to `b` (at `t == SCALE`),
/// with the fractional part of the step rounded toward `a`.
pub open spec fn lerp_spec(a: int, b: int, t: int) -> int {
    if b >= a {
        a + (b - a) * t / (SCALE as int)
    } else {
        a - (a - b) * t / (SCALE as int)
    }
}

/// The 8-bit channel for a unit-interval fraction, truncating.
pub open spec fn byte_spec(v: int) -> int {
    v * 255 / (SCALE as int)
}

/// Integer square root: the largest `r` with `r * r <= n`.
pub open spec fn is_isqrt(n: int, r: int) -> bool {
    0 <= r && r * r <= n < (r + 1) * (r + 1)
}

/// Clamps a fixed-point value to the unit interval `[0, SCALE]`.
pub fn clamp_unit(v: i64) -> (r: i64)
    ensures
        r == clamp_spec(v as int, 0, SCALE as int),
        0 <= r <= SCALE,
{
    if v < 0 {
        0
    } else if v > SCALE {
        SCALE
    } else {
        v
    }
}

/// Clamps `v` to `[lo, hi]`.
pub fn clamp_range(v: i64, lo: i64, hi: i64) -> (r: i64)
    requires
        lo <= hi,
    ensures
        r == clamp_spec(v as int, lo as int, hi as int),
        lo <= r <= hi,
{
    if v < lo {
        lo
    } else if v > hi {
        hi
    } else {
        v
    }
}

/// Converts a unit-interval fraction to an 8-bit channel, truncating.
pub fn to_byte(v: i64) -> (r: u8)
    requires
        0 <= v <= SCALE,
    ensures
        r as int == byte_spec(v as int),
        v == SCALE ==> r == 255,
        v == 0 ==> r == 0,
{
    assert(0 <= v * 255 <= SCALE * 255) by (nonlinear_arith)
        requires
            0 <= v <= SCALE,
    ;
    assert(v * 255 / (SCALE as int) <= 255) by (nonlinear_arith)
        requires
            0 <= v * 255 <= SCALE * 255,
    ;
    ((v * 255) / SCALE) as u8
}

/// Divides by a positive divisor, rounding toward zero.
pub fn div_trunc(n: i64, d: i64) -> (r: i64)
    requires
        d > 0,
        n > i64::MIN,
    ensures
        r as int == trunc_div(n as int, d as int),
{
    if n >= 0 {
        n / d
    } else {
        let q: i64 = (-n) / d;
        -q
    }
}

/// Linear interpolation between `a` and `b` at the fraction `t`.
pub fn lerp(a: i64, b: i64, t: i64) -> (r: i64)
    requires
        0 <= t <= SCALE,
        -4 * SCALE * SCALE <= a <= 4 * SCALE * SCALE,
        -4 * SCALE * SCALE <= b <= 4 * SCALE * SCALE,
    ensures
        r as int == lerp_spec(a as int, b as int, t as int),
        t == 0 ==> r == a,
        t == SCALE ==> r == b,
        a <= b ==> a <= r <= b,
        b <= a ==> b <= r <= a,
{
    if b >= a {
        let d: i64 = b - a;
        assert(0 <= d * t <= d * SCALE) by (nonlinear_arith)
            requires
                0 <= d,
                0 <= t <= SCALE,
        ;
        assert(d * t / (SCALE as int) <= d) by (nonlinear_arith)
            requires
                0 <= d * t <= d * SCALE,
        ;
        assert(t == SCALE ==> d * t / (SCALE as int) == d) by (nonlinear_arith);
        assert(t == 0 ==> d * t == 0) by (nonlinear_arith);
        a + (d * t) / SCALE
    } else {
        let d: i64 = a - b;
        assert(0 <= d * t <= d * SCALE) by (nonlinear_arith)
            requires
                0 <= d,
                0 <= t <= SCALE,
        ;
        assert(d * t / (SCALE as int) <= d) by (nonlinear_arith)
            requires
                0 <= d * t <= d * SCALE,
        ;
        assert(t == SCALE ==> d * t / (SCALE as int) == d) by (nonlinear_arith);
        assert(t == 0 ==> d * t == 0) by (nonlinear_arith);
        a - (d * t) / SCALE
    }
}

/// Integer square root by bisection.
pub fn isqrt(n: u64) -> (r: u64)
    ensures
        is_isqrt(n as int, r as int),
{
    let mut lo: u64 = 0;
    let mut hi: u64 = 0x1_0000_0000;
    assert(n < hi * hi) by (nonlinear_arith)
        requires
            hi == 0x1_0000_0000,
            n <= u64::MAX,
    ;
    while hi - lo > 1
        invariant
            lo < hi <= 0x1_0000_0000,
            lo * lo <= n,
            n < hi * hi,
        decreases hi - lo,
    {
        let mid: u64 = lo + (hi - lo) / 2;
        assert(mid * mid < 0x1_0000_0000 * 0x1_0000_0000) by (nonlinear_arith)
            requires
                mid < 0x1_0000_0000,
        ;
        if mid * mid <= n {
            lo = mid;
        } else {
            hi = mid;
        }
    }
    assert(hi == lo + 1);
    lo
}

} // verus!
