//! Fixed-point scalar arithmetic.
//!
//! Signals are carried as `i64` values scaled by [`UNIT`]: one unit of a
//! signal (a fully active blendshape, one meter, the length of a unit
//! vector) is `UNIT` ticks.  The helpers here give the exact integer
//! semantics that the mappers' contracts are stated over.

use vstd::prelude::*;

verus! {

/// Number of fixed-point ticks in one unit.
pub const UNIT: i64 = 1_000_000;

/// What clamping a weight to the unit interval means.
pub open spec fn clamp_unit_spec(w: int) -> int {
    if w < 0 {
        0
    } else if w > UNIT {
        UNIT as int
    } else {
        w
    }
}

/// Clamp a fixed-point weight to `[0, UNIT]`.
pub fn clamp_unit(w: i64) -> (r: i64)
    ensures
        r == clamp_unit_spec(w as int),
{
    if w < 0 {
        0
    } else if w > UNIT {
        UNIT
    } else {
        w
    }
}

/// `r` is the integer square root of `x` rounded down.
pub open spec fn is_sqrt_floor(x: int, r: int) -> bool {
    &&& 0 <= r
    &&& r * r <= x
    &&& x < (r + 1) * (r + 1)
}

/// The integer square root is unique.
pub proof fn lemma_sqrt_floor_unique(x: int, a: int, b: int)
    requires
        is_sqrt_floor(x, a),
        is_sqrt_floor(x, b),
    ensures
        a == b,
{
    if a < b {
        assert((a + 1) * (a + 1) <= b * b) by (nonlinear_arith)
            requires
                0 <= a,
                0 <= b,
                a < b,
        ;
    }
    if b < a {
        assert((b + 1) * (b + 1) <= a * a) by (nonlinear_arith)
            requires
                0 <= a,
                0 <= b,
                b < a,
        ;
    }
}

/// The integer square root of `x` rounded down, as a function.
pub open spec fn sqrt_floor(x: int) -> int {
    choose|r: int| is_sqrt_floor(x, r)
}

/// A witness for `is_sqrt_floor` pins `sqrt_floor` down.
pub proof fn lemma_sqrt_floor_of_witness(x: int, r: int)
    requires
        is_sqrt_floor(x, r),
    ensures
        sqrt_floor(x) == r,
        is_sqrt_floor(x, sqrt_floor(x)),
{
    assert(is_sqrt_floor(x, sqrt_floor(x))) by {
        assert(exists|q: int| is_sqrt_floor(x, q));
    }
    lemma_sqrt_floor_unique(x, sqrt_floor(x), r);
}

/// Integer square root, rounded down.
pub fn isqrt(x: u128) -> (r: u128)
    ensures
        is_sqrt_floor(x as int, r as int),
        r as int == sqrt_floor(x as int),
{
    let mut lo: u128 = 0;
    let mut hi: u128 = 0x1_0000_0000_0000_0000;
    assert(hi * hi > x) by (nonlinear_arith)
        requires
            hi == 0x1_0000_0000_0000_0000u128,
            x <= u128::MAX,
    ;
    while lo + 1 < hi
        invariant
            lo < hi,
            hi <= 0x1_0000_0000_0000_0000,
            lo * lo <= x,
            x < hi * hi,
        decreases hi - lo,
    {
        let mid: u128 = lo + (hi - lo) / 2;
        assert(lo < mid < hi);
        assert(mid * mid <= u128::MAX) by (nonlinear_arith)
            requires
                mid < 0x1_0000_0000_0000_0000u128,
        ;
        if mid * mid <= x {
            lo = mid;
        } else {
            hi = mid;
        }
    }
    proof {
        lemma_sqrt_floor_of_witness(x as int, lo as int);
    }
    lo
}

/// `a * b / d` with the magnitude rounded toward zero and the sign of `a`.
pub open spec fn mul_div_spec(a: int, b: int, d: int) -> int
    recommends
        b >= 0,
        d > 0,
{
    if a >= 0 {
        a * b / d
    } else {
        -((-a) * b / d)
    }
}

/// Multiply then divide, exact over 128-bit intermediates.
///
/// Used to rescale a vector component by a ratio `b / d` that never
/// exceeds one in magnitude relative to the component bound: requiring
/// `|a| <= d` keeps the result within `[-b, b]`.
pub fn mul_div(a: i64, b: i64, d: i64) -> (r: i64)
    requires
        0 <= b,
        0 < d,
        -d <= a <= d,
    ensures
        r == mul_div_spec(a as int, b as int, d as int),
        -b <= r <= b,
{
    let mag_a: u128 = if a >= 0 {
        a as u128
    } else {
        (-a) as u128
    };
    assert(mag_a as int * (b as int) <= u128::MAX) by (nonlinear_arith)
        requires
            0 <= mag_a as int <= i64::MAX as int,
            0 <= b as int <= i64::MAX as int,
    ;
    let prod: u128 = mag_a * (b as u128);
    let mag: u128 = prod / (d as u128);
    assert(mag <= b) by (nonlinear_arith)
        requires
            mag as int == mag_a as int * (b as int) / (d as int),
            mag_a as int <= d as int,
            0 < d as int,
            0 <= b as int,
    ;
    if a >= 0 {
        mag as i64
    } else {
        -(mag as i64)
    }
}

} // verus!
