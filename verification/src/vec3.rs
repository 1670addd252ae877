//! Fixed-point 3D vectors and quaternions.
//!
//! A vector component in ticks is `UNIT` times its value in units, so the
//! dot and cross products of two vectors come out scaled by `UNIT * UNIT`;
//! such once-multiplied quantities are called "raw" here.  Quaternion
//! components are in ticks, like vector components.

use vstd::prelude::*;
use crate::fixed::{UNIT, is_sqrt_floor, sqrt_floor, isqrt, mul_div, mul_div_spec};

verus! {

/// Largest component magnitude accepted by [`norm`]; its square times
/// three must fit in `u128`, and the norm itself in `i64`.
pub const NORM_INPUT_LIMIT: i64 = 1_000_000_000_000_000_000;

/// Mathematical value of a fixed-point 3D vector.
pub ghost struct Vec3View {
    pub x: int,
    pub y: int,
    pub z: int,
}

/// A 3D vector with components in fixed-point ticks.
#[derive(Clone, Copy, Debug, PartialEq, Eq, Structural)]
pub struct Vec3Fp {
    pub x: i64,
    pub y: i64,
    pub z: i64,
}

impl View for Vec3Fp {
    type V = Vec3View;

    open spec fn view(&self) -> Vec3View {
        Vec3View { x: self.x as int, y: self.y as int, z: self.z as int }
    }
}

impl Vec3Fp {
    pub fn new(x: i64, y: i64, z: i64) -> (v: Vec3Fp)
        ensures
            v@ == (Vec3View { x: x as int, y: y as int, z: z as int }),
    {
        Vec3Fp { x, y, z }
    }
}

/// Every component of `v` has magnitude at most `m`.
pub open spec fn in_bounds(v: Vec3View, m: int) -> bool {
    &&& -m <= v.x <= m
    &&& -m <= v.y <= m
    &&& -m <= v.z <= m
}

/// Dot product, scaled by `UNIT * UNIT`.
pub open spec fn dot_raw(a: Vec3View, b: Vec3View) -> int {
    a.x * b.x + a.y * b.y + a.z * b.z
}

/// Cross product, scaled by `UNIT * UNIT`.
pub open spec fn cross_raw(a: Vec3View, b: Vec3View) -> Vec3View {
    Vec3View {
        x: a.y * b.z - a.z * b.y,
        y: a.z * b.x - a.x * b.z,
        z: a.x * b.y - a.y * b.x,
    }
}

/// Euclidean length of `v` in the same scale as its components, rounded down.
pub open spec fn norm_raw(v: Vec3View) -> int {
    sqrt_floor(dot_raw(v, v))
}

/// A square never goes negative, so a dot of a vector with itself does not either.
pub proof fn lemma_self_dot_nonneg(v: Vec3View)
    ensures
        dot_raw(v, v) >= 0,
        v.x * v.x >= 0,
        v.y * v.y >= 0,
        v.z * v.z >= 0,
{
    assert(v.x * v.x >= 0) by (nonlinear_arith);
    assert(v.y * v.y >= 0) by (nonlinear_arith);
    assert(v.z * v.z >= 0) by (nonlinear_arith);
}

/// No component of a vector exceeds the vector's length.
pub proof fn lemma_component_le_norm(v: Vec3View, n: int)
    requires
        is_sqrt_floor(dot_raw(v, v), n),
    ensures
        -n <= v.x <= n,
        -n <= v.y <= n,
        -n <= v.z <= n,
{
    lemma_self_dot_nonneg(v);
    assert(-n <= v.x <= n) by (nonlinear_arith)
        requires
            v.x * v.x <= dot_raw(v, v),
            dot_raw(v, v) < (n + 1) * (n + 1),
            0 <= n,
    ;
    assert(-n <= v.y <= n) by (nonlinear_arith)
        requires
            v.y * v.y <= dot_raw(v, v),
            dot_raw(v, v) < (n + 1) * (n + 1),
            0 <= n,
    ;
    assert(-n <= v.z <= n) by (nonlinear_arith)
        requires
            v.z * v.z <= dot_raw(v, v),
            dot_raw(v, v) < (n + 1) * (n + 1),
            0 <= n,
    ;
}

/// Largest component magnitude accepted by the exec [`dot`] and [`cross`]
/// products; directions handed to them are unit vectors in ticks, with
/// room to spare for rounding.
pub const DIR_LIMIT: i64 = 2_000_000;

/// Dot product of two direction vectors, scaled by `UNIT * UNIT`.
pub fn dot(a: &Vec3Fp, b: &Vec3Fp) -> (d: i64)
    requires
        in_bounds(a@, DIR_LIMIT as int),
        in_bounds(b@, DIR_LIMIT as int),
    ensures
        d as int == dot_raw(a@, b@),
{
    proof {
        let l = DIR_LIMIT as int;
        assert(-(l * l) <= a.x as int * b.x as int <= l * l
            && -(l * l) <= a.y as int * b.y as int <= l * l
            && -(l * l) <= a.z as int * b.z as int <= l * l) by (nonlinear_arith)
            requires
                -l <= a.x as int <= l,
                -l <= a.y as int <= l,
                -l <= a.z as int <= l,
                -l <= b.x as int <= l,
                -l <= b.y as int <= l,
                -l <= b.z as int <= l,
                l == DIR_LIMIT as int,
        ;
    }
    a.x * b.x + a.y * b.y + a.z * b.z
}

/// Cross product of two direction vectors, scaled by `UNIT * UNIT`.
pub fn cross(a: &Vec3Fp, b: &Vec3Fp) -> (c: Vec3Fp)
    requires
        in_bounds(a@, DIR_LIMIT as int),
        in_bounds(b@, DIR_LIMIT as int),
    ensures
        c@ == cross_raw(a@, b@),
        in_bounds(c@, 2 * (DIR_LIMIT as int) * (DIR_LIMIT as int)),
{
    proof {
        let l = DIR_LIMIT as int;
        assert(forall|p: int, q: int|
            -l <= p <= l && -l <= q <= l ==> -(l * l) <= #[trigger] (p * q) <= l * l)
            by (nonlinear_arith)
            requires
                0 < l,
        ;
        assert(-l <= a.x as int <= l && -l <= a.y as int <= l && -l <= a.z as int <= l);
        assert(-l <= b.x as int <= l && -l <= b.y as int <= l && -l <= b.z as int <= l);
    }
    Vec3Fp {
        x: a.y * b.z - a.z * b.y,
        y: a.z * b.x - a.x * b.z,
        z: a.x * b.y - a.y * b.x,
    }
}

/// Magnitude of one component as a 128-bit unsigned value.
fn component_square(c: i64) -> (s: u128)
    ensures
        s as int == c as int * c as int,
{
    let m: u128 = if c >= 0 {
        c as u128
    } else {
        // i64::MIN has no i64 negation; widen first.
        (-(c as i128)) as u128
    };
    proof {
        assert(m as int * m as int == c as int * c as int) by (nonlinear_arith)
            requires
                m as int == if c as int >= 0 { c as int } else { -(c as int) },
        ;
        assert(m as int * m as int <= u128::MAX) by (nonlinear_arith)
            requires
                0 <= m as int <= 0x8000_0000_0000_0000,
        ;
    }
    m * m
}

/// Euclidean length of `v`, rounded down.
pub fn norm(v: &Vec3Fp) -> (n: i64)
    requires
        in_bounds(v@, NORM_INPUT_LIMIT as int),
    ensures
        n as int == norm_raw(v@),
        is_sqrt_floor(dot_raw(v@, v@), n as int),
        0 <= n,
        n == 0 <==> v@ == (Vec3View { x: 0, y: 0, z: 0 }),
{
    let sx: u128 = component_square(v.x);
    let sy: u128 = component_square(v.y);
    let sz: u128 = component_square(v.z);
    proof {
        assert(sx as int + sy as int + sz as int <= u128::MAX) by (nonlinear_arith)
            requires
                sx as int == v.x as int * v.x as int,
                sy as int == v.y as int * v.y as int,
                sz as int == v.z as int * v.z as int,
                in_bounds(v@, NORM_INPUT_LIMIT as int),
                v@ == (Vec3View { x: v.x as int, y: v.y as int, z: v.z as int }),
        ;
    }
    let s: u128 = sx + sy + sz;
    let r: u128 = isqrt(s);
    proof {
        let l = NORM_INPUT_LIMIT as int;
        assert(sx as int <= l * l && sy as int <= l * l && sz as int <= l * l)
            by (nonlinear_arith)
            requires
                sx as int == v.x as int * v.x as int,
                sy as int == v.y as int * v.y as int,
                sz as int == v.z as int * v.z as int,
                -l <= v.x as int <= l,
                -l <= v.y as int <= l,
                -l <= v.z as int <= l,
                l == NORM_INPUT_LIMIT as int,
        ;
        assert(r as int <= 2_000_000_000_000_000_000int) by (nonlinear_arith)
            requires
                r as int * r as int <= s as int,
                0 <= r as int,
                s as int <= 3 * (NORM_INPUT_LIMIT as int * NORM_INPUT_LIMIT as int),
        ;
        if s == 0 {
            assert(v.x as int == 0) by (nonlinear_arith)
                requires
                    v.x as int * v.x as int == 0,
            ;
            assert(v.y as int == 0) by (nonlinear_arith)
                requires
                    v.y as int * v.y as int == 0,
            ;
            assert(v.z as int == 0) by (nonlinear_arith)
                requires
                    v.z as int * v.z as int == 0,
            ;
            assert(r == 0) by (nonlinear_arith)
                requires
                    r as int * r as int <= 0,
                    0 <= r as int,
            ;
        } else {
            // is_sqrt_floor(s, 0) would force s < 1
            if r == 0 {
                assert((s as int) < ((r as int) + 1) * ((r as int) + 1));
                assert(((r as int) + 1) * ((r as int) + 1) == 1) by (nonlinear_arith)
                    requires
                        r as int == 0,
                ;
                assert(false);
            }
        }
        if v@ == (Vec3View { x: 0, y: 0, z: 0 }) {
            assert(v@.x == 0 && v@.y == 0 && v@.z == 0);
            assert(v.x as int == 0 && v.y as int == 0 && v.z as int == 0);
            assert(sx as int == 0 && sy as int == 0 && sz as int == 0)
                by (nonlinear_arith)
                requires
                    sx as int == v.x as int * v.x as int,
                    sy as int == v.y as int * v.y as int,
                    sz as int == v.z as int * v.z as int,
                    v.x as int == 0,
                    v.y as int == 0,
                    v.z as int == 0,
            ;
            assert(s == 0);
        }
    }
    r as i64
}

/// What normalizing means: `None` on the zero vector, else each component
/// rescaled by `UNIT` over the length.
pub open spec fn normalize_spec(v: Vec3View) -> Option<Vec3View> {
    let n = norm_raw(v);
    if n == 0 {
        None
    } else {
        Some(
            Vec3View {
                x: mul_div_spec(v.x, UNIT as int, n),
                y: mul_div_spec(v.y, UNIT as int, n),
                z: mul_div_spec(v.z, UNIT as int, n),
            },
        )
    }
}

/// Rescale `v` to unit length, in ticks; `None` on the zero vector.
pub fn try_normalize(v: &Vec3Fp) -> (u: Option<Vec3Fp>)
    requires
        in_bounds(v@, NORM_INPUT_LIMIT as int),
    ensures
        match u {
            Some(d) => {
                &&& normalize_spec(v@) == Some(d@)
                &&& in_bounds(d@, UNIT as int)
            },
            None => normalize_spec(v@) == None::<Vec3View>,
        },
{
    let n = norm(v);
    if n == 0 {
        None
    } else {
        proof {
            lemma_component_le_norm(v@, n as int);
        }
        let x = mul_div(v.x, UNIT, n);
        let y = mul_div(v.y, UNIT, n);
        let z = mul_div(v.z, UNIT, n);
        Some(Vec3Fp { x, y, z })
    }
}

/// Mathematical value of a fixed-point quaternion.
pub ghost struct QuatView {
    pub x: int,
    pub y: int,
    pub z: int,
    pub w: int,
}

/// A rotation quaternion with components in fixed-point ticks.
#[derive(Clone, Copy, Debug, PartialEq, Eq, Structural)]
pub struct QuatFp {
    pub x: i64,
    pub y: i64,
    pub z: i64,
    pub w: i64,
}

impl View for QuatFp {
    type V = QuatView;

    open spec fn view(&self) -> QuatView {
        QuatView { x: self.x as int, y: self.y as int, z: self.z as int, w: self.w as int }
    }
}

/// The identity rotation.
pub open spec fn quat_identity() -> QuatView {
    QuatView { x: 0, y: 0, z: 0, w: UNIT as int }
}

impl QuatFp {
    /// The quaternion that rotates nothing.
    pub fn identity() -> (q: QuatFp)
        ensures
            q@ == quat_identity(),
    {
        QuatFp { x: 0, y: 0, z: 0, w: UNIT }
    }
}

} // verus!
