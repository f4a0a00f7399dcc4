//! Fixed-point vectors and matrices.
//!
//! `Fx2`, `Fx3` and `Fx4` hold Q16.16 raw scalars; `Mat3` and `Mat4` are
//! column-major matrices of such vectors. Each executable operation's
//! contract says its result is exactly the value of a specification twin
//! over the mathematical views `V2`, `V3`, `V4`.

use vstd::prelude::*;

use crate::fixed::{fx_add, fx_sub, fx_mul, fx_div, fx_neg, fx_sqrt};
use crate::fixed::{fx_add_s, fx_sub_s, fx_mul_s, fx_div_s, fx_neg_s, fx_sqrt_s};

verus! {

/// A 2-component fixed-point vector.
#[derive(Clone, Copy, PartialEq, Eq, Structural, Debug)]
pub struct Fx2 {
    pub x: i64,
    pub y: i64,
}

/// A 3-component fixed-point vector.
#[derive(Clone, Copy, PartialEq, Eq, Structural, Debug)]
pub struct Fx3 {
    pub x: i64,
    pub y: i64,
    pub z: i64,
}

/// A 4-component fixed-point vector.
#[derive(Clone, Copy, PartialEq, Eq, Structural, Debug)]
pub struct Fx4 {
    pub x: i64,
    pub y: i64,
    pub z: i64,
    pub w: i64,
}

/// Mathematical view of an `Fx2`.
pub ghost struct V2 {
    pub x: int,
    pub y: int,
}

/// Mathematical view of an `Fx3`.
pub ghost struct V3 {
    pub x: int,
    pub y: int,
    pub z: int,
}

/// Mathematical view of an `Fx4`.
pub ghost struct V4 {
    pub x: int,
    pub y: int,
    pub z: int,
    pub w: int,
}

impl View for Fx2 {
    type V = V2;

    open spec fn view(&self) -> V2 {
        V2 { x: self.x as int, y: self.y as int }
    }
}

impl View for Fx3 {
    type V = V3;

    open spec fn view(&self) -> V3 {
        V3 { x: self.x as int, y: self.y as int, z: self.z as int }
    }
}

impl View for Fx4 {
    type V = V4;

    open spec fn view(&self) -> V4 {
        V4 { x: self.x as int, y: self.y as int, z: self.z as int, w: self.w as int }
    }
}

pub open spec fn v2_add_s(a: V2, b: V2) -> V2 {
    V2 { x: fx_add_s(a.x, b.x), y: fx_add_s(a.y, b.y) }
}

pub open spec fn v2_sub_s(a: V2, b: V2) -> V2 {
    V2 { x: fx_sub_s(a.x, b.x), y: fx_sub_s(a.y, b.y) }
}

pub open spec fn v2_scale_s(a: V2, k: int) -> V2 {
    V2 { x: fx_mul_s(a.x, k), y: fx_mul_s(a.y, k) }
}

pub open spec fn v3_add_s(a: V3, b: V3) -> V3 {
    V3 { x: fx_add_s(a.x, b.x), y: fx_add_s(a.y, b.y), z: fx_add_s(a.z, b.z) }
}

pub open spec fn v3_sub_s(a: V3, b: V3) -> V3 {
    V3 { x: fx_sub_s(a.x, b.x), y: fx_sub_s(a.y, b.y), z: fx_sub_s(a.z, b.z) }
}

pub open spec fn v3_neg_s(a: V3) -> V3 {
    V3 { x: fx_neg_s(a.x), y: fx_neg_s(a.y), z: fx_neg_s(a.z) }
}

pub open spec fn v3_scale_s(a: V3, k: int) -> V3 {
    V3 { x: fx_mul_s(a.x, k), y: fx_mul_s(a.y, k), z: fx_mul_s(a.z, k) }
}

/// Componentwise product, as colors are modulated.
pub open spec fn v3_cmul_s(a: V3, b: V3) -> V3 {
    V3 { x: fx_mul_s(a.x, b.x), y: fx_mul_s(a.y, b.y), z: fx_mul_s(a.z, b.z) }
}

pub open spec fn v3_dot_s(a: V3, b: V3) -> int {
    fx_add_s(fx_add_s(fx_mul_s(a.x, b.x), fx_mul_s(a.y, b.y)), fx_mul_s(a.z, b.z))
}

pub open spec fn v3_cross_s(a: V3, b: V3) -> V3 {
    V3 {
        x: fx_sub_s(fx_mul_s(a.y, b.z), fx_mul_s(a.z, b.y)),
        y: fx_sub_s(fx_mul_s(a.z, b.x), fx_mul_s(a.x, b.z)),
        z: fx_sub_s(fx_mul_s(a.x, b.y), fx_mul_s(a.y, b.x)),
    }
}

pub open spec fn v3_length_s(a: V3) -> int {
    fx_sqrt_s(v3_dot_s(a, a))
}

/// Normalization divides each component by the length; the zero vector maps
/// to itself under the division-by-zero policy.
pub open spec fn v3_normalize_s(a: V3) -> V3 {
    let l = v3_length_s(a);
    V3 { x: fx_div_s(a.x, l), y: fx_div_s(a.y, l), z: fx_div_s(a.z, l) }
}

pub open spec fn v4_add_s(a: V4, b: V4) -> V4 {
    V4 {
        x: fx_add_s(a.x, b.x),
        y: fx_add_s(a.y, b.y),
        z: fx_add_s(a.z, b.z),
        w: fx_add_s(a.w, b.w),
    }
}

pub open spec fn v4_scale_s(a: V4, k: int) -> V4 {
    V4 { x: fx_mul_s(a.x, k), y: fx_mul_s(a.y, k), z: fx_mul_s(a.z, k), w: fx_mul_s(a.w, k) }
}

pub open spec fn v4_xyz_s(a: V4) -> V3 {
    V3 { x: a.x, y: a.y, z: a.z }
}

pub open spec fn v4_dot_s(a: V4, b: V4) -> int {
    fx_add_s(
        fx_add_s(fx_add_s(fx_mul_s(a.x, b.x), fx_mul_s(a.y, b.y)), fx_mul_s(a.z, b.z)),
        fx_mul_s(a.w, b.w),
    )
}

pub open spec fn v4_length_s(a: V4) -> int {
    fx_sqrt_s(v4_dot_s(a, a))
}

/// Scalar barycentric weighted sum: `a*w0 + b*w1 + c*w2`.
pub open spec fn fxw_s(a: int, b: int, c: int, w: V3) -> int {
    fx_add_s(fx_add_s(fx_mul_s(a, w.x), fx_mul_s(b, w.y)), fx_mul_s(c, w.z))
}

/// Componentwise barycentric weighted sum of 2-vectors.
pub open spec fn v2w_s(a: V2, b: V2, c: V2, w: V3) -> V2 {
    V2 { x: fxw_s(a.x, b.x, c.x, w), y: fxw_s(a.y, b.y, c.y, w) }
}

/// Componentwise barycentric weighted sum of 3-vectors.
pub open spec fn v3w_s(a: V3, b: V3, c: V3, w: V3) -> V3 {
    V3 { x: fxw_s(a.x, b.x, c.x, w), y: fxw_s(a.y, b.y, c.y, w), z: fxw_s(a.z, b.z, c.z, w) }
}

/// The square of a scalar is never negative.
proof fn lemma_fx_square_nonneg(a: int)
    ensures
        fx_mul_s(a, a) >= 0,
{
    assert(a * a >= 0) by (nonlinear_arith);
    if a * a > 0 {
        vstd::arithmetic::div_mod::lemma_div_pos_is_pos(a * a, 65536);
    }
}

/// A dot product of a vector with itself is never negative.
pub proof fn lemma_v3_dot_self_nonneg(a: V3)
    ensures
        v3_dot_s(a, a) >= 0,
{
    lemma_fx_square_nonneg(a.x);
    lemma_fx_square_nonneg(a.y);
    lemma_fx_square_nonneg(a.z);
}

/// A dot product of a 4-vector with itself is never negative.
pub proof fn lemma_v4_dot_self_nonneg(a: V4)
    ensures
        v4_dot_s(a, a) >= 0,
{
    lemma_fx_square_nonneg(a.x);
    lemma_fx_square_nonneg(a.y);
    lemma_fx_square_nonneg(a.z);
    lemma_fx_square_nonneg(a.w);
}

impl Fx2 {
    pub fn new(x: i64, y: i64) -> (r: Fx2)
        ensures
            r@ == (V2 { x: x as int, y: y as int }),
    {
        Fx2 { x, y }
    }

    pub fn add(self, o: Fx2) -> (r: Fx2)
        ensures
            r@ == v2_add_s(self@, o@),
    {
        Fx2 { x: fx_add(self.x, o.x), y: fx_add(self.y, o.y) }
    }

    pub fn sub(self, o: Fx2) -> (r: Fx2)
        ensures
            r@ == v2_sub_s(self@, o@),
    {
        Fx2 { x: fx_sub(self.x, o.x), y: fx_sub(self.y, o.y) }
    }

    pub fn scale(self, k: i64) -> (r: Fx2)
        ensures
            r@ == v2_scale_s(self@, k as int),
    {
        Fx2 { x: fx_mul(self.x, k), y: fx_mul(self.y, k) }
    }
}

impl Fx3 {
    pub fn new(x: i64, y: i64, z: i64) -> (r: Fx3)
        ensures
            r@ == (V3 { x: x as int, y: y as int, z: z as int }),
    {
        Fx3 { x, y, z }
    }

    pub fn zero() -> (r: Fx3)
        ensures
            r@ == (V3 { x: 0, y: 0, z: 0 }),
    {
        Fx3 { x: 0, y: 0, z: 0 }
    }

    pub fn add(self, o: Fx3) -> (r: Fx3)
        ensures
            r@ == v3_add_s(self@, o@),
    {
        Fx3 { x: fx_add(self.x, o.x), y: fx_add(self.y, o.y), z: fx_add(self.z, o.z) }
    }

    pub fn sub(self, o: Fx3) -> (r: Fx3)
        ensures
            r@ == v3_sub_s(self@, o@),
    {
        Fx3 { x: fx_sub(self.x, o.x), y: fx_sub(self.y, o.y), z: fx_sub(self.z, o.z) }
    }

    pub fn neg(self) -> (r: Fx3)
        ensures
            r@ == v3_neg_s(self@),
    {
        Fx3 { x: fx_neg(self.x), y: fx_neg(self.y), z: fx_neg(self.z) }
    }

    pub fn scale(self, k: i64) -> (r: Fx3)
        ensures
            r@ == v3_scale_s(self@, k as int),
    {
        Fx3 { x: fx_mul(self.x, k), y: fx_mul(self.y, k), z: fx_mul(self.z, k) }
    }

    pub fn cmul(self, o: Fx3) -> (r: Fx3)
        ensures
            r@ == v3_cmul_s(self@, o@),
    {
        Fx3 { x: fx_mul(self.x, o.x), y: fx_mul(self.y, o.y), z: fx_mul(self.z, o.z) }
    }

    pub fn dot(self, o: Fx3) -> (r: i64)
        ensures
            r as int == v3_dot_s(self@, o@),
    {
        fx_add(fx_add(fx_mul(self.x, o.x), fx_mul(self.y, o.y)), fx_mul(self.z, o.z))
    }

    pub fn cross(self, o: Fx3) -> (r: Fx3)
        ensures
            r@ == v3_cross_s(self@, o@),
    {
        Fx3 {
            x: fx_sub(fx_mul(self.y, o.z), fx_mul(self.z, o.y)),
            y: fx_sub(fx_mul(self.z, o.x), fx_mul(self.x, o.z)),
            z: fx_sub(fx_mul(self.x, o.y), fx_mul(self.y, o.x)),
        }
    }

    pub fn length(self) -> (r: i64)
        ensures
            r as int == v3_length_s(self@),
    {
        let d = self.dot(self);
        proof {
            lemma_v3_dot_self_nonneg(self@);
        }
        fx_sqrt(d)
    }

    pub fn normalized(self) -> (r: Fx3)
        ensures
            r@ == v3_normalize_s(self@),
    {
        let l = self.length();
        Fx3 { x: fx_div(self.x, l), y: fx_div(self.y, l), z: fx_div(self.z, l) }
    }
}

impl Fx4 {
    pub fn new(x: i64, y: i64, z: i64, w: i64) -> (r: Fx4)
        ensures
            r@ == (V4 { x: x as int, y: y as int, z: z as int, w: w as int }),
    {
        Fx4 { x, y, z, w }
    }

    /// A point or direction extended with an explicit homogeneous coordinate.
    pub fn from_v3(v: Fx3, w: i64) -> (r: Fx4)
        ensures
            r@ == (V4 { x: v@.x, y: v@.y, z: v@.z, w: w as int }),
    {
        Fx4 { x: v.x, y: v.y, z: v.z, w }
    }

    pub fn xyz(self) -> (r: Fx3)
        ensures
            r@ == v4_xyz_s(self@),
    {
        Fx3 { x: self.x, y: self.y, z: self.z }
    }

    pub fn add(self, o: Fx4) -> (r: Fx4)
        ensures
            r@ == v4_add_s(self@, o@),
    {
        Fx4 {
            x: fx_add(self.x, o.x),
            y: fx_add(self.y, o.y),
            z: fx_add(self.z, o.z),
            w: fx_add(self.w, o.w),
        }
    }

    pub fn scale(self, k: i64) -> (r: Fx4)
        ensures
            r@ == v4_scale_s(self@, k as int),
    {
        Fx4 {
            x: fx_mul(self.x, k),
            y: fx_mul(self.y, k),
            z: fx_mul(self.z, k),
            w: fx_mul(self.w, k),
        }
    }

    pub fn dot(self, o: Fx4) -> (r: i64)
        ensures
            r as int == v4_dot_s(self@, o@),
    {
        fx_add(
            fx_add(fx_add(fx_mul(self.x, o.x), fx_mul(self.y, o.y)), fx_mul(self.z, o.z)),
            fx_mul(self.w, o.w),
        )
    }

    pub fn length(self) -> (r: i64)
        ensures
            r as int == v4_length_s(self@),
    {
        let d = self.dot(self);
        proof {
            lemma_v4_dot_self_nonneg(self@);
        }
        fx_sqrt(d)
    }
}

/// An attribute type supporting barycentric weighted sums.
pub trait Weighted: View + Copy + Sized {
    /// The weighted sum, at the level of mathematical views.
    spec fn wsum_view(a: Self::V, b: Self::V, c: Self::V, w: V3) -> Self::V;

    /// The weighted sum `a*w0 + b*w1 + c*w2`.
    fn wsum(a: Self, b: Self, c: Self, w: &Fx3) -> (r: Self)
        ensures
            r@ == Self::wsum_view(a@, b@, c@, w@),
    ;
}

impl Weighted for i64 {
    open spec fn wsum_view(a: i64, b: i64, c: i64, w: V3) -> i64 {
        fxw_s(a as int, b as int, c as int, w) as i64
    }

    fn wsum(a: i64, b: i64, c: i64, w: &Fx3) -> (r: i64) {
        fx_add(fx_add(fx_mul(a, w.x), fx_mul(b, w.y)), fx_mul(c, w.z))
    }
}

impl Weighted for Fx2 {
    open spec fn wsum_view(a: V2, b: V2, c: V2, w: V3) -> V2 {
        v2w_s(a, b, c, w)
    }

    fn wsum(a: Fx2, b: Fx2, c: Fx2, w: &Fx3) -> (r: Fx2) {
        Fx2 {
            x: fx_add(fx_add(fx_mul(a.x, w.x), fx_mul(b.x, w.y)), fx_mul(c.x, w.z)),
            y: fx_add(fx_add(fx_mul(a.y, w.x), fx_mul(b.y, w.y)), fx_mul(c.y, w.z)),
        }
    }
}

impl Weighted for Fx3 {
    open spec fn wsum_view(a: V3, b: V3, c: V3, w: V3) -> V3 {
        v3w_s(a, b, c, w)
    }

    fn wsum(a: Fx3, b: Fx3, c: Fx3, w: &Fx3) -> (r: Fx3) {
        Fx3 {
            x: fx_add(fx_add(fx_mul(a.x, w.x), fx_mul(b.x, w.y)), fx_mul(c.x, w.z)),
            y: fx_add(fx_add(fx_mul(a.y, w.x), fx_mul(b.y, w.y)), fx_mul(c.y, w.z)),
            z: fx_add(fx_add(fx_mul(a.z, w.x), fx_mul(b.z, w.y)), fx_mul(c.z, w.z)),
        }
    }
}

/// A column-major 3x3 fixed-point matrix.
#[derive(Clone, Copy, PartialEq, Eq, Structural, Debug)]
pub struct Mat3 {
    pub c0: Fx3,
    pub c1: Fx3,
    pub c2: Fx3,
}

/// Mathematical view of a `Mat3`.
pub ghost struct M3V {
    pub c0: V3,
    pub c1: V3,
    pub c2: V3,
}

impl View for Mat3 {
    type V = M3V;

    open spec fn view(&self) -> M3V {
        M3V { c0: self.c0@, c1: self.c1@, c2: self.c2@ }
    }
}

/// A matrix-vector product: the columns weighted by the vector's components.
pub open spec fn m3_mul_v3_s(m: M3V, v: V3) -> V3 {
    v3_add_s(v3_add_s(v3_scale_s(m.c0, v.x), v3_scale_s(m.c1, v.y)), v3_scale_s(m.c2, v.z))
}

impl Mat3 {
    pub fn from_cols(c0: Fx3, c1: Fx3, c2: Fx3) -> (r: Mat3)
        ensures
            r@ == (M3V { c0: c0@, c1: c1@, c2: c2@ }),
    {
        Mat3 { c0, c1, c2 }
    }

    pub fn mul_v3(self, v: Fx3) -> (r: Fx3)
        ensures
            r@ == m3_mul_v3_s(self@, v@),
    {
        self.c0.scale(v.x).add(self.c1.scale(v.y)).add(self.c2.scale(v.z))
    }
}

/// A column-major 4x4 fixed-point matrix.
#[derive(Clone, Copy, PartialEq, Eq, Structural, Debug)]
pub struct Mat4 {
    pub c0: Fx4,
    pub c1: Fx4,
    pub c2: Fx4,
    pub c3: Fx4,
}

/// Mathematical view of a `Mat4`.
pub ghost struct M4V {
    pub c0: V4,
    pub c1: V4,
    pub c2: V4,
    pub c3: V4,
}

impl View for Mat4 {
    type V = M4V;

    open spec fn view(&self) -> M4V {
        M4V { c0: self.c0@, c1: self.c1@, c2: self.c2@, c3: self.c3@ }
    }
}

/// A matrix-vector product: the columns weighted by the vector's components.
pub open spec fn m4_mul_v4_s(m: M4V, v: V4) -> V4 {
    v4_add_s(
        v4_add_s(v4_add_s(v4_scale_s(m.c0, v.x), v4_scale_s(m.c1, v.y)), v4_scale_s(m.c2, v.z)),
        v4_scale_s(m.c3, v.w),
    )
}

/// A matrix product, column by column.
pub open spec fn m4_mul_m4_s(a: M4V, b: M4V) -> M4V {
    M4V {
        c0: m4_mul_v4_s(a, b.c0),
        c1: m4_mul_v4_s(a, b.c1),
        c2: m4_mul_v4_s(a, b.c2),
        c3: m4_mul_v4_s(a, b.c3),
    }
}

/// The view of the identity matrix.
pub open spec fn m4_identity_s() -> M4V {
    M4V {
        c0: V4 { x: 65536, y: 0, z: 0, w: 0 },
        c1: V4 { x: 0, y: 65536, z: 0, w: 0 },
        c2: V4 { x: 0, y: 0, z: 65536, w: 0 },
        c3: V4 { x: 0, y: 0, z: 0, w: 65536 },
    }
}

impl Mat4 {
    pub fn from_cols(c0: Fx4, c1: Fx4, c2: Fx4, c3: Fx4) -> (r: Mat4)
        ensures
            r@ == (M4V { c0: c0@, c1: c1@, c2: c2@, c3: c3@ }),
    {
        Mat4 { c0, c1, c2, c3 }
    }

    pub fn identity() -> (r: Mat4)
        ensures
            r@ == m4_identity_s(),
    {
        Mat4 {
            c0: Fx4 { x: 65536, y: 0, z: 0, w: 0 },
            c1: Fx4 { x: 0, y: 65536, z: 0, w: 0 },
            c2: Fx4 { x: 0, y: 0, z: 65536, w: 0 },
            c3: Fx4 { x: 0, y: 0, z: 0, w: 65536 },
        }
    }

    pub fn mul_v4(self, v: Fx4) -> (r: Fx4)
        ensures
            r@ == m4_mul_v4_s(self@, v@),
    {
        self.c0.scale(v.x).add(self.c1.scale(v.y)).add(self.c2.scale(v.z)).add(self.c3.scale(v.w))
    }

    pub fn mul_m4(self, o: Mat4) -> (r: Mat4)
        ensures
            r@ == m4_mul_m4_s(self@, o@),
    {
        Mat4 {
            c0: self.mul_v4(o.c0),
            c1: self.mul_v4(o.c1),
            c2: self.mul_v4(o.c2),
            c3: self.mul_v4(o.c3),
        }
    }
}

} // verus!
