//! Proved laws of the rasterization pipeline.
//!
//! Each proof function here states a property of the specification
//! transformers that the executable functions are proved to implement
//! exactly, so each law carries over to the executable pipeline.

use vstd::prelude::*;

use crate::draw::{
    bary_s, canvas_wf, color_byte_s, get_depth_s, tri_color_s, tri_covered_s,
    tri_depth_at_s, tri_fill_s, tri_frame_at_s, tri_in_box_s, tri_writes_s, tri_xhi_s, tri_xlo_s,
    tri_yhi_s, tri_ylo_s, tri_z_s, CanvasV, DEPTH_CLEAR,
};
use crate::fixed::{fx_abs_s, fx_ceil_s, fx_floor_s, fx_fract_s, fx_max_s, fx_min_s, fx_mul_s, fx_sub_s, iabs, tdiv, trem, FX_MAX};
use crate::model::MatV;
use crate::shader::{interp_vo_s, GlobalV, Shader, UnlitShader, VertOutV};
use crate::texture::{tex_color_s, tex_color_uv_s, tex_wf, wrap_coord_s, TexV};
use crate::vecmath::{fxw_s, v2w_s, v3w_s, V2, V3, V4};

verus! {

/// The denominator of the barycentric formula: the signed area term, which
/// does not depend on the probed point.
pub open spec fn bary_den_s(a: V3, b: V3, c: V3) -> int {
    fx_sub_s(
        fx_mul_s(fx_sub_s(c.x, a.x), fx_sub_s(b.y, a.y)),
        fx_mul_s(fx_sub_s(b.x, a.x), fx_sub_s(c.y, a.y)),
    )
}

/// Screen coordinates small enough that no barycentric intermediate
/// saturates.
pub open spec fn bary_coord_ok(v: V3) -> bool {
    iabs(v.x) <= 0x20_0000_0000 && iabs(v.y) <= 0x20_0000_0000
}

/// Truncating division is odd in its dividend.
proof fn lemma_tdiv_neg(x: int, d: int)
    requires
        d > 0,
    ensures
        tdiv(-x, d) == -tdiv(x, d),
{
}

/// An exact quotient: `(q * s) / q == s` in truncating division.
proof fn lemma_tdiv_exact(q: int, s: int)
    requires
        q != 0,
        s > 0,
    ensures
        tdiv(q * s, q) == s,
{
    if q > 0 {
        vstd::arithmetic::div_mod::lemma_div_by_multiple(s, q);
        assert(q * s == s * q) by (nonlinear_arith);
        assert(q * s > 0) by (nonlinear_arith)
            requires
                q > 0,
                s > 0,
        ;
    } else {
        assert((q * s) * -1 == s * (q * -1)) by (nonlinear_arith);
        vstd::arithmetic::div_mod::lemma_div_by_multiple(s, q * -1);
        assert(q * s < 0) by (nonlinear_arith)
            requires
                q < 0,
                s > 0,
        ;
    }
}

/// A quotient shrinks with its dividend's bound.
proof fn lemma_tdiv_scaled_bound(x: int, d: int, bound: int)
    requires
        d > 0,
        0 <= bound,
        -(bound * d) <= x <= bound * d,
    ensures
        -bound <= tdiv(x, d) <= bound,
{
    if x > 0 {
        vstd::arithmetic::div_mod::lemma_div_is_ordered(x, bound * d, d);
        vstd::arithmetic::div_mod::lemma_div_by_multiple(bound, d);
        vstd::arithmetic::div_mod::lemma_div_pos_is_pos(x, d);
    } else if x < 0 {
        vstd::arithmetic::div_mod::lemma_div_is_ordered(x * -1, bound * d, d);
        vstd::arithmetic::div_mod::lemma_div_by_multiple(bound, d);
        vstd::arithmetic::div_mod::lemma_div_pos_is_pos(x * -1, d);
    }
}

/// A product of safe-range factors multiplies without saturation.
proof fn lemma_fx_mul_exact(p: int, q: int)
    requires
        iabs(p) <= 0x40_0000_0000,
        iabs(q) <= 0x40_0000_0000,
    ensures
        fx_mul_s(p, q) == tdiv(p * q, 65536),
        -0x1000_0000_0000_0000 <= tdiv(p * q, 65536) <= 0x1000_0000_0000_0000,
{
    assert(-(0x1000_0000_0000_0000 * 65536) <= p * q <= 0x1000_0000_0000_0000 * 65536)
        by (nonlinear_arith)
        requires
            -0x40_0000_0000 <= p <= 0x40_0000_0000,
            -0x40_0000_0000 <= q <= 0x40_0000_0000,
    ;
    lemma_tdiv_scaled_bound(p * q, 65536, 0x1000_0000_0000_0000);
}

/// Barycentric coordinates at a triangle's own vertices are exactly
/// `(1, 0, 0)`, `(0, 1, 0)` and `(0, 0, 1)`, whenever the triangle is not
/// degenerate and its screen coordinates are in the safe range.
pub proof fn lemma_bary_at_vertices(a: V3, b: V3, c: V3)
    requires
        bary_coord_ok(a),
        bary_coord_ok(b),
        bary_coord_ok(c),
        fx_abs_s(bary_den_s(a, b, c)) > 655,
    ensures
        bary_s(a, b, c, V3 { x: a.x, y: a.y, z: 0 }) == (V3 { x: 65536, y: 0, z: 0 }),
        bary_s(a, b, c, V3 { x: b.x, y: b.y, z: 0 }) == (V3 { x: 0, y: 65536, z: 0 }),
        bary_s(a, b, c, V3 { x: c.x, y: c.y, z: 0 }) == (V3 { x: 0, y: 0, z: 65536 }),
{
    let dx = b.x - a.x;
    let dy = b.y - a.y;
    let ex = c.x - a.x;
    let ey = c.y - a.y;
    lemma_fx_mul_exact(ex, dy);
    lemma_fx_mul_exact(dx, ey);
    let uz = bary_den_s(a, b, c);
    assert(uz == tdiv(ex * dy, 65536) - tdiv(dx * ey, 65536));
    assert(uz != 0);
    lemma_tdiv_exact(uz, 65536);

    // At the first vertex both point-relative components vanish, so the
    // cross product's x and y parts are zero products.
    assert(bary_s(a, b, c, V3 { x: a.x, y: a.y, z: 0 }) == (V3 { x: 65536, y: 0, z: 0 }));

    // At the second vertex the x part cancels and the y part equals the
    // denominator.
    lemma_fx_mul_exact(dx, -dy);
    lemma_fx_mul_exact(-dx, dy);
    lemma_fx_mul_exact(-dx, ey);
    lemma_fx_mul_exact(ex, -dy);
    assert(dx * (-dy) == -(dx * dy)) by (nonlinear_arith);
    assert((-dx) * dy == -(dx * dy)) by (nonlinear_arith);
    lemma_tdiv_neg(dx * dy, 65536);
    assert((-dx) * ey == -(dx * ey)) by (nonlinear_arith);
    assert(ex * (-dy) == -(ex * dy)) by (nonlinear_arith);
    lemma_tdiv_neg(dx * ey, 65536);
    lemma_tdiv_neg(ex * dy, 65536);
    assert(bary_s(a, b, c, V3 { x: b.x, y: b.y, z: 0 }) == (V3 { x: 0, y: 65536, z: 0 }));

    // At the third vertex the y part cancels and the x part equals the
    // denominator.
    lemma_fx_mul_exact(dx, -ey);
    lemma_fx_mul_exact(-ex, dy);
    lemma_fx_mul_exact(-ex, ey);
    lemma_fx_mul_exact(ex, -ey);
    assert(dx * (-ey) == -(dx * ey)) by (nonlinear_arith);
    assert((-ex) * dy == -(ex * dy)) by (nonlinear_arith);
    assert((-ex) * ey == -(ex * ey)) by (nonlinear_arith);
    assert(ex * (-ey) == -(ex * ey)) by (nonlinear_arith);
    lemma_tdiv_neg(ex * ey, 65536);
    assert(bary_s(a, b, c, V3 { x: c.x, y: c.y, z: 0 }) == (V3 { x: 0, y: 0, z: 65536 }));
}

/// A barycentric weighted sum of one constant attribute stays within two
/// raw units of it, for any nonnegative weights summing exactly to one.
/// (Exact equality can fail by truncation: with weights of one half and
/// two quarters, an odd attribute value drops one unit per term.)
pub proof fn lemma_wsum_constant(a: int, w: V3)
    requires
        0 <= w.x,
        0 <= w.y,
        0 <= w.z,
        w.x + w.y + w.z == 65536,
        iabs(a) <= FX_MAX - 2,
    ensures
        iabs(fxw_s(a, a, a, w) - a) <= 2,
{
    let xa = a * w.x;
    let xb = a * w.y;
    let xc = a * w.z;
    assert(xa + xb + xc == a * 65536) by (nonlinear_arith)
        requires
            w.x + w.y + w.z == 65536,
            xa == a * w.x,
            xb == a * w.y,
            xc == a * w.z,
    ;
    let bound = iabs(a);
    assert(-(bound * 65536) <= xa <= bound * 65536 && -(bound * 65536) <= xb <= bound * 65536
        && -(bound * 65536) <= xc <= bound * 65536) by (nonlinear_arith)
        requires
            0 <= w.x <= 65536,
            0 <= w.y <= 65536,
            0 <= w.z <= 65536,
            xa == a * w.x,
            xb == a * w.y,
            xc == a * w.z,
            bound == iabs(a),
    ;
    lemma_tdiv_scaled_bound(xa, 65536, bound);
    lemma_tdiv_scaled_bound(xb, 65536, bound);
    lemma_tdiv_scaled_bound(xc, 65536, bound);
    let ta = tdiv(xa, 65536);
    let tb = tdiv(xb, 65536);
    let tc = tdiv(xc, 65536);
    if a >= 0 {
        assert(xa >= 0 && xb >= 0 && xc >= 0) by (nonlinear_arith)
            requires
                a >= 0,
                0 <= w.x,
                0 <= w.y,
                0 <= w.z,
                xa == a * w.x,
                xb == a * w.y,
                xc == a * w.z,
        ;
        vstd::arithmetic::div_mod::lemma_fundamental_div_mod(xa, 65536);
        vstd::arithmetic::div_mod::lemma_fundamental_div_mod(xb, 65536);
        vstd::arithmetic::div_mod::lemma_fundamental_div_mod(xc, 65536);
        vstd::arithmetic::div_mod::lemma_mod_division_less_than_divisor(xa, 65536);
        vstd::arithmetic::div_mod::lemma_mod_division_less_than_divisor(xb, 65536);
        vstd::arithmetic::div_mod::lemma_mod_division_less_than_divisor(xc, 65536);
        vstd::arithmetic::div_mod::lemma_div_pos_is_pos(xa, 65536);
        vstd::arithmetic::div_mod::lemma_div_pos_is_pos(xb, 65536);
        vstd::arithmetic::div_mod::lemma_div_pos_is_pos(xc, 65536);
        assert(65536 * (ta + tb + tc) == 65536 * ta + 65536 * tb + 65536 * tc)
            by (nonlinear_arith);
        assert(a - 2 <= ta + tb + tc <= a) by (nonlinear_arith)
            requires
                65536 * (ta + tb + tc) == a * 65536 - (xa % 65536) - (xb % 65536) - (xc % 65536),
                0 <= xa % 65536 < 65536,
                0 <= xb % 65536 < 65536,
                0 <= xc % 65536 < 65536,
        ;
    } else {
        assert(xa <= 0 && xb <= 0 && xc <= 0) by (nonlinear_arith)
            requires
                a < 0,
                0 <= w.x,
                0 <= w.y,
                0 <= w.z,
                xa == a * w.x,
                xb == a * w.y,
                xc == a * w.z,
        ;
        let ma = xa * -1;
        let mb = xb * -1;
        let mc = xc * -1;
        vstd::arithmetic::div_mod::lemma_fundamental_div_mod(ma, 65536);
        vstd::arithmetic::div_mod::lemma_fundamental_div_mod(mb, 65536);
        vstd::arithmetic::div_mod::lemma_fundamental_div_mod(mc, 65536);
        vstd::arithmetic::div_mod::lemma_mod_division_less_than_divisor(ma, 65536);
        vstd::arithmetic::div_mod::lemma_mod_division_less_than_divisor(mb, 65536);
        vstd::arithmetic::div_mod::lemma_mod_division_less_than_divisor(mc, 65536);
        vstd::arithmetic::div_mod::lemma_div_pos_is_pos(ma, 65536);
        vstd::arithmetic::div_mod::lemma_div_pos_is_pos(mb, 65536);
        vstd::arithmetic::div_mod::lemma_div_pos_is_pos(mc, 65536);
        let ua = ma / 65536;
        let ub = mb / 65536;
        let uc = mc / 65536;
        assert(ta == -ua && tb == -ub && tc == -uc);
        assert(65536 * (ua + ub + uc) == 65536 * ua + 65536 * ub + 65536 * uc)
            by (nonlinear_arith);
        assert(ma + mb + mc == (a * 65536) * -1);
        assert(-a - 2 <= ua + ub + uc <= -a) by (nonlinear_arith)
            requires
                65536 * (ua + ub + uc) == (a * 65536) * -1 - (ma % 65536) - (mb % 65536) - (mc
                    % 65536),
                0 <= ma % 65536 < 65536,
                0 <= mb % 65536 < 65536,
                0 <= mc % 65536 < 65536,
        ;
    }
    // The three products neither saturate nor do the partial sums.
    assert(fx_mul_s(a, w.x) == ta);
    assert(fx_mul_s(a, w.y) == tb);
    assert(fx_mul_s(a, w.z) == tc);
}

/// When every product of the attribute with a weight is exact at raw
/// resolution, the weighted sum of one constant attribute is exactly the
/// attribute.
pub proof fn lemma_wsum_constant_exact(a: int, w: V3)
    requires
        0 <= w.x,
        0 <= w.y,
        0 <= w.z,
        w.x + w.y + w.z == 65536,
        iabs(a) <= FX_MAX - 2,
        trem(a * w.x, 65536) == 0,
        trem(a * w.y, 65536) == 0,
        trem(a * w.z, 65536) == 0,
    ensures
        fxw_s(a, a, a, w) == a,
{
    lemma_wsum_constant(a, w);
    let xa = a * w.x;
    let xb = a * w.y;
    let xc = a * w.z;
    assert(xa + xb + xc == a * 65536) by (nonlinear_arith)
        requires
            w.x + w.y + w.z == 65536,
            xa == a * w.x,
            xb == a * w.y,
            xc == a * w.z,
    ;
    lemma_tdiv_times_back(xa);
    lemma_tdiv_times_back(xb);
    lemma_tdiv_times_back(xc);
    let ta = tdiv(xa, 65536);
    let tb = tdiv(xb, 65536);
    let tc = tdiv(xc, 65536);
    assert(65536 * (ta + tb + tc) == 65536 * ta + 65536 * tb + 65536 * tc) by (nonlinear_arith);
    assert(ta + tb + tc == a) by (nonlinear_arith)
        requires
            65536 * (ta + tb + tc) == a * 65536,
    ;
    let bound = iabs(a);
    assert(-(bound * 65536) <= xa <= bound * 65536 && -(bound * 65536) <= xb <= bound * 65536
        && -(bound * 65536) <= xc <= bound * 65536) by (nonlinear_arith)
        requires
            0 <= w.x <= 65536,
            0 <= w.y <= 65536,
            0 <= w.z <= 65536,
            xa == a * w.x,
            xb == a * w.y,
            xc == a * w.z,
            bound == iabs(a),
    ;
    lemma_tdiv_scaled_bound(xa, 65536, bound);
    lemma_tdiv_scaled_bound(xb, 65536, bound);
    lemma_tdiv_scaled_bound(xc, 65536, bound);
    if a >= 0 {
        assert(xa >= 0 && xb >= 0 && xc >= 0) by (nonlinear_arith)
            requires
                a >= 0,
                0 <= w.x,
                0 <= w.y,
                0 <= w.z,
                xa == a * w.x,
                xb == a * w.y,
                xc == a * w.z,
        ;
        if xa > 0 {
            vstd::arithmetic::div_mod::lemma_div_pos_is_pos(xa, 65536);
        }
        if xb > 0 {
            vstd::arithmetic::div_mod::lemma_div_pos_is_pos(xb, 65536);
        }
        if xc > 0 {
            vstd::arithmetic::div_mod::lemma_div_pos_is_pos(xc, 65536);
        }
    } else {
        assert(xa <= 0 && xb <= 0 && xc <= 0) by (nonlinear_arith)
            requires
                a < 0,
                0 <= w.x,
                0 <= w.y,
                0 <= w.z,
                xa == a * w.x,
                xb == a * w.y,
                xc == a * w.z,
        ;
        if xa < 0 {
            vstd::arithmetic::div_mod::lemma_div_pos_is_pos(xa * -1, 65536);
        }
        if xb < 0 {
            vstd::arithmetic::div_mod::lemma_div_pos_is_pos(xb * -1, 65536);
        }
        if xc < 0 {
            vstd::arithmetic::div_mod::lemma_div_pos_is_pos(xc * -1, 65536);
        }
    }
}

/// An exact multiple divides back to its quotient times the divisor.
proof fn lemma_tdiv_times_back(x: int)
    requires
        trem(x, 65536) == 0,
    ensures
        65536 * tdiv(x, 65536) == x,
{
    if x > 0 {
        vstd::arithmetic::div_mod::lemma_fundamental_div_mod(x, 65536);
    } else if x < 0 {
        vstd::arithmetic::div_mod::lemma_fundamental_div_mod(x * -1, 65536);
    }
}

/// The componentwise form of `lemma_wsum_constant` for 2-vectors.
pub proof fn lemma_wsum_constant_v2(a: V2, w: V3)
    requires
        0 <= w.x,
        0 <= w.y,
        0 <= w.z,
        w.x + w.y + w.z == 65536,
        iabs(a.x) <= FX_MAX - 2,
        iabs(a.y) <= FX_MAX - 2,
    ensures
        iabs(v2w_s(a, a, a, w).x - a.x) <= 2,
        iabs(v2w_s(a, a, a, w).y - a.y) <= 2,
{
    lemma_wsum_constant(a.x, w);
    lemma_wsum_constant(a.y, w);
}

/// The componentwise form of `lemma_wsum_constant` for 3-vectors.
pub proof fn lemma_wsum_constant_v3(a: V3, w: V3)
    requires
        0 <= w.x,
        0 <= w.y,
        0 <= w.z,
        w.x + w.y + w.z == 65536,
        iabs(a.x) <= FX_MAX - 2,
        iabs(a.y) <= FX_MAX - 2,
        iabs(a.z) <= FX_MAX - 2,
    ensures
        iabs(v3w_s(a, a, a, w).x - a.x) <= 2,
        iabs(v3w_s(a, a, a, w).y - a.y) <= 2,
        iabs(v3w_s(a, a, a, w).z - a.z) <= 2,
{
    lemma_wsum_constant(a.x, w);
    lemma_wsum_constant(a.y, w);
    lemma_wsum_constant(a.z, w);
}

/// Componentwise safe range for a 2-vector attribute.
pub open spec fn v2_in_range(a: V2) -> bool {
    iabs(a.x) <= FX_MAX - 2 && iabs(a.y) <= FX_MAX - 2
}

/// Componentwise safe range for a 3-vector attribute.
pub open spec fn v3_in_range(a: V3) -> bool {
    iabs(a.x) <= FX_MAX - 2 && iabs(a.y) <= FX_MAX - 2 && iabs(a.z) <= FX_MAX - 2
}

/// Componentwise closeness within two raw units.
pub open spec fn v2_near(p: V2, q: V2) -> bool {
    iabs(p.x - q.x) <= 2 && iabs(p.y - q.y) <= 2
}

/// Componentwise closeness within two raw units.
pub open spec fn v3_near(p: V3, q: V3) -> bool {
    iabs(p.x - q.x) <= 2 && iabs(p.y - q.y) <= 2 && iabs(p.z - q.z) <= 2
}

/// The round trip over a whole vertex-stage output: interpolating three
/// equal outputs by nonnegative weights summing exactly to one returns the
/// output, each attribute within two raw units (the truncating analogue of
/// "up to rounding"); this covers every attribute the pipeline
/// interpolates.
pub proof fn lemma_interp_vo_constant(a: VertOutV, w: V3)
    requires
        0 <= w.x,
        0 <= w.y,
        0 <= w.z,
        w.x + w.y + w.z == 65536,
        v3_in_range(a.position),
        v3_in_range(a.world_position),
        v2_in_range(a.uv),
        v3_in_range(a.normal),
        v3_in_range(a.tangent),
        v3_in_range(a.bitangent),
    ensures
        v3_near(interp_vo_s(a, a, a, w).position, a.position),
        v3_near(interp_vo_s(a, a, a, w).world_position, a.world_position),
        v2_near(interp_vo_s(a, a, a, w).uv, a.uv),
        v3_near(interp_vo_s(a, a, a, w).normal, a.normal),
        v3_near(interp_vo_s(a, a, a, w).tangent, a.tangent),
        v3_near(interp_vo_s(a, a, a, w).bitangent, a.bitangent),
{
    lemma_wsum_constant_v3(a.position, w);
    lemma_wsum_constant_v3(a.world_position, w);
    lemma_wsum_constant_v2(a.uv, w);
    lemma_wsum_constant_v3(a.normal, w);
    lemma_wsum_constant_v3(a.tangent, w);
    lemma_wsum_constant_v3(a.bitangent, w);
}

/// A negative raw coordinate floors to a whole number below zero.
proof fn lemma_floor_neg(a: int)
    requires
        a < 0,
    ensures
        fx_floor_s(a) <= -1,
{
    vstd::arithmetic::div_mod::lemma_div_pos_is_pos(a * -1, 65536);
    if trem(a, 65536) == 0 {
        vstd::arithmetic::div_mod::lemma_fundamental_div_mod(a * -1, 65536);
        if (a * -1) / 65536 == 0 {
            assert(false);
        }
    }
}

/// A raw coordinate strictly beyond a whole bound ceils past that bound.
proof fn lemma_ceil_above(a: int, k: int)
    requires
        0 <= k,
        a > k * 65536,
    ensures
        fx_ceil_s(a) >= k + 1,
{
    assert(k * 65536 == 65536 * k) by (nonlinear_arith);
    vstd::arithmetic::div_mod::lemma_div_is_ordered(65536 * k, a, 65536);
    vstd::arithmetic::div_mod::lemma_div_multiples_vanish(k, 65536);
    assert(a / 65536 >= k);
    if trem(a, 65536) == 0 {
        vstd::arithmetic::div_mod::lemma_fundamental_div_mod(a, 65536);
        if a / 65536 == k {
            assert(false);
        }
    }
}

/// A triangle whose three screen vertices all lie strictly beyond one side
/// of the canvas leaves the canvas exactly as it was: the clamped bounding
/// box is empty and the scan visits no pixel.
pub proof fn lemma_tri_fill_outside<S: Shader>(
    c: CanvasV,
    s: S,
    m: MatV,
    g: GlobalV,
    t0: VertOutV,
    t1: VertOutV,
    t2: VertOutV,
)
    requires
        canvas_wf(c),
        (t0.position.x < 0 && t1.position.x < 0 && t2.position.x < 0) || (t0.position.x > (c.width
            - 1) * 65536 && t1.position.x > (c.width - 1) * 65536 && t2.position.x > (c.width - 1)
            * 65536) || (t0.position.y < 0 && t1.position.y < 0 && t2.position.y < 0) || (
        t0.position.y > (c.height - 1) * 65536 && t1.position.y > (c.height - 1) * 65536
            && t2.position.y > (c.height - 1) * 65536),
    ensures
        tri_fill_s(c, s, m, g, t0, t1, t2) == c,
{
    let max3x = fx_max_s(fx_max_s(t0.position.x, t1.position.x), t2.position.x);
    let min3x = fx_min_s(fx_min_s(t0.position.x, t1.position.x), t2.position.x);
    let max3y = fx_max_s(fx_max_s(t0.position.y, t1.position.y), t2.position.y);
    let min3y = fx_min_s(fx_min_s(t0.position.y, t1.position.y), t2.position.y);
    if t0.position.x < 0 && t1.position.x < 0 && t2.position.x < 0 {
        lemma_floor_neg(max3x);
    } else if t0.position.x > (c.width - 1) * 65536 && t1.position.x > (c.width - 1) * 65536
        && t2.position.x > (c.width - 1) * 65536 {
        lemma_ceil_above(min3x, c.width - 1);
    } else if t0.position.y < 0 && t1.position.y < 0 && t2.position.y < 0 {
        lemma_floor_neg(max3y);
    } else {
        lemma_ceil_above(min3y, c.height - 1);
    }
    assert(tri_xhi_s(c, t0, t1, t2) < tri_xlo_s(c, t0, t1, t2) || tri_yhi_s(c, t0, t1, t2)
        < tri_ylo_s(c, t0, t1, t2));
    assert forall|i: int| 0 <= i < c.frame.len() implies tri_frame_at_s(
        c,
        s,
        m,
        g,
        t0,
        t1,
        t2,
        i,
    ) == c.frame[i] by {}
    assert forall|i: int| 0 <= i < c.depth.len() implies tri_depth_at_s(c, t0, t1, t2, i)
        == c.depth[i] by {}
    assert(tri_fill_s(c, s, m, g, t0, t1, t2).frame =~= c.frame);
    assert(tri_fill_s(c, s, m, g, t0, t1, t2).depth =~= c.depth);
}

/// Under a flat-coloring shader on a cleared depth buffer, a triangle fill
/// gives every visited, covered pixel exactly the flat color and its
/// interpolated depth, and leaves every other pixel untouched.
pub proof fn lemma_tri_fill_flat<S: Shader>(
    c: CanvasV,
    s: S,
    m: MatV,
    g: GlobalV,
    t0: VertOutV,
    t1: VertOutV,
    t2: VertOutV,
    k: V4,
    x: int,
    y: int,
)
    requires
        canvas_wf(c),
        forall|vo: VertOutV| s.fragment_s(vo, m, g) == k,
        forall|i: int| 0 <= i < c.depth.len() ==> c.depth[i] == DEPTH_CLEAR,
        tri_z_s(t0, t1, t2, x, y) > i64::MIN,
        0 <= x < c.width,
        0 <= y < c.height,
    ensures
        tri_in_box_s(c, t0, t1, t2, x, y) && tri_covered_s(t0, t1, t2, x, y) ==> {
            &&& tri_fill_s(c, s, m, g, t0, t1, t2).frame[(y * c.width + x) * 4 + 0]
                == color_byte_s(k, 0)
            &&& tri_fill_s(c, s, m, g, t0, t1, t2).frame[(y * c.width + x) * 4 + 1]
                == color_byte_s(k, 1)
            &&& tri_fill_s(c, s, m, g, t0, t1, t2).frame[(y * c.width + x) * 4 + 2]
                == color_byte_s(k, 2)
            &&& tri_fill_s(c, s, m, g, t0, t1, t2).frame[(y * c.width + x) * 4 + 3]
                == color_byte_s(k, 3)
            &&& tri_fill_s(c, s, m, g, t0, t1, t2).depth[y * c.width + x] == tri_z_s(
                t0,
                t1,
                t2,
                x,
                y,
            ) as i64
        },
        !(tri_in_box_s(c, t0, t1, t2, x, y) && tri_covered_s(t0, t1, t2, x, y)) ==> {
            &&& tri_fill_s(c, s, m, g, t0, t1, t2).frame[(y * c.width + x) * 4 + 0] == c.frame[(y
                * c.width + x) * 4 + 0]
            &&& tri_fill_s(c, s, m, g, t0, t1, t2).frame[(y * c.width + x) * 4 + 1] == c.frame[(y
                * c.width + x) * 4 + 1]
            &&& tri_fill_s(c, s, m, g, t0, t1, t2).frame[(y * c.width + x) * 4 + 2] == c.frame[(y
                * c.width + x) * 4 + 2]
            &&& tri_fill_s(c, s, m, g, t0, t1, t2).frame[(y * c.width + x) * 4 + 3] == c.frame[(y
                * c.width + x) * 4 + 3]
            &&& tri_fill_s(c, s, m, g, t0, t1, t2).depth[y * c.width + x] == c.depth[y * c.width
                + x]
        },
{
    crate::draw::lemma_cell_index(c.width, x, y);
    let q = y * c.width + x;
    assert(q * 4 + 3 < c.width * c.height * 4 && q < c.width * c.height) by (nonlinear_arith)
        requires
            0 <= x < c.width,
            0 <= y < c.height,
            q == y * c.width + x,
    ;
    assert(get_depth_s(c, x, y) == DEPTH_CLEAR);
    if tri_in_box_s(c, t0, t1, t2, x, y) && tri_covered_s(t0, t1, t2, x, y) {
        assert(tri_writes_s(c, t0, t1, t2, x, y));
        assert(tri_color_s(s, m, g, t0, t1, t2, x, y) == k);
    }
}

/// A one-texel texture samples the same color for every UV coordinate.
pub proof fn lemma_1x1_texture_is_flat(t: TexV, uv: V2)
    requires
        tex_wf(t),
        t.width == 1,
        t.height == 1,
    ensures
        tex_color_uv_s(t, uv) == tex_color_s(t, 0, 0),
{
    assert(fx_fract_s(uv.x) * 0 == 0) by (nonlinear_arith);
    assert(fx_fract_s(fx_sub_s(65536, uv.y)) * 0 == 0) by (nonlinear_arith);
    assert(wrap_coord_s(uv.x, 1) == 0);
    assert(wrap_coord_s(fx_sub_s(65536, uv.y), 1) == 0);
}

/// On a material whose albedo is a single texel, the unlit shader is a
/// flat coloring: every fragment gets that texel's color.
pub proof fn lemma_unlit_flat(m: MatV, g: GlobalV)
    requires
        tex_wf(m.albedo),
        m.albedo.width == 1,
        m.albedo.height == 1,
    ensures
        forall|vo: VertOutV| #[trigger] (UnlitShader {  }).fragment_s(vo, m, g) == tex_color_s(
            m.albedo,
            0,
            0,
        ),
{
    assert forall|vo: VertOutV| #[trigger] (UnlitShader {  }).fragment_s(vo, m, g)
        == tex_color_s(m.albedo, 0, 0) by {
        lemma_1x1_texture_is_flat(m.albedo, vo.uv);
    }
}

/// Depth-test idempotence: filling the same triangle twice is the same as
/// filling it once, because the strict greater-than depth test never lets
/// an equal depth overwrite.
pub proof fn lemma_tri_fill_idempotent<S: Shader>(
    c: CanvasV,
    s: S,
    m: MatV,
    g: GlobalV,
    t0: VertOutV,
    t1: VertOutV,
    t2: VertOutV,
)
    requires
        canvas_wf(c),
    ensures
        tri_fill_s(tri_fill_s(c, s, m, g, t0, t1, t2), s, m, g, t0, t1, t2) == tri_fill_s(
            c,
            s,
            m,
            g,
            t0,
            t1,
            t2,
        ),
{
    let c1 = tri_fill_s(c, s, m, g, t0, t1, t2);
    assert(canvas_wf(c1));
    assert forall|x: int, y: int| !tri_writes_s(c1, t0, t1, t2, x, y) by {
        if tri_in_box_s(c1, t0, t1, t2, x, y) && tri_covered_s(t0, t1, t2, x, y) {
            if 0 <= x < c1.width && 0 <= y < c1.height {
                crate::draw::lemma_cell_index(c.width, x, y);
                let q = y * c.width + x;
                assert(q < c.width * c.height) by (nonlinear_arith)
                    requires
                        0 <= x < c.width,
                        0 <= y < c.height,
                        q == y * c.width + x,
                ;
                assert(c1.depth[q] == tri_depth_at_s(c, t0, t1, t2, q));
                if tri_writes_s(c, t0, t1, t2, x, y) {
                    assert(get_depth_s(c1, x, y) == tri_z_s(t0, t1, t2, x, y) as i64);
                } else {
                    assert(get_depth_s(c1, x, y) == get_depth_s(c, x, y));
                }
            }
        }
    }
    let c2 = tri_fill_s(c1, s, m, g, t0, t1, t2);
    assert forall|i: int| 0 <= i < c1.frame.len() implies c2.frame[i] == c1.frame[i] by {
        crate::draw::lemma_index_cell(c1.width, i);
    }
    assert forall|i: int| 0 <= i < c1.depth.len() implies c2.depth[i] == c1.depth[i] by {
        vstd::arithmetic::div_mod::lemma_mod_division_less_than_divisor(i, c1.width);
        vstd::arithmetic::div_mod::lemma_div_pos_is_pos(i, c1.width);
    }
    assert(c2.frame =~= c1.frame);
    assert(c2.depth =~= c1.depth);
}

} // verus!
