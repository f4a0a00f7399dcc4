//! The camera: view, projection and viewport matrices, and the eye position.
//!
//! The view matrix is the right-handed look-at construction; the projection
//! is a left-handed perspective with depth mapped into [0, 1]; the viewport
//! is the affine map from normalized device coordinates to pixel
//! coordinates and the depth range.

use vstd::prelude::*;

use crate::fixed::{fx_add, fx_div, fx_from_u32, fx_mul, fx_neg, fx_sqrt, fx_sub, SCALE};
use crate::fixed::{fx_add_s, fx_div_s, fx_mul_s, fx_neg_s, fx_sqrt_s, fx_sub_s};
use crate::vecmath::{Fx3, Fx4, Mat4, M4V, V3, V4};
use crate::vecmath::{v3_cross_s, v3_dot_s, v3_normalize_s, v3_sub_s};

verus! {

/// The affine matrix mapping the NDC cube `[-1,1]^2 x [0,1]` to the pixel
/// rectangle at `(x, y)` of size `width x height`, with depth scaled by
/// `depth`.
pub open spec fn viewport_matrix_s(x: int, y: int, width: int, height: int, depth: int) -> M4V {
    M4V {
        c0: V4 { x: fx_div_s(width, 131072), y: 0, z: 0, w: 0 },
        c1: V4 { x: 0, y: fx_div_s(height, 131072), z: 0, w: 0 },
        c2: V4 { x: 0, y: 0, z: fx_div_s(depth, 131072), w: 0 },
        c3: V4 {
            x: fx_add_s(x, fx_div_s(width, 131072)),
            y: fx_add_s(y, fx_div_s(height, 131072)),
            z: fx_div_s(depth, 131072),
            w: 65536,
        },
    }
}

/// The right-handed look-at view matrix: a right/up/forward basis from the
/// eye toward the target, with the eye projected onto that basis.
pub open spec fn look_at_rh_s(eye: V3, center: V3, up: V3) -> M4V {
    let f = v3_normalize_s(v3_sub_s(eye, center));
    let s = v3_normalize_s(v3_cross_s(up, f));
    let u = v3_cross_s(f, s);
    M4V {
        c0: V4 { x: s.x, y: u.x, z: f.x, w: 0 },
        c1: V4 { x: s.y, y: u.y, z: f.y, w: 0 },
        c2: V4 { x: s.z, y: u.z, z: f.z, w: 0 },
        c3: V4 {
            x: fx_neg_s(v3_dot_s(s, eye)),
            y: fx_neg_s(v3_dot_s(u, eye)),
            z: fx_neg_s(v3_dot_s(f, eye)),
            w: 65536,
        },
    }
}

/// The left-handed perspective matrix with [0,1] depth, from the cotangent
/// of half the vertical field of view, the aspect ratio, and the near and
/// far plane distances.
pub open spec fn perspective_lh_s(h: int, aspect: int, near: int, far: int) -> M4V {
    let w = fx_div_s(h, aspect);
    let r = fx_div_s(far, fx_sub_s(far, near));
    M4V {
        c0: V4 { x: w, y: 0, z: 0, w: 0 },
        c1: V4 { x: 0, y: h, z: 0, w: 0 },
        c2: V4 { x: 0, y: 0, z: r, w: 65536 },
        c3: V4 { x: 0, y: 0, z: fx_neg_s(fx_mul_s(r, near)), w: 0 },
    }
}

/// The affine matrix mapping normalized device coordinates to pixel
/// coordinates and the depth range.
pub fn viewport_matrix(x: i64, y: i64, width: i64, height: i64, depth: i64) -> (r: Mat4)
    ensures
        r@ == viewport_matrix_s(x as int, y as int, width as int, height as int, depth as int),
{
    let two: i64 = 2 * SCALE;
    let half_w = fx_div(width, two);
    let half_h = fx_div(height, two);
    let half_d = fx_div(depth, two);
    Mat4::from_cols(
        Fx4::new(half_w, 0, 0, 0),
        Fx4::new(0, half_h, 0, 0),
        Fx4::new(0, 0, half_d, 0),
        Fx4::new(
            fx_add(x, half_w),
            fx_add(y, half_h),
            half_d,
            SCALE,
        ),
    )
}

/// The right-handed look-at view matrix.
pub fn look_at_rh(eye: Fx3, center: Fx3, up: Fx3) -> (r: Mat4)
    ensures
        r@ == look_at_rh_s(eye@, center@, up@),
{
    let f = eye.sub(center).normalized();
    let s = up.cross(f).normalized();
    let u = f.cross(s);
    Mat4::from_cols(
        Fx4::new(s.x, u.x, f.x, 0),
        Fx4::new(s.y, u.y, f.y, 0),
        Fx4::new(s.z, u.z, f.z, 0),
        Fx4::new(fx_neg(s.dot(eye)), fx_neg(u.dot(eye)), fx_neg(f.dot(eye)), SCALE),
    )
}

/// The left-handed perspective matrix with [0,1] depth.
pub fn perspective_lh(h: i64, aspect: i64, near: i64, far: i64) -> (r: Mat4)
    ensures
        r@ == perspective_lh_s(h as int, aspect as int, near as int, far as int),
{
    let w = fx_div(h, aspect);
    let rr = fx_div(far, fx_sub(far, near));
    Mat4::from_cols(
        Fx4::new(w, 0, 0, 0),
        Fx4::new(0, h, 0, 0),
        Fx4::new(0, 0, rr, SCALE),
        Fx4::new(0, 0, fx_neg(fx_mul(rr, near)), 0),
    )
}

/// World-to-eye, eye-to-clip and NDC-to-pixel matrices, and the eye position.
pub struct Camera {
    pub view: Mat4,
    pub projection: Mat4,
    pub viewport: Mat4,
    pub position: Fx3,
}

/// Mathematical view of a `Camera`.
pub ghost struct CamV {
    pub view: M4V,
    pub projection: M4V,
    pub viewport: M4V,
    pub position: V3,
}

impl View for Camera {
    type V = CamV;

    open spec fn view(&self) -> CamV {
        CamV {
            view: self.view@,
            projection: self.projection@,
            viewport: self.viewport@,
            position: self.position@,
        }
    }
}

/// The camera a fresh canvas of `width x height` pixels gets: eye at
/// `(0,0,1)` looking at the origin with `+y` up, a 60-degree vertical field
/// of view (its half-angle cotangent is `sqrt(3)`), near plane `0.1`, far
/// plane `100`, and the full-canvas viewport.
pub open spec fn cam_new_s(w: int, h: int) -> CamV {
    let pos = V3 { x: 0, y: 0, z: 65536 };
    CamV {
        view: look_at_rh_s(pos, V3 { x: 0, y: 0, z: 0 }, V3 { x: 0, y: 65536, z: 0 }),
        projection: perspective_lh_s(
            fx_sqrt_s(196608),
            fx_div_s(w * 65536, h * 65536),
            6553,
            6553600,
        ),
        viewport: viewport_matrix_s(0, 0, w * 65536, h * 65536, 65536),
        position: pos,
    }
}

impl Camera {
    /// A camera for a canvas of the given pixel size.
    pub fn new(width: u32, height: u32) -> (r: Camera)
        ensures
            r@ == cam_new_s(width as int, height as int),
    {
        let position = Fx3::new(0, 0, SCALE);
        let view = look_at_rh(position, Fx3::zero(), Fx3::new(0, SCALE, 0));
        let h = fx_sqrt(3 * SCALE);
        let aspect = fx_div(fx_from_u32(width), fx_from_u32(height));
        let projection = perspective_lh(h, aspect, 6553, 6553600);
        let viewport = viewport_matrix(0, 0, fx_from_u32(width), fx_from_u32(height), SCALE);
        Camera { view, projection, viewport, position }
    }

    /// Recompute the view matrix toward a target and remember the eye.
    /// Degenerate inputs (eye at the target, or an up vector parallel to the
    /// view direction) are the caller's responsibility, as the saturating
    /// normalization then yields a singular matrix.
    pub fn look_at(&mut self, eye: Fx3, target: Fx3, up: Fx3)
        ensures
            final(self)@.view == look_at_rh_s(eye@, target@, up@),
            final(self)@.position == eye@,
            final(self)@.projection == old(self)@.projection,
            final(self)@.viewport == old(self)@.viewport,
    {
        self.view = look_at_rh(eye, target, up);
        self.position = eye;
    }
}

} // verus!
