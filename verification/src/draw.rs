//! The rasterizer: canvas buffers, Bresenham line drawing, and barycentric
//! triangle scan conversion with depth testing and per-pixel fragment
//! shading.
//!
//! The canvas owns an RGBA8 color buffer and a fixed-point depth buffer.
//! The depth convention is "larger is nearer": cleared depth is the
//! smallest raw scalar, a depth test passes only on strictly greater
//! values, and out-of-bounds depth reads give the largest raw scalar.
//! Every mutating operation's contract gives the exact new buffer
//! contents through a specification twin.

use vstd::prelude::*;

use crate::fixed::{fx_abs, fx_add, fx_ceil_i32, fx_div, fx_floor_i32, fx_from_i32, fx_from_u32, fx_max, fx_min, fx_mul, fx_sub, fx_trunc_i32, fx_trunc_u32, SCALE};
use crate::fixed::{
    fx_abs_s, fx_add_s, fx_ceil_s, fx_div_s, fx_floor_s, fx_max_s, fx_min_s, fx_mul_s, fx_sub_s,
    fx_trunc_s, iabs, sat_s,
};
use crate::model::{mat_wf, model_wf, MatV, Material, Model, Vertex, VertexV};
use crate::shader::{
    interp_vo_s, interpolate_vertoutput, GlobalData, GlobalV, Shader, VertInV, VertInput,
    VertOutV, VertOutput,
};
use crate::vecmath::{
    m4_identity_s, m4_mul_m4_s, v3_cross_s, Fx2, Fx3, Fx4, Mat4, Weighted, V2, V3, V4,
};

verus! {

/// The barycentric weighted sum of three attribute values.
pub fn interpolate_bc<T: Weighted>(a: T, b: T, c: T, barycentric: &Fx3) -> (r: T)
    ensures
        r@ == T::wsum_view(a@, b@, c@, barycentric@),
{
    T::wsum(a, b, c, barycentric)
}

/// The color and depth buffers of one rendering session.
pub struct Canvas {
    pub width: u32,
    pub height: u32,
    pub frame: Vec<u8>,
    pub depth_buffer: Vec<i64>,
}

/// Mathematical view of a `Canvas`.
pub ghost struct CanvasV {
    pub width: int,
    pub height: int,
    pub frame: Seq<u8>,
    pub depth: Seq<i64>,
}

impl View for Canvas {
    type V = CanvasV;

    open spec fn view(&self) -> CanvasV {
        CanvasV {
            width: self.width as int,
            height: self.height as int,
            frame: self.frame@,
            depth: self.depth_buffer@,
        }
    }
}

/// A structurally valid canvas: nonempty, pixel coordinates fitting `i32`,
/// four color bytes and one depth cell per pixel.
pub open spec fn canvas_wf(c: CanvasV) -> bool {
    &&& 1 <= c.width <= 0x7fff_ffff
    &&& 1 <= c.height <= 0x7fff_ffff
    &&& c.frame.len() == c.width * c.height * 4
    &&& c.depth.len() == c.width * c.height
}

/// The cleared depth: the farthest representable value, so any tested
/// depth wins against it except the farthest value itself.
pub const DEPTH_CLEAR: i64 = i64::MIN;

/// A color channel scaled to a byte: `v * 255`, truncated and saturated
/// into `0 ..= 255`.
pub open spec fn lin_byte_s(v: int) -> int {
    sat_s(fx_trunc_s(fx_mul_s(v, (255 * 65536) as int)), 0, 255)
}

/// A color channel scaled to a byte.
fn linear_to_byte(value: i64) -> (r: u8)
    ensures
        r as int == lin_byte_s(value as int),
{
    let t = fx_mul(value, 255 * SCALE);
    let w = fx_trunc_u32(t);
    if w > 255 {
        255
    } else {
        w as u8
    }
}

/// The canvas after one pixel write: four color bytes changed when the
/// coordinates are on the canvas, nothing otherwise.
pub open spec fn set_pixel_s(c: CanvasV, x: int, y: int, col: V4) -> CanvasV {
    if 0 <= x < c.width && 0 <= y < c.height {
        let base = (y * c.width + x) * 4;
        CanvasV {
            frame: c.frame.update(base, lin_byte_s(col.x) as u8).update(
                base + 1,
                lin_byte_s(col.y) as u8,
            ).update(base + 2, lin_byte_s(col.z) as u8).update(base + 3, lin_byte_s(col.w) as u8),
            ..c
        }
    } else {
        c
    }
}

/// The canvas after one depth write: one cell changed when the coordinates
/// are on the canvas, nothing otherwise.
pub open spec fn set_depth_s(c: CanvasV, x: int, y: int, depth: i64) -> CanvasV {
    if 0 <= x < c.width && 0 <= y < c.height {
        CanvasV { depth: c.depth.update(y * c.width + x, depth), ..c }
    } else {
        c
    }
}

/// The stored depth at a pixel; out-of-bounds reads give the nearest
/// possible value, so they never win a depth test.
pub open spec fn get_depth_s(c: CanvasV, x: int, y: int) -> i64 {
    if 0 <= x < c.width && 0 <= y < c.height {
        c.depth[y * c.width + x]
    } else {
        i64::MAX
    }
}

/// Facts about the flat index of a pixel's cell.
pub(crate) proof fn lemma_cell_index(w: int, x: int, y: int)
    requires
        1 <= w,
        0 <= x < w,
        0 <= y,
    ensures
        (y * w + x) % w == x,
        (y * w + x) / w == y,
        ((y * w + x) * 4 + 0) / 4 == y * w + x,
        ((y * w + x) * 4 + 1) / 4 == y * w + x,
        ((y * w + x) * 4 + 2) / 4 == y * w + x,
        ((y * w + x) * 4 + 3) / 4 == y * w + x,
        ((y * w + x) * 4 + 0) % 4 == 0,
        ((y * w + x) * 4 + 1) % 4 == 1,
        ((y * w + x) * 4 + 2) % 4 == 2,
        ((y * w + x) * 4 + 3) % 4 == 3,
{
    vstd::arithmetic::div_mod::lemma_mod_multiples_vanish(y, x, w);
    vstd::arithmetic::div_mod::lemma_small_mod(x as nat, w as nat);
    assert(y * w == w * y) by (nonlinear_arith);
    vstd::arithmetic::div_mod::lemma_div_multiples_vanish_fancy(y, x, w);
    let q = y * w + x;
    assert(q * 4 == 4 * q) by (nonlinear_arith);
    vstd::arithmetic::div_mod::lemma_div_multiples_vanish_fancy(q, 0, 4);
    vstd::arithmetic::div_mod::lemma_div_multiples_vanish_fancy(q, 1, 4);
    vstd::arithmetic::div_mod::lemma_div_multiples_vanish_fancy(q, 2, 4);
    vstd::arithmetic::div_mod::lemma_div_multiples_vanish_fancy(q, 3, 4);
    vstd::arithmetic::div_mod::lemma_mod_multiples_vanish(q, 0, 4);
    vstd::arithmetic::div_mod::lemma_mod_multiples_vanish(q, 1, 4);
    vstd::arithmetic::div_mod::lemma_mod_multiples_vanish(q, 2, 4);
    vstd::arithmetic::div_mod::lemma_mod_multiples_vanish(q, 3, 4);
    vstd::arithmetic::div_mod::lemma_small_mod(0nat, 4nat);
    vstd::arithmetic::div_mod::lemma_small_mod(1nat, 4nat);
    vstd::arithmetic::div_mod::lemma_small_mod(2nat, 4nat);
    vstd::arithmetic::div_mod::lemma_small_mod(3nat, 4nat);
}

/// A flat index names exactly one pixel cell.
pub(crate) proof fn lemma_index_cell(w: int, i: int)
    requires
        1 <= w,
        0 <= i,
    ensures
        i == ((i / 4) / w) * w * 4 + ((i / 4) % w) * 4 + i % 4,
        0 <= (i / 4) % w < w,
        0 <= i % 4 < 4,
        0 <= (i / 4) / w,
        i / 4 == ((i / 4) / w) * w + (i / 4) % w,
{
    let q = i / 4;
    vstd::arithmetic::div_mod::lemma_fundamental_div_mod(i, 4);
    vstd::arithmetic::div_mod::lemma_fundamental_div_mod(q, w);
    vstd::arithmetic::div_mod::lemma_mod_division_less_than_divisor(i, 4);
    vstd::arithmetic::div_mod::lemma_mod_division_less_than_divisor(q, w);
    vstd::arithmetic::div_mod::lemma_div_pos_is_pos(i, 4);
    vstd::arithmetic::div_mod::lemma_div_pos_is_pos(q, w);
    assert(q == w * (q / w) + q % w);
    assert(w * (q / w) == (q / w) * w) by (nonlinear_arith);
    assert(i == 4 * q + i % 4);
    assert(((q / w) * w + q % w) * 4 == (q / w) * w * 4 + (q % w) * 4) by (nonlinear_arith);
    assert(4 * q == q * 4) by (nonlinear_arith);
}

impl Canvas {
    /// A canvas of the given pixel size, with the color buffer zeroed and
    /// every depth cell at the cleared (farthest) depth.
    pub fn new(width: u32, height: u32) -> (r: Canvas)
        requires
            1 <= width <= 0x7fff_ffff,
            1 <= height <= 0x7fff_ffff,
            width * height * 4 <= usize::MAX,
        ensures
            canvas_wf(r@),
            r@.width == width,
            r@.height == height,
            r@.frame == Seq::new((width * height * 4) as nat, |i: int| 0u8),
            r@.depth == Seq::new((width * height) as nat, |i: int| DEPTH_CLEAR),
    {
        proof {
            assert((width as int) * (height as int) <= (width as int) * (height as int) * 4)
                by (nonlinear_arith)
                requires
                    width >= 1,
                    height >= 1,
            ;
        }
        let total: usize = (width as usize) * (height as usize);
        let total4: usize = total * 4;
        let mut frame: Vec<u8> = Vec::new();
        let mut i: usize = 0;
        while i < total4
            invariant
                i <= total4,
                frame@.len() == i,
                forall|k: int| 0 <= k < i ==> frame@[k] == 0u8,
            decreases total4 - i,
        {
            frame.push(0);
            i = i + 1;
        }
        let mut depth_buffer: Vec<i64> = Vec::new();
        let mut j: usize = 0;
        while j < total
            invariant
                j <= total,
                depth_buffer@.len() == j,
                forall|k: int| 0 <= k < j ==> depth_buffer@[k] == DEPTH_CLEAR,
            decreases total - j,
        {
            depth_buffer.push(DEPTH_CLEAR);
            j = j + 1;
        }
        let r = Canvas { width, height, frame, depth_buffer };
        proof {
            assert(r@.frame =~= Seq::new((width * height * 4) as nat, |i: int| 0u8));
            assert(r@.depth =~= Seq::new((width * height) as nat, |i: int| DEPTH_CLEAR));
        }
        r
    }

    /// Write one pixel's color; coordinates off the canvas are ignored.
    pub fn set_pixel(&mut self, x: i32, y: i32, color: &Fx4)
        requires
            canvas_wf(old(self)@),
        ensures
            canvas_wf(final(self)@),
            final(self)@ == set_pixel_s(old(self)@, x as int, y as int, color@),
    {
        if x >= self.width as i32 || y >= self.height as i32 || x < 0 || y < 0 {
            return ;
        }
        proof {
            assert(((y as int) * (self@.width as int) + (x as int)) * 4 + 3 < self@.width
                * self@.height * 4) by (nonlinear_arith)
                requires
                    0 <= (x as int) < self@.width,
                    0 <= (y as int) < self@.height,
            ;
        }
        let _len: usize = self.frame.len();
        let base64: u64 = ((y as u64) * (self.width as u64) + (x as u64)) * 4;
        let base: usize = base64 as usize;
        self.frame[base] = linear_to_byte(color.x);
        self.frame[base + 1] = linear_to_byte(color.y);
        self.frame[base + 2] = linear_to_byte(color.z);
        self.frame[base + 3] = linear_to_byte(color.w);
    }

    /// Write one pixel's depth; coordinates off the canvas are ignored.
    pub fn set_pixel_depth(&mut self, x: i32, y: i32, depth: i64)
        requires
            canvas_wf(old(self)@),
        ensures
            canvas_wf(final(self)@),
            final(self)@ == set_depth_s(old(self)@, x as int, y as int, depth),
    {
        if x >= self.width as i32 || y >= self.height as i32 || x < 0 || y < 0 {
            return ;
        }
        proof {
            assert((y as int) * (self@.width as int) + (x as int) < self@.width * self@.height)
                by (nonlinear_arith)
                requires
                    0 <= (x as int) < self@.width,
                    0 <= (y as int) < self@.height,
            ;
        }
        let _len: usize = self.depth_buffer.len();
        let idx64: u64 = (y as u64) * (self.width as u64) + (x as u64);
        let idx: usize = idx64 as usize;
        self.depth_buffer[idx] = depth;
    }

    /// Read one pixel's depth; off the canvas the nearest possible value
    /// comes back, so such a read never wins a depth test.
    pub fn get_pixel_depth(&self, x: i32, y: i32) -> (r: i64)
        requires
            canvas_wf(self@),
        ensures
            r == get_depth_s(self@, x as int, y as int),
    {
        if x >= self.width as i32 || y >= self.height as i32 || x < 0 || y < 0 {
            return i64::MAX;
        }
        proof {
            assert((y as int) * (self@.width as int) + (x as int) < self@.width * self@.height)
                by (nonlinear_arith)
                requires
                    0 <= (x as int) < self@.width,
                    0 <= (y as int) < self@.height,
            ;
        }
        let _len: usize = self.depth_buffer.len();
        let idx64: u64 = (y as u64) * (self.width as u64) + (x as u64);
        let idx: usize = idx64 as usize;
        self.depth_buffer[idx]
    }

    /// Reset every pixel to neutral gray and every depth cell to the
    /// cleared (farthest) depth.
    pub fn clear_frame(&mut self)
        requires
            canvas_wf(old(self)@),
        ensures
            canvas_wf(final(self)@),
            final(self)@.width == old(self)@.width,
            final(self)@.height == old(self)@.height,
            final(self)@.frame == Seq::new(old(self)@.frame.len(), |i: int| 128u8),
            final(self)@.depth == Seq::new(old(self)@.depth.len(), |i: int| DEPTH_CLEAR),
    {
        let n: usize = self.frame.len();
        let mut i: usize = 0;
        while i < n
            invariant
                i <= n,
                self@.frame.len() == n,
                self@.width == old(self)@.width,
                self@.height == old(self)@.height,
                self@.depth == old(self)@.depth,
                forall|k: int| 0 <= k < i ==> self@.frame[k] == 128u8,
            decreases n - i,
        {
            self.frame[i] = 128;
            i = i + 1;
        }
        let m: usize = self.depth_buffer.len();
        let mut j: usize = 0;
        while j < m
            invariant
                j <= m,
                self@.depth.len() == m,
                self@.width == old(self)@.width,
                self@.height == old(self)@.height,
                self@.frame.len() == n,
                forall|k: int| 0 <= k < n ==> self@.frame[k] == 128u8,
                forall|k: int| 0 <= k < j ==> self@.depth[k] == DEPTH_CLEAR,
            decreases m - j,
        {
            self.depth_buffer[j] = DEPTH_CLEAR;
            j = j + 1;
        }
        proof {
            assert(self@.frame =~= Seq::new(old(self)@.frame.len(), |i: int| 128u8));
            assert(self@.depth =~= Seq::new(old(self)@.depth.len(), |i: int| DEPTH_CLEAR));
        }
    }
}

/// The barycentric coordinates of a point against a triangle's screen
/// positions, by the cross-product formulation. A signed area magnitude at
/// or below the degeneracy threshold gives `(-1, 1, 1)`, which fails the
/// coverage test everywhere.
pub open spec fn bary_s(a: V3, b: V3, c: V3, p: V3) -> V3 {
    let s1 = V3 { x: fx_sub_s(c.x, a.x), y: fx_sub_s(b.x, a.x), z: fx_sub_s(a.x, p.x) };
    let s2 = V3 { x: fx_sub_s(c.y, a.y), y: fx_sub_s(b.y, a.y), z: fx_sub_s(a.y, p.y) };
    let u = v3_cross_s(s1, s2);
    if fx_abs_s(u.z) > 655 {
        V3 {
            x: fx_sub_s(65536, fx_div_s(fx_add_s(u.x, u.y), u.z)),
            y: fx_div_s(u.y, u.z),
            z: fx_div_s(u.x, u.z),
        }
    } else {
        V3 { x: -65536, y: 65536, z: 65536 }
    }
}

/// Barycentric coordinates of `p` against the triangle `a b c` in screen
/// space; a degenerate triangle yields an all-rejecting result.
pub fn to_barycentric(a: Fx3, b: Fx3, c: Fx3, p: Fx3) -> (r: Fx3)
    ensures
        r@ == bary_s(a@, b@, c@, p@),
{
    let s1 = Fx3::new(fx_sub(c.x, a.x), fx_sub(b.x, a.x), fx_sub(a.x, p.x));
    let s2 = Fx3::new(fx_sub(c.y, a.y), fx_sub(b.y, a.y), fx_sub(a.y, p.y));
    let u = s1.cross(s2);
    if fx_abs(u.z) > 655 {
        Fx3::new(
            fx_sub(SCALE, fx_div(fx_add(u.x, u.y), u.z)),
            fx_div(u.y, u.z),
            fx_div(u.x, u.z),
        )
    } else {
        Fx3::new(-SCALE, SCALE, SCALE)
    }
}

/// A line endpoint's raw coordinate truncated to a whole pixel number and
/// saturated into the safe drawing range.
pub open spec fn line_clamp_s(v: int) -> int {
    sat_s(fx_trunc_s(v), -268435456, 268435456)
}

/// The canvas after the error-accumulation line walk from column `x` to
/// `x1`: each column gets one pixel (axes swapped back when `steep`), and
/// the error term decides when the minor coordinate steps.
pub open spec fn line_steps_s(
    c: CanvasV,
    steep: bool,
    x: int,
    x1: int,
    y: int,
    err: int,
    dx: int,
    derr: int,
    ystep: int,
    col: V4,
) -> CanvasV
    decreases x1 - x,
{
    if x >= x1 {
        c
    } else {
        let c2 = if steep {
            set_pixel_s(c, y, x, col)
        } else {
            set_pixel_s(c, x, y, col)
        };
        let e2 = err + derr;
        if e2 > dx {
            line_steps_s(c2, steep, x + 1, x1, y + ystep, e2 - 2 * dx, dx, derr, ystep, col)
        } else {
            line_steps_s(c2, steep, x + 1, x1, y, e2, dx, derr, ystep, col)
        }
    }
}

/// The canvas after one full line: swap to the dominant axis when the line
/// is steep, order the endpoints, then walk the columns.
pub open spec fn line_s(c: CanvasV, x0: int, y0: int, x1: int, y1: int, col: V4) -> CanvasV {
    let steep = iabs(x0 - x1) < iabs(y0 - y1);
    let ax0 = if steep { y0 } else { x0 };
    let ay0 = if steep { x0 } else { y0 };
    let ax1 = if steep { y1 } else { x1 };
    let ay1 = if steep { x1 } else { y1 };
    let bx0 = if ax0 > ax1 { ax1 } else { ax0 };
    let by0 = if ax0 > ax1 { ay1 } else { ay0 };
    let bx1 = if ax0 > ax1 { ax0 } else { ax1 };
    let by1 = if ax0 > ax1 { ay0 } else { ay1 };
    let dx = bx1 - bx0;
    let dy = by1 - by0;
    let derr = 2 * iabs(dy);
    let ystep: int = if by1 > by0 { 1 } else { -1 };
    line_steps_s(c, steep, bx0, bx1, by0, 0, dx, derr, ystep, col)
}

/// The canvas after a line between two raw-coordinate endpoints.
pub open spec fn line_vec_s(c: CanvasV, s: V2, e: V2, col: V4) -> CanvasV {
    line_s(
        c,
        line_clamp_s(s.x),
        line_clamp_s(s.y),
        line_clamp_s(e.x),
        line_clamp_s(e.y),
        col,
    )
}

/// The canvas after a triangle's three wireframe edges.
pub open spec fn wire_s(c: CanvasV, t0: V2, t1: V2, t2: V2, col: V4) -> CanvasV {
    line_vec_s(line_vec_s(line_vec_s(c, t0, t1, col), t1, t2, col), t2, t0, col)
}

impl Canvas {
    /// Draw a line of one color by integer error accumulation, one pixel
    /// per column along the dominant axis.
    pub fn draw_line(&mut self, x0: i32, y0: i32, x1: i32, y1: i32, color: &Fx4)
        requires
            canvas_wf(old(self)@),
            -268435456 <= x0 <= 268435456,
            -268435456 <= y0 <= 268435456,
            -268435456 <= x1 <= 268435456,
            -268435456 <= y1 <= 268435456,
        ensures
            canvas_wf(final(self)@),
            final(self)@.width == old(self)@.width,
            final(self)@.height == old(self)@.height,
            final(self)@ == line_s(old(self)@, x0 as int, y0 as int, x1 as int, y1 as int, color@),
    {
        let ghost c0 = self@;
        let mut sx0 = x0;
        let mut sy0 = y0;
        let mut sx1 = x1;
        let mut sy1 = y1;
        let mut steep = false;
        let adx: i32 = if x0 - x1 < 0 {
            -(x0 - x1)
        } else {
            x0 - x1
        };
        let ady: i32 = if y0 - y1 < 0 {
            -(y0 - y1)
        } else {
            y0 - y1
        };
        if adx < ady {
            steep = true;
            let t0 = sx0;
            sx0 = sy0;
            sy0 = t0;
            let t1 = sx1;
            sx1 = sy1;
            sy1 = t1;
        }
        if sx0 > sx1 {
            let t0 = sx0;
            sx0 = sx1;
            sx1 = t0;
            let t1 = sy0;
            sy0 = sy1;
            sy1 = t1;
        }
        let dx: i32 = sx1 - sx0;
        let dy: i32 = sy1 - sy0;
        let derr: i32 = 2 * (if dy < 0 {
            -dy
        } else {
            dy
        });
        let ystep: i32 = if sy1 > sy0 {
            1
        } else {
            -1
        };
        let mut err: i32 = 0;
        let mut y = sy0;
        let mut x = sx0;
        while x < sx1
            invariant
                canvas_wf(self@),
                self@.width == c0.width,
                self@.height == c0.height,
                sx0 <= x <= sx1,
                -268435456 <= sx0,
                sx1 <= 268435456,
                -268435456 <= sy0 <= 268435456,
                -268435456 <= sy1 <= 268435456,
                dx == sx1 - sx0,
                dy == sy1 - sy0,
                0 <= dx,
                iabs(dy as int) <= dx as int,
                derr as int == 2 * iabs(dy as int),
                ystep as int == (if sy1 > sy0 { 1int } else { -1int }),
                -(2 * (dx as int)) <= err as int <= dx as int,
                -(268435456 + (x - sx0)) <= y as int <= 268435456 + (x - sx0),
                line_steps_s(
                    self@,
                    steep,
                    x as int,
                    sx1 as int,
                    y as int,
                    err as int,
                    dx as int,
                    derr as int,
                    ystep as int,
                    color@,
                ) == line_steps_s(
                    c0,
                    steep,
                    sx0 as int,
                    sx1 as int,
                    sy0 as int,
                    0,
                    dx as int,
                    derr as int,
                    ystep as int,
                    color@,
                ),
            decreases sx1 - x,
        {
            if steep {
                self.set_pixel(y, x, color);
            } else {
                self.set_pixel(x, y, color);
            }
            err = err + derr;
            if err > dx {
                y = y + ystep;
                err = err - dx * 2;
            }
            x = x + 1;
        }
    }

    /// Draw a line between two raw-coordinate endpoints.
    pub fn draw_line_vec(&mut self, start: &Fx2, end: &Fx2, color: &Fx4)
        requires
            canvas_wf(old(self)@),
        ensures
            canvas_wf(final(self)@),
            final(self)@.width == old(self)@.width,
            final(self)@.height == old(self)@.height,
            final(self)@ == line_vec_s(old(self)@, start@, end@, color@),
    {
        let x0 = clamp_line_coord(start.x);
        let y0 = clamp_line_coord(start.y);
        let x1 = clamp_line_coord(end.x);
        let y1 = clamp_line_coord(end.y);
        self.draw_line(x0, y0, x1, y1, color);
    }

    /// A vertex's NDC position mapped to pixel coordinates, with y flipped;
    /// z is kept unchanged for depth.
    pub fn to_screen_space(&self, v: &Fx3) -> (r: Fx3)
        ensures
            r@ == to_screen_s(self@, v@),
    {
        let two: i64 = 2 * SCALE;
        Fx3::new(
            fx_div(fx_mul(fx_add(v.x, SCALE), fx_from_u32(self.width)), two),
            fx_div(fx_mul(fx_add(fx_mul(v.y, -SCALE), SCALE), fx_from_u32(self.height)), two),
            v.z,
        )
    }

    /// Draw a triangle's three edges in one color.
    pub fn draw_wire_triangle(&mut self, t0: Fx2, t1: Fx2, t2: Fx2, color: &Fx4)
        requires
            canvas_wf(old(self)@),
        ensures
            canvas_wf(final(self)@),
            final(self)@.width == old(self)@.width,
            final(self)@.height == old(self)@.height,
            final(self)@ == wire_s(old(self)@, t0@, t1@, t2@, color@),
    {
        self.draw_line_vec(&t0, &t1, color);
        self.draw_line_vec(&t1, &t2, color);
        self.draw_line_vec(&t2, &t0, color);
    }
}

/// The barycentric coordinates of the pixel center `(x, y)` against a
/// triangle's three screen positions.
pub open spec fn tri_bc_s(t0: VertOutV, t1: VertOutV, t2: VertOutV, x: int, y: int) -> V3 {
    bary_s(t0.position, t1.position, t2.position, V3 { x: x * 65536, y: y * 65536, z: 0 })
}

/// The coverage test: all three barycentric components at least zero.
pub open spec fn tri_covered_s(t0: VertOutV, t1: VertOutV, t2: VertOutV, x: int, y: int) -> bool {
    let bc = tri_bc_s(t0, t1, t2, x, y);
    bc.x >= 0 && bc.y >= 0 && bc.z >= 0
}

/// The screen-space depth interpolated by the barycentric weights.
pub open spec fn tri_z_s(t0: VertOutV, t1: VertOutV, t2: VertOutV, x: int, y: int) -> int {
    let bc = tri_bc_s(t0, t1, t2, x, y);
    fx_add_s(
        fx_add_s(fx_mul_s(bc.x, t0.position.z), fx_mul_s(bc.y, t1.position.z)),
        fx_mul_s(bc.z, t2.position.z),
    )
}

/// The first column of the clamped bounding box: the smallest whole number
/// at or above the three vertices' minimum, raised to the canvas edge.
pub open spec fn tri_xlo_s(c: CanvasV, t0: VertOutV, t1: VertOutV, t2: VertOutV) -> int {
    fx_max_s(
        sat_s(
            fx_ceil_s(fx_min_s(fx_min_s(t0.position.x, t1.position.x), t2.position.x)),
            i32::MIN as int,
            i32::MAX as int,
        ),
        0,
    )
}

/// The last column of the clamped bounding box: the largest whole number
/// at or below the three vertices' maximum, lowered to the canvas edge.
/// The box is empty (`hi < lo`) when the triangle misses the canvas.
pub open spec fn tri_xhi_s(c: CanvasV, t0: VertOutV, t1: VertOutV, t2: VertOutV) -> int {
    fx_min_s(
        sat_s(
            fx_floor_s(fx_max_s(fx_max_s(t0.position.x, t1.position.x), t2.position.x)),
            i32::MIN as int,
            i32::MAX as int,
        ),
        c.width - 1,
    )
}

/// The first row of the clamped bounding box.
pub open spec fn tri_ylo_s(c: CanvasV, t0: VertOutV, t1: VertOutV, t2: VertOutV) -> int {
    fx_max_s(
        sat_s(
            fx_ceil_s(fx_min_s(fx_min_s(t0.position.y, t1.position.y), t2.position.y)),
            i32::MIN as int,
            i32::MAX as int,
        ),
        0,
    )
}

/// The last row of the clamped bounding box.
pub open spec fn tri_yhi_s(c: CanvasV, t0: VertOutV, t1: VertOutV, t2: VertOutV) -> int {
    fx_min_s(
        sat_s(
            fx_floor_s(fx_max_s(fx_max_s(t0.position.y, t1.position.y), t2.position.y)),
            i32::MIN as int,
            i32::MAX as int,
        ),
        c.height - 1,
    )
}

/// Whether the scan visits pixel `(x, y)`: every integer pixel center in
/// the clamped bounding box is visited, both edges included.
pub open spec fn tri_in_box_s(
    c: CanvasV,
    t0: VertOutV,
    t1: VertOutV,
    t2: VertOutV,
    x: int,
    y: int,
) -> bool {
    &&& tri_xlo_s(c, t0, t1, t2) <= x <= tri_xhi_s(c, t0, t1, t2)
    &&& tri_ylo_s(c, t0, t1, t2) <= y <= tri_yhi_s(c, t0, t1, t2)
}

/// Whether pixel `(x, y)` is written: visited, covered, and strictly
/// nearer than the stored depth.
pub open spec fn tri_writes_s(
    c: CanvasV,
    t0: VertOutV,
    t1: VertOutV,
    t2: VertOutV,
    x: int,
    y: int,
) -> bool {
    &&& tri_in_box_s(c, t0, t1, t2, x, y)
    &&& tri_covered_s(t0, t1, t2, x, y)
    &&& tri_z_s(t0, t1, t2, x, y) > get_depth_s(c, x, y)
}

/// The fragment color at pixel `(x, y)`: the shader applied to the
/// barycentric interpolation of the three vertex-stage outputs.
pub open spec fn tri_color_s<S: Shader>(
    s: S,
    m: MatV,
    g: GlobalV,
    t0: VertOutV,
    t1: VertOutV,
    t2: VertOutV,
    x: int,
    y: int,
) -> V4 {
    s.fragment_s(interp_vo_s(t0, t1, t2, tri_bc_s(t0, t1, t2, x, y)), m, g)
}

/// One channel of a color as a frame byte.
pub open spec fn color_byte_s(col: V4, ch: int) -> u8 {
    (if ch == 0 {
        lin_byte_s(col.x)
    } else if ch == 1 {
        lin_byte_s(col.y)
    } else if ch == 2 {
        lin_byte_s(col.z)
    } else {
        lin_byte_s(col.w)
    }) as u8
}

/// The frame byte at flat index `i` after a triangle fill over canvas `c`.
pub open spec fn tri_frame_at_s<S: Shader>(
    c: CanvasV,
    s: S,
    m: MatV,
    g: GlobalV,
    t0: VertOutV,
    t1: VertOutV,
    t2: VertOutV,
    i: int,
) -> u8 {
    let x = (i / 4) % c.width;
    let y = (i / 4) / c.width;
    if tri_writes_s(c, t0, t1, t2, x, y) {
        color_byte_s(tri_color_s(s, m, g, t0, t1, t2, x, y), i % 4)
    } else {
        c.frame[i]
    }
}

/// The depth cell at flat index `i` after a triangle fill over canvas `c`.
pub open spec fn tri_depth_at_s(
    c: CanvasV,
    t0: VertOutV,
    t1: VertOutV,
    t2: VertOutV,
    i: int,
) -> i64 {
    let x = i % c.width;
    let y = i / c.width;
    if tri_writes_s(c, t0, t1, t2, x, y) {
        tri_z_s(t0, t1, t2, x, y) as i64
    } else {
        c.depth[i]
    }
}

/// The canvas after one filled triangle: every visited, covered pixel that
/// wins the depth test takes the shader's color and its interpolated
/// depth; every other pixel keeps its old state.
pub open spec fn tri_fill_s<S: Shader>(
    c: CanvasV,
    s: S,
    m: MatV,
    g: GlobalV,
    t0: VertOutV,
    t1: VertOutV,
    t2: VertOutV,
) -> CanvasV {
    CanvasV {
        width: c.width,
        height: c.height,
        frame: Seq::new(c.frame.len(), |i: int| tri_frame_at_s(c, s, m, g, t0, t1, t2, i)),
        depth: Seq::new(c.depth.len(), |i: int| tri_depth_at_s(c, t0, t1, t2, i)),
    }
}

/// The canvas after one triangle: its three vertices run through the
/// shader's vertex stage, then either the three wireframe edges in white,
/// or the filled scan conversion.
pub open spec fn tri_draw_s<S: Shader>(
    c: CanvasV,
    s: S,
    m: MatV,
    g: GlobalV,
    v0: VertexV,
    v1: VertexV,
    v2: VertexV,
    vin: VertInV,
    wire: bool,
) -> CanvasV {
    let t0 = s.vertex_s(v0, vin, g);
    let t1 = s.vertex_s(v1, vin, g);
    let t2 = s.vertex_s(v2, vin, g);
    if wire {
        wire_s(
            c,
            V2 { x: t0.position.x, y: t0.position.y },
            V2 { x: t1.position.x, y: t1.position.y },
            V2 { x: t2.position.x, y: t2.position.y },
            V4 { x: 65536, y: 65536, z: 65536, w: 65536 },
        )
    } else {
        tri_fill_s(c, s, m, g, t0, t1, t2)
    }
}

/// The screen-space map used by `to_screen_space`.
pub open spec fn to_screen_s(c: CanvasV, v: V3) -> V3 {
    V3 {
        x: fx_div_s(fx_mul_s(fx_add_s(v.x, 65536), c.width * 65536), 131072),
        y: fx_div_s(
            fx_mul_s(fx_add_s(fx_mul_s(v.y, -65536), 65536), c.height * 65536),
            131072,
        ),
        z: v.z,
    }
}

impl Canvas {
    /// Rasterize one triangle: run the shader's vertex stage on the three
    /// vertices, then either draw the wireframe edges in white, or scan
    /// every pixel of the clamped bounding box, testing coverage by
    /// barycentric coordinates and depth by strict greater-than, and
    /// shading each pixel that passes.
    #[verifier::rlimit(100)]
    pub fn draw_triangle<S: Shader>(
        &mut self,
        v0: &Vertex,
        v1: &Vertex,
        v2: &Vertex,
        shader: &S,
        material: &Material,
        vert_input: &VertInput,
        globals: &GlobalData,
        is_wireframe: bool,
    )
        requires
            canvas_wf(old(self)@),
            mat_wf(material@),
        ensures
            canvas_wf(final(self)@),
            final(self)@.width == old(self)@.width,
            final(self)@.height == old(self)@.height,
            final(self)@ == tri_draw_s(
                old(self)@,
                *shader,
                material@,
                globals@,
                v0@,
                v1@,
                v2@,
                vert_input@,
                is_wireframe,
            ),
    {
        let t0 = shader.vertex(v0, vert_input, globals);
        let t1 = shader.vertex(v1, vert_input, globals);
        let t2 = shader.vertex(v2, vert_input, globals);
        if is_wireframe {
            let white = Fx4::new(SCALE, SCALE, SCALE, SCALE);
            self.draw_wire_triangle(
                Fx2::new(t0.position.x, t0.position.y),
                Fx2::new(t1.position.x, t1.position.y),
                Fx2::new(t2.position.x, t2.position.y),
                &white,
            );
            return ;
        }
        let ghost c0 = self@;
        let min_x = fx_min(fx_min(t0.position.x, t1.position.x), t2.position.x);
        let max_x = fx_max(fx_max(t0.position.x, t1.position.x), t2.position.x);
        let min_y = fx_min(fx_min(t0.position.y, t1.position.y), t2.position.y);
        let max_y = fx_max(fx_max(t0.position.y, t1.position.y), t2.position.y);
        let wmax: i32 = (self.width - 1) as i32;
        let hmax: i32 = (self.height - 1) as i32;
        let xlo0 = fx_ceil_i32(min_x);
        let xlo: i32 = if xlo0 < 0 {
            0
        } else {
            xlo0
        };
        let xhi0 = fx_floor_i32(max_x);
        let xhi: i32 = if xhi0 > wmax {
            wmax
        } else {
            xhi0
        };
        let ylo0 = fx_ceil_i32(min_y);
        let ylo: i32 = if ylo0 < 0 {
            0
        } else {
            ylo0
        };
        let yhi0 = fx_floor_i32(max_y);
        let yhi: i32 = if yhi0 > hmax {
            hmax
        } else {
            yhi0
        };
        proof {
            assert(xlo as int == tri_xlo_s(c0, t0@, t1@, t2@));
            assert(xhi as int == tri_xhi_s(c0, t0@, t1@, t2@));
            assert(ylo as int == tri_ylo_s(c0, t0@, t1@, t2@));
            assert(yhi as int == tri_yhi_s(c0, t0@, t1@, t2@));
        }
        let mut x: i32 = xlo;
        while x <= xhi
            invariant
                canvas_wf(self@),
                canvas_wf(c0),
                mat_wf(material@),
                self@.width == c0.width,
                self@.height == c0.height,
                self@.frame.len() == c0.frame.len(),
                self@.depth.len() == c0.depth.len(),
                0 <= xlo as int,
                xhi as int <= c0.width - 1,
                0 <= ylo as int,
                yhi as int <= c0.height - 1,
                xlo <= x,
                x <= xhi + 1 || x == xlo,
                xlo as int == tri_xlo_s(c0, t0@, t1@, t2@),
                xhi as int == tri_xhi_s(c0, t0@, t1@, t2@),
                ylo as int == tri_ylo_s(c0, t0@, t1@, t2@),
                yhi as int == tri_yhi_s(c0, t0@, t1@, t2@),
                forall|i: int|
                    0 <= i < c0.frame.len() ==> #[trigger] self@.frame[i] == (if (i / 4) % c0.width
                        < x as int {
                        tri_frame_at_s(c0, *shader, material@, globals@, t0@, t1@, t2@, i)
                    } else {
                        c0.frame[i]
                    }),
                forall|i: int|
                    0 <= i < c0.depth.len() ==> #[trigger] self@.depth[i] == (if i % c0.width
                        < x as int {
                        tri_depth_at_s(c0, t0@, t1@, t2@, i)
                    } else {
                        c0.depth[i]
                    }),
            decreases xhi + 1 - x,
        {
            let mut y: i32 = ylo;
            while y <= yhi
                invariant
                    canvas_wf(self@),
                    canvas_wf(c0),
                    mat_wf(material@),
                    self@.width == c0.width,
                    self@.height == c0.height,
                    self@.frame.len() == c0.frame.len(),
                    self@.depth.len() == c0.depth.len(),
                    0 <= xlo as int,
                    xhi as int <= c0.width - 1,
                    0 <= ylo as int,
                    yhi as int <= c0.height - 1,
                    xlo <= x <= xhi,
                    ylo <= y,
                    y <= yhi + 1 || y == ylo,
                    xlo as int == tri_xlo_s(c0, t0@, t1@, t2@),
                    xhi as int == tri_xhi_s(c0, t0@, t1@, t2@),
                    ylo as int == tri_ylo_s(c0, t0@, t1@, t2@),
                    yhi as int == tri_yhi_s(c0, t0@, t1@, t2@),
                    forall|i: int|
                        0 <= i < c0.frame.len() ==> #[trigger] self@.frame[i] == (if (i / 4)
                            % c0.width < x as int || ((i / 4) % c0.width == x as int && (i / 4)
                            / c0.width < y as int) {
                            tri_frame_at_s(c0, *shader, material@, globals@, t0@, t1@, t2@, i)
                        } else {
                            c0.frame[i]
                        }),
                    forall|i: int|
                        0 <= i < c0.depth.len() ==> #[trigger] self@.depth[i] == (if i % c0.width
                            < x as int || (i % c0.width == x as int && i / c0.width < y as int) {
                            tri_depth_at_s(c0, t0@, t1@, t2@, i)
                        } else {
                            c0.depth[i]
                        }),
                decreases yhi + 1 - y,
            {
                let bc = to_barycentric(
                    t0.position,
                    t1.position,
                    t2.position,
                    Fx3::new(fx_from_i32(x), fx_from_i32(y), 0),
                );
                proof {
                    assert(bc@ == tri_bc_s(t0@, t1@, t2@, x as int, y as int));
                    lemma_cell_index(c0.width, x as int, y as int);
                    assert((y as int) * c0.width + (x as int) + 1 <= c0.width * c0.height)
                        by (nonlinear_arith)
                        requires
                            0 <= (x as int) < c0.width,
                            0 <= (y as int) < c0.height,
                    ;
                }
                let ghost q = (y as int) * c0.width + (x as int);
                let ghost wrote = tri_writes_s(c0, t0@, t1@, t2@, x as int, y as int);
                if bc.x >= 0 && bc.y >= 0 && bc.z >= 0 {
                    let z = fx_add(
                        fx_add(fx_mul(bc.x, t0.position.z), fx_mul(bc.y, t1.position.z)),
                        fx_mul(bc.z, t2.position.z),
                    );
                    let d = self.get_pixel_depth(x, y);
                    proof {
                        assert(self@.depth[q] == c0.depth[q]);
                        assert(d == get_depth_s(c0, x as int, y as int));
                    }
                    if z > d {
                        proof {
                            assert(wrote);
                        }
                        let vo = interpolate_vertoutput(&t0, &t1, &t2, &bc);
                        let color = shader.fragment(&vo, material, globals);
                        proof {
                            assert(color@ == tri_color_s(
                                *shader,
                                material@,
                                globals@,
                                t0@,
                                t1@,
                                t2@,
                                x as int,
                                y as int,
                            ));
                        }
                        let ghost before = self@;
                        self.set_pixel(x, y, &color);
                        self.set_pixel_depth(x, y, z);
                        proof {
                            let w = c0.width;
                            assert forall|i: int| 0 <= i < c0.frame.len() implies self@.frame[i]
                                == (if (i / 4) % w < x as int || ((i / 4) % w == x as int && (i
                                / 4) / w < y as int + 1) {
                                tri_frame_at_s(c0, *shader, material@, globals@, t0@, t1@, t2@, i)
                            } else {
                                c0.frame[i]
                            }) by {
                                lemma_index_cell(w, i);
                                let col = (i / 4) % w;
                                let row = (i / 4) / w;
                                let ch = i % 4;
                                if col == x as int && row == y as int {
                                    assert(i == q * 4 + ch);
                                    assert(self@.frame[i] == color_byte_s(color@, ch));
                                } else {
                                    assert(i != q * 4 + 0 && i != q * 4 + 1 && i != q * 4 + 2 && i
                                        != q * 4 + 3);
                                    assert(self@.frame[i] == before.frame[i]);
                                }
                            }
                            assert forall|i: int| 0 <= i < c0.depth.len() implies self@.depth[i]
                                == (if i % w < x as int || (i % w == x as int && i / w < y as int
                                + 1) {
                                tri_depth_at_s(c0, t0@, t1@, t2@, i)
                            } else {
                                c0.depth[i]
                            }) by {
                                vstd::arithmetic::div_mod::lemma_fundamental_div_mod(i, w);
                                vstd::arithmetic::div_mod::lemma_mod_division_less_than_divisor(
                                    i,
                                    w,
                                );
                                vstd::arithmetic::div_mod::lemma_div_pos_is_pos(i, w);
                                let col = i % w;
                                let row = i / w;
                                if col == x as int && row == y as int {
                                    assert(w * row + col == row * w + col) by (nonlinear_arith);
                                    assert(i == q);
                                    assert(self@.depth[i] == z);
                                } else {
                                    assert(w * row + col == row * w + col) by (nonlinear_arith);
                                    assert(i != q);
                                    assert(self@.depth[i] == before.depth[i]);
                                }
                            }
                        }
                    } else {
                        proof {
                            assert(!wrote);
                        }
                    }
                } else {
                    proof {
                        assert(!tri_covered_s(t0@, t1@, t2@, x as int, y as int));
                        assert(!wrote);
                    }
                }
                proof {
                    if !wrote {
                        let w = c0.width;
                        assert forall|i: int| 0 <= i < c0.frame.len() implies self@.frame[i] == (
                        if (i / 4) % w < x as int || ((i / 4) % w == x as int && (i / 4) / w
                            < y as int + 1) {
                            tri_frame_at_s(c0, *shader, material@, globals@, t0@, t1@, t2@, i)
                        } else {
                            c0.frame[i]
                        }) by {
                            lemma_index_cell(w, i);
                        }
                        assert forall|i: int| 0 <= i < c0.depth.len() implies self@.depth[i] == (
                        if i % w < x as int || (i % w == x as int && i / w < y as int + 1) {
                            tri_depth_at_s(c0, t0@, t1@, t2@, i)
                        } else {
                            c0.depth[i]
                        }) by {
                            vstd::arithmetic::div_mod::lemma_fundamental_div_mod(i, w);
                            vstd::arithmetic::div_mod::lemma_mod_division_less_than_divisor(i, w);
                            vstd::arithmetic::div_mod::lemma_div_pos_is_pos(i, w);
                        }
                    }
                }
                y = y + 1;
            }
            x = x + 1;
        }
        proof {
            let fin = tri_fill_s(c0, *shader, material@, globals@, t0@, t1@, t2@);
            assert forall|i: int| 0 <= i < c0.frame.len() implies self@.frame[i] == fin.frame[i] by {
                lemma_index_cell(c0.width, i);
            }
            assert forall|i: int| 0 <= i < c0.depth.len() implies self@.depth[i] == fin.depth[i] by {
                vstd::arithmetic::div_mod::lemma_mod_division_less_than_divisor(i, c0.width);
            }
            assert(self@.frame =~= fin.frame);
            assert(self@.depth =~= fin.depth);
        }
    }
}

/// The per-draw vertex input composed from the camera's matrices with an
/// identity model matrix, whose inverse-transpose is the identity too.
pub open spec fn model_vin_s(g: GlobalV) -> VertInV {
    let m = m4_identity_s();
    let mv = m4_mul_m4_s(g.camera.view, m);
    let mvp = m4_mul_m4_s(g.camera.projection, mv);
    let mvpv = m4_mul_m4_s(g.camera.viewport, mvp);
    VertInV { mvpv, mvp, mv, m, mit: m4_identity_s() }
}

/// The canvas after the first `j` faces of a model are drawn in order.
pub open spec fn draw_faces_s<S: Shader>(
    c: CanvasV,
    m: crate::model::ModelV,
    s: S,
    g: GlobalV,
    vin: VertInV,
    wire: bool,
    j: int,
) -> CanvasV
    decreases j,
{
    if j <= 0 {
        c
    } else {
        let prev = draw_faces_s(c, m, s, g, vin, wire, j - 1);
        let f = m.faces[j - 1];
        tri_draw_s(
            prev,
            s,
            m.material,
            g,
            m.vertices[f.v0],
            m.vertices[f.v1],
            m.vertices[f.v2],
            vin,
            wire,
        )
    }
}

/// The canvas after every face of a model is drawn.
pub open spec fn draw_model_s<S: Shader>(
    c: CanvasV,
    m: crate::model::ModelV,
    s: S,
    g: GlobalV,
    wire: bool,
) -> CanvasV {
    draw_faces_s(c, m, s, g, model_vin_s(g), wire, m.faces.len() as int)
}

impl Canvas {
    /// Draw a whole model: one draw-triangle call per face, all sharing the
    /// model's material and the per-draw vertex input composed from the
    /// camera.
    pub fn draw_model<S: Shader>(
        &mut self,
        model: &Model,
        shader: &S,
        globals: &GlobalData,
        is_wireframe: bool,
    )
        requires
            canvas_wf(old(self)@),
            model_wf(model@),
        ensures
            canvas_wf(final(self)@),
            final(self)@.width == old(self)@.width,
            final(self)@.height == old(self)@.height,
            final(self)@ == draw_model_s(old(self)@, model@, *shader, globals@, is_wireframe),
    {
        let m = Mat4::identity();
        let mv = globals.camera.view.mul_m4(m);
        let mvp = globals.camera.projection.mul_m4(mv);
        let mvpv = globals.camera.viewport.mul_m4(mvp);
        let v_in = VertInput { mvpv, mvp, mv, m, mit: Mat4::identity() };
        proof {
            assert(v_in@ == model_vin_s(globals@));
        }
        let ghost c0 = self@;
        let nfaces: usize = model.faces.len();
        let mut j: usize = 0;
        while j < nfaces
            invariant
                canvas_wf(self@),
                canvas_wf(c0),
                self@.width == c0.width,
                self@.height == c0.height,
                model_wf(model@),
                nfaces == model@.faces.len(),
                j <= nfaces,
                v_in@ == model_vin_s(globals@),
                self@ == draw_faces_s(
                    c0,
                    model@,
                    *shader,
                    globals@,
                    v_in@,
                    is_wireframe,
                    j as int,
                ),
            decreases nfaces - j,
        {
            let face = model.faces[j];
            let ia = face.vertices[0];
            let ib = face.vertices[1];
            let ic = face.vertices[2];
            proof {
                assert(face@ == model@.faces[j as int]);
                assert(0 <= model@.faces[j as int].v0 < model@.vertices.len());
                assert(0 <= model@.faces[j as int].v1 < model@.vertices.len());
                assert(0 <= model@.faces[j as int].v2 < model@.vertices.len());
                assert(ia as int == face@.v0);
                assert(ib as int == face@.v1);
                assert(ic as int == face@.v2);
                assert(model@.vertices[ia as int] == model.vertices@[ia as int]@);
                assert(model@.vertices[ib as int] == model.vertices@[ib as int]@);
                assert(model@.vertices[ic as int] == model.vertices@[ic as int]@);
            }
            let va = model.vertices[ia];
            let vb = model.vertices[ib];
            let vc = model.vertices[ic];
            self.draw_triangle(
                &va,
                &vb,
                &vc,
                shader,
                &model.material,
                &v_in,
                globals,
                is_wireframe,
            );
            j = j + 1;
        }
    }
}

/// A raw scalar truncated and saturated into the safe line-coordinate range.
fn clamp_line_coord(v: i64) -> (r: i32)
    ensures
        r as int == line_clamp_s(v as int),
        -268435456 <= r <= 268435456,
{
    let t = fx_trunc_i32(v);
    if t > 268435456 {
        268435456
    } else if t < -268435456 {
        -268435456
    } else {
        t
    }
}

} // verus!
