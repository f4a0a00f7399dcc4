//! Decoded RGBA8 textures with point-sampled, wrapping UV lookup.
//!
//! A texture is an immutable width x height grid of RGBA byte quadruples,
//! row-major with the origin at the top left. UV sampling flips V, wraps
//! both axes by the fractional part and picks the nearest texel.

use vstd::prelude::*;

use crate::fixed::{fx_fract, fx_from_u32, fx_mul, fx_sub, fx_trunc_u32, SCALE};
use crate::fixed::{fx_fract_s, fx_mul_s, fx_sub_s, fx_trunc_s, lemma_trem_bound, sat_s};
use crate::vecmath::{Fx2, Fx4, V2, V4};

verus! {

/// A decoded image: width, height and RGBA8 bytes, row-major, top-left origin.
pub struct Texture {
    pub width: u32,
    pub height: u32,
    pub pixels: Vec<u8>,
}

/// Mathematical view of a `Texture`.
pub ghost struct TexV {
    pub width: int,
    pub height: int,
    pub pixels: Seq<u8>,
}

impl View for Texture {
    type V = TexV;

    open spec fn view(&self) -> TexV {
        TexV {
            width: self.width as int,
            height: self.height as int,
            pixels: self.pixels@,
        }
    }
}

/// A structurally valid texture: nonempty, one RGBA quadruple per texel.
pub open spec fn tex_wf(t: TexV) -> bool {
    &&& 1 <= t.width
    &&& 1 <= t.height
    &&& t.pixels.len() == t.width * t.height * 4
}

/// Raw scalar of a color channel byte: `b / 255` at fixed-point resolution.
pub open spec fn byte_fx_s(b: int) -> int {
    (b * 65536) / 255
}

/// The RGBA sample of the texel at column `x`, row `y`.
pub open spec fn tex_color_s(t: TexV, x: int, y: int) -> V4 {
    let base = (y * t.width + x) * 4;
    V4 {
        x: byte_fx_s(t.pixels[base] as int),
        y: byte_fx_s(t.pixels[base + 1] as int),
        z: byte_fx_s(t.pixels[base + 2] as int),
        w: byte_fx_s(t.pixels[base + 3] as int),
    }
}

/// Texel index addressed by one wrapped normalized coordinate: the
/// fractional part (keeping its sign) scaled by `extent - 1`, truncated
/// toward zero and clamped below at zero.
pub open spec fn wrap_coord_s(u: int, extent: int) -> int {
    sat_s(fx_trunc_s(fx_mul_s(fx_fract_s(u), (extent - 1) * 65536)), 0, u32::MAX as int)
}

/// The sample under UV addressing: `x` wraps `u` and `y` wraps `1 - v`.
pub open spec fn tex_color_uv_s(t: TexV, uv: V2) -> V4 {
    tex_color_s(t, wrap_coord_s(uv.x, t.width), wrap_coord_s(fx_sub_s(65536, uv.y), t.height))
}

/// A wrapped coordinate always lands inside the texture's extent.
pub proof fn lemma_wrap_coord_bound(u: int, extent: int)
    requires
        1 <= extent <= u32::MAX as int,
    ensures
        0 <= wrap_coord_s(u, extent) < extent,
{
    let f = fx_fract_s(u);
    lemma_trem_bound(u, 65536);
    let m = (extent - 1) * 65536;
    let fm = f * m;
    if extent == 1 {
        assert(fm == 0) by (nonlinear_arith)
            requires
                m == 0,
                fm == f * m,
        ;
    } else {
        vstd::arithmetic::mul::lemma_mul_inequality(f, 65535, m);
        assert(65535 * m <= 65536 * (m - 1)) by (nonlinear_arith)
            requires
                m >= 65536,
        ;
        if fm >= 0 {
            vstd::arithmetic::div_mod::lemma_div_is_ordered(fm, 65536 * (m - 1), 65536);
            vstd::arithmetic::div_mod::lemma_div_multiples_vanish(m - 1, 65536);
            let p = fx_mul_s(f, m);
            assert(0 <= p <= m - 1) by {
                if fm > 0 {
                    vstd::arithmetic::div_mod::lemma_div_pos_is_pos(fm, 65536);
                }
            }
            vstd::arithmetic::div_mod::lemma_div_is_ordered(p, m - 1, 65536);
            assert(m - 1 == 65536 * (extent - 2) + 65535) by (nonlinear_arith)
                requires
                    m == (extent - 1) * 65536,
            ;
            vstd::arithmetic::div_mod::lemma_div_multiples_vanish_fancy(extent - 2, 65535, 65536);
            if p > 0 {
                vstd::arithmetic::div_mod::lemma_div_pos_is_pos(p, 65536);
            }
        } else {
            vstd::arithmetic::div_mod::lemma_div_pos_is_pos(fm * -1, 65536);
            let p = fx_mul_s(f, m);
            assert(p <= 0);
            if p < 0 {
                vstd::arithmetic::div_mod::lemma_div_pos_is_pos(p * -1, 65536);
            }
            assert(fx_trunc_s(p) <= 0);
        }
    }
}

/// Raw scalar of a color channel byte.
fn byte_fx(b: u8) -> (r: i64)
    ensures
        r as int == byte_fx_s(b as int),
{
    ((b as u32) * 65536 / 255) as i64
}

/// A 1x1 texture of one constant RGBA color.
fn solid_1x1(r: u8, g: u8, b: u8, a: u8) -> (t: Texture)
    ensures
        t@.width == 1,
        t@.height == 1,
        t@.pixels == seq![r, g, b, a],
        tex_wf(t@),
{
    let mut p: Vec<u8> = Vec::new();
    p.push(r);
    p.push(g);
    p.push(b);
    p.push(a);
    proof {
        assert(p@ =~= seq![r, g, b, a]);
    }
    Texture { width: 1, height: 1, pixels: p }
}

impl Texture {
    /// The neutral albedo texture: a single opaque white texel.
    pub fn white() -> (t: Texture)
        ensures
            t@.width == 1,
            t@.height == 1,
            t@.pixels == seq![255u8, 255u8, 255u8, 255u8],
            tex_wf(t@),
    {
        solid_1x1(255, 255, 255, 255)
    }

    /// The neutral specular texture: a single opaque black texel.
    pub fn black() -> (t: Texture)
        ensures
            t@.width == 1,
            t@.height == 1,
            t@.pixels == seq![0u8, 0u8, 0u8, 255u8],
            tex_wf(t@),
    {
        solid_1x1(0, 0, 0, 255)
    }

    /// The neutral normal map: a single flat straight-up tangent-space normal.
    pub fn normal_default() -> (t: Texture)
        ensures
            t@.width == 1,
            t@.height == 1,
            t@.pixels == seq![128u8, 128u8, 255u8, 255u8],
            tex_wf(t@),
    {
        solid_1x1(128, 128, 255, 255)
    }

    /// A texture from already-decoded parts; `None` when the parts do not
    /// form a structurally valid texture.
    pub fn from_raw(width: u32, height: u32, pixels: Vec<u8>) -> (r: Option<Texture>)
        ensures
            match r {
                Some(t) => {
                    &&& t@.width == width
                    &&& t@.height == height
                    &&& t@.pixels == pixels@
                    &&& tex_wf(t@)
                },
                None => !(1 <= width && 1 <= height && pixels@.len() == width * height * 4),
            },
    {
        proof {
            assert((width as int) * (height as int) * 4 < 0x1_0000_0000_0000_0000_0000)
                by (nonlinear_arith)
                requires
                    width <= 0xffff_ffff,
                    height <= 0xffff_ffff,
            ;
        }
        if width >= 1 && height >= 1 && pixels.len() as u128 == (width as u128) * (height as u128)
            * 4 {
            Some(Texture { width, height, pixels })
        } else {
            None
        }
    }

    /// The RGBA sample of the texel at column `x`, row `y`.
    pub fn get_color(&self, x: u32, y: u32) -> (r: Fx4)
        requires
            tex_wf(self@),
            x < self@.width,
            y < self@.height,
        ensures
            r@ == tex_color_s(self@, x as int, y as int),
    {
        proof {
            assert((y * self@.width + x) * 4 + 3 < self@.width * self@.height * 4)
                by (nonlinear_arith)
                requires
                    0 <= x < self@.width,
                    0 <= y < self@.height,
            ;
        }
        let _len: usize = self.pixels.len();
        let base: u64 = ((y as u64) * (self.width as u64) + (x as u64)) * 4;
        let i: usize = base as usize;
        Fx4 {
            x: byte_fx(self.pixels[i]),
            y: byte_fx(self.pixels[i + 1]),
            z: byte_fx(self.pixels[i + 2]),
            w: byte_fx(self.pixels[i + 3]),
        }
    }

    /// The sample under UV addressing: V flipped, both axes wrapped by the
    /// fractional part, nearest texel.
    pub fn get_color_uv(&self, uv: Fx2) -> (r: Fx4)
        requires
            tex_wf(self@),
        ensures
            r@ == tex_color_uv_s(self@, uv@),
    {
        proof {
            lemma_wrap_coord_bound(uv@.x, self@.width);
            lemma_wrap_coord_bound(fx_sub_s(65536, uv@.y), self@.height);
        }
        let fu = fx_fract(uv.x);
        let xf = fx_mul(fu, fx_from_u32(self.width - 1));
        let x = fx_trunc_u32(xf);
        let fv = fx_fract(fx_sub(SCALE, uv.y));
        let yf = fx_mul(fv, fx_from_u32(self.height - 1));
        let y = fx_trunc_u32(yf);
        self.get_color(x, y)
    }
}

} // verus!
