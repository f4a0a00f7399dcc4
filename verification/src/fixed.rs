//! Q16.16 fixed-point scalars.
//!
//! A scalar is an `i64` raw value; the real number it stands for is
//! `raw / SCALE`. The representable range is kept symmetric (`-FX_MAX ..=
//! FX_MAX`) so that negation is total, and every operation saturates into
//! that range. Multiplication and division round toward zero. Division by
//! zero saturates: a positive dividend gives `FX_MAX`, a negative one
//! `FX_MIN`, and `0 / 0` gives `0`.
//!
//! Every executable operation has a specification twin (`*_s`) over
//! mathematical integers, and its contract says the result is exactly the
//! twin's value.

use vstd::prelude::*;

verus! {

/// One whole unit: the raw value of 1.0.
pub const SCALE: i64 = 65536;

/// Largest raw value a scalar may hold.
pub const FX_MAX: i64 = i64::MAX;

/// Smallest raw value a scalar may hold; `-FX_MAX`, so the range is symmetric.
pub const FX_MIN: i64 = -i64::MAX;

/// Saturate an unbounded integer into the representable raw range.
pub open spec fn fx_clip(x: int) -> int {
    if x > FX_MAX as int {
        FX_MAX as int
    } else if x < FX_MIN as int {
        FX_MIN as int
    } else {
        x
    }
}

/// Truncating (round-toward-zero) division, as Rust's `/` computes it.
pub open spec fn tdiv(x: int, d: int) -> int {
    if x == 0 {
        0
    } else if x > 0 && d > 0 {
        x / d
    } else if x < 0 && d < 0 {
        (x * -1) / (d * -1)
    } else if x < 0 {
        ((x * -1) / d) * -1
    } else {
        (x / (d * -1)) * -1
    }
}

/// Truncating remainder, as Rust's `%` computes it.
pub open spec fn trem(x: int, d: int) -> int {
    if x == 0 {
        0
    } else if x > 0 && d > 0 {
        x % d
    } else if x < 0 && d < 0 {
        ((x * -1) % (d * -1)) * -1
    } else if x < 0 {
        ((x * -1) % d) * -1
    } else {
        x % (d * -1)
    }
}

pub open spec fn fx_add_s(a: int, b: int) -> int {
    fx_clip(a + b)
}

pub open spec fn fx_sub_s(a: int, b: int) -> int {
    fx_clip(a - b)
}

pub open spec fn fx_neg_s(a: int) -> int {
    fx_clip(-a)
}

pub open spec fn fx_abs_s(a: int) -> int {
    if a < 0 {
        fx_clip(-a)
    } else {
        fx_clip(a)
    }
}

pub open spec fn fx_mul_s(a: int, b: int) -> int {
    fx_clip(tdiv(a * b, SCALE as int))
}

pub open spec fn fx_div_s(a: int, b: int) -> int {
    if b == 0 {
        if a > 0 {
            FX_MAX as int
        } else if a < 0 {
            FX_MIN as int
        } else {
            0
        }
    } else {
        fx_clip(tdiv(a * (SCALE as int), b))
    }
}

/// Fractional part, with the sign of the argument (as `f32::fract` has it).
pub open spec fn fx_fract_s(a: int) -> int {
    trem(a, SCALE as int)
}

/// Whole part, rounded toward zero.
pub open spec fn fx_trunc_s(a: int) -> int {
    tdiv(a, SCALE as int)
}

/// Whole part, rounded toward positive infinity.
pub open spec fn fx_ceil_s(a: int) -> int {
    if a > 0 && trem(a, SCALE as int) != 0 {
        tdiv(a, SCALE as int) + 1
    } else {
        tdiv(a, SCALE as int)
    }
}

/// Whole part, rounded toward negative infinity.
pub open spec fn fx_floor_s(a: int) -> int {
    if a < 0 && trem(a, SCALE as int) != 0 {
        tdiv(a, SCALE as int) - 1
    } else {
        tdiv(a, SCALE as int)
    }
}

/// The absolute value of an unbounded integer.
pub open spec fn iabs(x: int) -> int {
    if x < 0 {
        -x
    } else {
        x
    }
}

/// Saturate an integer into `lo ..= hi`.
pub open spec fn sat_s(x: int, lo: int, hi: int) -> int {
    if x < lo {
        lo
    } else if x > hi {
        hi
    } else {
        x
    }
}

/// `tdiv` never grows the magnitude of the dividend.
proof fn lemma_tdiv_magnitude(x: int, d: int)
    requires
        d != 0,
    ensures
        x >= 0 ==> -x <= tdiv(x, d) <= x,
        x < 0 ==> x <= tdiv(x, d) <= -x,
{
    let m = if d > 0 { d } else { d * -1 };
    if x > 0 {
        vstd::arithmetic::div_mod::lemma_div_pos_is_pos(x, m);
        vstd::arithmetic::div_mod::lemma_div_is_ordered_by_denominator(x, 1, m);
        vstd::arithmetic::div_mod::lemma_div_basics(x);
    } else if x < 0 {
        vstd::arithmetic::div_mod::lemma_div_pos_is_pos(x * -1, m);
        vstd::arithmetic::div_mod::lemma_div_is_ordered_by_denominator(x * -1, 1, m);
        vstd::arithmetic::div_mod::lemma_div_basics(x * -1);
    }
}

/// The product of two bounded factors is bounded by the product of the bounds.
proof fn lemma_prod_bounds(a: int, b: int, m: int, n: int)
    by (nonlinear_arith)
    requires
        -m <= a <= m,
        -n <= b <= n,
        0 <= m,
        0 <= n,
    ensures
        -(m * n) <= a * b <= m * n,
{
}

/// Saturate an `i128` into the raw scalar range.
fn clip128(x: i128) -> (r: i64)
    ensures
        r as int == fx_clip(x as int),
{
    if x > i64::MAX as i128 {
        i64::MAX
    } else if x < -(i64::MAX as i128) {
        -i64::MAX
    } else {
        x as i64
    }
}

/// Saturating addition.
pub fn fx_add(a: i64, b: i64) -> (r: i64)
    ensures
        r as int == fx_add_s(a as int, b as int),
{
    clip128(a as i128 + b as i128)
}

/// Saturating subtraction.
pub fn fx_sub(a: i64, b: i64) -> (r: i64)
    ensures
        r as int == fx_sub_s(a as int, b as int),
{
    clip128(a as i128 - b as i128)
}

/// Saturating negation.
pub fn fx_neg(a: i64) -> (r: i64)
    ensures
        r as int == fx_neg_s(a as int),
{
    clip128(-(a as i128))
}

/// Saturating absolute value.
pub fn fx_abs(a: i64) -> (r: i64)
    ensures
        r as int == fx_abs_s(a as int),
{
    if a < 0 {
        clip128(-(a as i128))
    } else {
        clip128(a as i128)
    }
}

/// Saturating product of two scalars, rounded toward zero.
pub fn fx_mul(a: i64, b: i64) -> (r: i64)
    ensures
        r as int == fx_mul_s(a as int, b as int),
{
    proof {
        lemma_prod_bounds(a as int, b as int, 0x8000_0000_0000_0000, 0x8000_0000_0000_0000);
    }
    let p: i128 = (a as i128) * (b as i128);
    proof {
        lemma_tdiv_magnitude(p as int, SCALE as int);
    }
    let q: i128 = p.checked_div(SCALE as i128).unwrap();
    clip128(q)
}

/// Saturating quotient of two scalars, rounded toward zero; division by zero
/// saturates by the sign of the dividend.
pub fn fx_div(a: i64, b: i64) -> (r: i64)
    ensures
        r as int == fx_div_s(a as int, b as int),
{
    if b == 0 {
        if a > 0 {
            i64::MAX
        } else if a < 0 {
            -i64::MAX
        } else {
            0
        }
    } else {
        proof {
            lemma_prod_bounds(a as int, SCALE as int, 0x8000_0000_0000_0000, 0x1_0000);
        }
        let p: i128 = (a as i128) * (SCALE as i128);
        proof {
            lemma_tdiv_magnitude(p as int, b as int);
        }
        let q: i128 = p.checked_div(b as i128).unwrap();
        clip128(q)
    }
}

/// Fractional part, with the sign of the argument.
pub fn fx_fract(a: i64) -> (r: i64)
    ensures
        r as int == fx_fract_s(a as int),
{
    a.checked_rem(SCALE).unwrap()
}

pub open spec fn fx_min_s(a: int, b: int) -> int {
    if a < b {
        a
    } else {
        b
    }
}

pub open spec fn fx_max_s(a: int, b: int) -> int {
    if a > b {
        a
    } else {
        b
    }
}

/// Smaller of two scalars.
pub fn fx_min(a: i64, b: i64) -> (r: i64)
    ensures
        r as int == fx_min_s(a as int, b as int),
{
    if a < b {
        a
    } else {
        b
    }
}

/// Larger of two scalars.
pub fn fx_max(a: i64, b: i64) -> (r: i64)
    ensures
        r as int == fx_max_s(a as int, b as int),
{
    if a > b {
        a
    } else {
        b
    }
}

/// The whole 1.0-unit raw value of a pixel count.
pub fn fx_from_u32(x: u32) -> (r: i64)
    ensures
        r as int == x * (SCALE as int),
{
    (x as i64) * SCALE
}

/// The raw value of a signed whole number.
pub fn fx_from_i32(x: i32) -> (r: i64)
    ensures
        r as int == x * (SCALE as int),
{
    (x as i64) * SCALE
}

/// Whole part, rounded toward positive infinity and saturated into `i32`.
pub fn fx_ceil_i32(a: i64) -> (r: i32)
    ensures
        r as int == sat_s(fx_ceil_s(a as int), i32::MIN as int, i32::MAX as int),
{
    proof {
        lemma_tdiv_magnitude(a as int, SCALE as int);
        if a > 0 {
            vstd::arithmetic::div_mod::lemma_div_is_strictly_smaller(a as int, SCALE as int);
        }
    }
    let t: i64 = a.checked_div(SCALE).unwrap();
    let rem: i64 = a.checked_rem(SCALE).unwrap();
    let c: i64 = if a > 0 && rem != 0 {
        t + 1
    } else {
        t
    };
    if c > i32::MAX as i64 {
        i32::MAX
    } else if c < i32::MIN as i64 {
        i32::MIN
    } else {
        c as i32
    }
}

/// Whole part, rounded toward negative infinity and saturated into `i32`.
pub fn fx_floor_i32(a: i64) -> (r: i32)
    ensures
        r as int == sat_s(fx_floor_s(a as int), i32::MIN as int, i32::MAX as int),
{
    proof {
        lemma_tdiv_magnitude(a as int, SCALE as int);
        if a < 0 {
            vstd::arithmetic::div_mod::lemma_div_is_ordered(
                (a as int) * -1,
                0x8000_0000_0000_0000,
                65536,
            );
            vstd::arithmetic::div_mod::lemma_div_by_multiple(0x8000_0000_0000, 65536);
        }
    }
    let t: i64 = a.checked_div(SCALE).unwrap();
    let rem: i64 = a.checked_rem(SCALE).unwrap();
    let c: i64 = if a < 0 && rem != 0 {
        t - 1
    } else {
        t
    };
    if c > i32::MAX as i64 {
        i32::MAX
    } else if c < i32::MIN as i64 {
        i32::MIN
    } else {
        c as i32
    }
}

/// Whole part, rounded toward zero and saturated into `i32`.
pub fn fx_trunc_i32(a: i64) -> (r: i32)
    ensures
        r as int == sat_s(fx_trunc_s(a as int), i32::MIN as int, i32::MAX as int),
{
    proof {
        lemma_tdiv_magnitude(a as int, SCALE as int);
    }
    let t: i64 = a.checked_div(SCALE).unwrap();
    if t > i32::MAX as i64 {
        i32::MAX
    } else if t < i32::MIN as i64 {
        i32::MIN
    } else {
        t as i32
    }
}

/// Whole part, rounded toward zero and saturated into `u32` (negatives give 0).
pub fn fx_trunc_u32(a: i64) -> (r: u32)
    ensures
        r as int == sat_s(fx_trunc_s(a as int), 0, u32::MAX as int),
{
    proof {
        lemma_tdiv_magnitude(a as int, SCALE as int);
    }
    let t: i64 = a.checked_div(SCALE).unwrap();
    if t < 0 {
        0
    } else if t > u32::MAX as i64 {
        u32::MAX
    } else {
        t as u32
    }
}

/// The truncating remainder stays strictly within the divisor's magnitude.
pub proof fn lemma_trem_bound(x: int, d: int)
    requires
        d > 0,
    ensures
        -d < trem(x, d) < d,
{
    if x > 0 {
        vstd::arithmetic::div_mod::lemma_mod_division_less_than_divisor(x, d);
    } else if x < 0 {
        vstd::arithmetic::div_mod::lemma_mod_division_less_than_divisor(x * -1, d);
    }
}

/// Integer square root, rounded down.
pub open spec fn sqrt_floor(v: nat) -> nat
    decreases v,
{
    if v == 0 {
        0
    } else {
        let r = sqrt_floor((v - 1) as nat);
        if (r + 1) * (r + 1) <= v {
            r + 1
        } else {
            r
        }
    }
}

/// `sqrt_floor(v)` is the largest number whose square is at most `v`.
pub proof fn lemma_sqrt_floor_bounds(v: nat)
    ensures
        sqrt_floor(v) * sqrt_floor(v) <= v,
        v < (sqrt_floor(v) + 1) * (sqrt_floor(v) + 1),
    decreases v,
{
    if v != 0 {
        lemma_sqrt_floor_bounds((v - 1) as nat);
        let r = sqrt_floor((v - 1) as nat);
        assert(r * r <= v - 1);
        assert(v - 1 < (r + 1) * (r + 1));
        if (r + 1) * (r + 1) <= v {
            assert(sqrt_floor(v) == r + 1);
            assert((r + 1) * (r + 1) < (r + 2) * (r + 2)) by (nonlinear_arith);
            assert(sqrt_floor(v) * sqrt_floor(v) <= v);
            assert(v < (sqrt_floor(v) + 1) * (sqrt_floor(v) + 1));
        } else {
            assert(sqrt_floor(v) == r);
            assert(sqrt_floor(v) * sqrt_floor(v) <= v);
            assert(v < (sqrt_floor(v) + 1) * (sqrt_floor(v) + 1));
        }
    } else {
        assert(sqrt_floor(v) == 0);
        assert(v < (sqrt_floor(v) + 1) * (sqrt_floor(v) + 1)) by (nonlinear_arith)
            requires
                v == 0,
                sqrt_floor(v) == 0,
        ;
    }
}

/// Any number bracketing `v` between consecutive squares is `sqrt_floor(v)`.
pub proof fn lemma_sqrt_floor_unique(v: nat, r: nat)
    requires
        r * r <= v,
        v < (r + 1) * (r + 1),
    ensures
        r == sqrt_floor(v),
{
    lemma_sqrt_floor_bounds(v);
    let s = sqrt_floor(v);
    if r < s {
        assert(s * s <= v);
        assert((r + 1) * (r + 1) <= s * s) by (nonlinear_arith)
            requires
                r + 1 <= s,
        ;
    } else if s < r {
        assert((s + 1) * (s + 1) <= r * r) by (nonlinear_arith)
            requires
                s + 1 <= r,
        ;
    }
}

/// Integer square root of a `u128` below `2^126`, by bisection.
fn isqrt128(v: u128) -> (r: u128)
    requires
        v < 0x4000_0000_0000_0000_0000_0000_0000_0000,
    ensures
        r as nat == sqrt_floor(v as nat),
{
    let mut lo: u128 = 0;
    let mut hi: u128 = 0x8000_0000_0000_0000;
    proof {
        assert((0x8000_0000_0000_0000 as int) * (0x8000_0000_0000_0000 as int)
            == 0x4000_0000_0000_0000_0000_0000_0000_0000);
    }
    while lo + 1 < hi
        invariant
            lo < hi,
            hi <= 0x8000_0000_0000_0000,
            (lo as nat) * (lo as nat) <= v as nat,
            (v as nat) < (hi as nat) * (hi as nat),
        decreases hi - lo,
    {
        let mid: u128 = lo + (hi - lo) / 2;
        proof {
            lemma_prod_bounds(mid as int, mid as int, 0x8000_0000_0000_0000, 0x8000_0000_0000_0000);
        }
        if mid * mid <= v {
            lo = mid;
        } else {
            hi = mid;
        }
    }
    proof {
        lemma_sqrt_floor_unique(v as nat, lo as nat);
    }
    lo
}

/// Raw value of the square root of a nonnegative scalar.
pub open spec fn fx_sqrt_s(a: int) -> int {
    sqrt_floor((a * (SCALE as int)) as nat) as int
}

/// Square root of a nonnegative scalar, rounded down at raw resolution.
pub fn fx_sqrt(a: i64) -> (r: i64)
    requires
        a >= 0,
    ensures
        r as int == fx_sqrt_s(a as int),
{
    let v: u128 = (a as u128) * 65536;
    proof {
        lemma_sqrt_floor_bounds(v as nat);
        let rs = sqrt_floor(v as nat) as int;
        if rs >= 0x100_0000_0000 {
            vstd::arithmetic::mul::lemma_mul_inequality(0x100_0000_0000, rs, 0x100_0000_0000);
            vstd::arithmetic::mul::lemma_mul_inequality(0x100_0000_0000, rs, rs);
            assert(false);
        }
    }
    let r: u128 = isqrt128(v);
    r as i64
}

/// Raw value of a scalar raised to a whole-number power.
pub open spec fn fx_powi_s(a: int, n: nat) -> int
    decreases n,
{
    if n == 0 {
        SCALE as int
    } else {
        fx_mul_s(fx_powi_s(a, (n - 1) as nat), a)
    }
}

/// A scalar raised to a whole-number power, by repeated saturating products.
pub fn fx_powi(a: i64, n: u32) -> (r: i64)
    ensures
        r as int == fx_powi_s(a as int, n as nat),
{
    let mut result: i64 = SCALE;
    let mut i: u32 = 0;
    while i < n
        invariant
            i <= n,
            result as int == fx_powi_s(a as int, i as nat),
        decreases n - i,
    {
        result = fx_mul(result, a);
        i = i + 1;
    }
    result
}

} // verus!
