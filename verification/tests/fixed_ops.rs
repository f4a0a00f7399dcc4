use emyrenderer::fixed::{
    fx_abs, fx_add, fx_ceil_i32, fx_div, fx_fract, fx_from_i32, fx_max, fx_min, fx_mul, fx_neg,
    fx_powi, fx_sqrt, fx_sub, fx_trunc_i32, fx_trunc_u32, FX_MAX, FX_MIN, SCALE,
};

#[test]
fn add_and_sub_are_exact_in_range() {
    assert_eq!(fx_add(3 * SCALE, 4 * SCALE), 7 * SCALE);
    assert_eq!(fx_sub(3 * SCALE, 4 * SCALE), -SCALE);
    assert_eq!(fx_neg(5 * SCALE), -5 * SCALE);
    assert_eq!(fx_abs(-5 * SCALE), 5 * SCALE);
}

#[test]
fn add_saturates_at_the_range_ends() {
    assert_eq!(fx_add(FX_MAX, FX_MAX), FX_MAX);
    assert_eq!(fx_add(FX_MIN, FX_MIN), FX_MIN);
    assert_eq!(fx_sub(FX_MIN, FX_MAX), FX_MIN);
    assert_eq!(fx_neg(i64::MIN), FX_MAX);
}

#[test]
fn mul_truncates_toward_zero() {
    // 1.5 * 1.5 = 2.25
    assert_eq!(fx_mul(98304, 98304), 147456);
    // (1/3-ish) * 3 loses the fraction's tail: 21845 * 3 = 65535
    assert_eq!(fx_mul(21845, 3 * SCALE), 65535);
    // truncation is symmetric in sign
    assert_eq!(fx_mul(-21845, 3 * SCALE), -65535);
    assert_eq!(fx_mul(99999, SCALE / 2), 49999);
    assert_eq!(fx_mul(-99999, SCALE / 2), -49999);
}

#[test]
fn div_is_exact_on_even_quotients() {
    assert_eq!(fx_div(6 * SCALE, 3 * SCALE), 2 * SCALE);
    assert_eq!(fx_div(SCALE, 2 * SCALE), SCALE / 2);
    assert_eq!(fx_div(-SCALE, 2 * SCALE), -(SCALE / 2));
}

#[test]
fn div_by_zero_saturates_by_dividend_sign() {
    assert_eq!(fx_div(5, 0), FX_MAX);
    assert_eq!(fx_div(-5, 0), FX_MIN);
    assert_eq!(fx_div(0, 0), 0);
}

#[test]
fn fract_keeps_the_sign_of_the_argument() {
    // 1.25 -> 0.25
    assert_eq!(fx_fract(81920), 16384);
    assert_eq!(fx_fract(-81920), -16384);
    assert_eq!(fx_fract(3 * SCALE), 0);
}

#[test]
fn sqrt_is_exact_on_perfect_squares() {
    assert_eq!(fx_sqrt(4 * SCALE), 2 * SCALE);
    assert_eq!(fx_sqrt(25 * SCALE), 5 * SCALE);
    assert_eq!(fx_sqrt(0), 0);
    // sqrt(3) = 1.7320... -> 113511 raw
    assert_eq!(fx_sqrt(3 * SCALE), 113511);
}

#[test]
fn powi_multiplies_repeatedly() {
    assert_eq!(fx_powi(2 * SCALE, 10), 1024 * SCALE);
    assert_eq!(fx_powi(5 * SCALE, 0), SCALE);
    assert_eq!(fx_powi(SCALE / 2, 2), SCALE / 4);
}

#[test]
fn conversions_truncate_and_saturate() {
    assert_eq!(fx_from_i32(-7), -7 * SCALE);
    assert_eq!(fx_trunc_i32(81920), 1);
    assert_eq!(fx_trunc_i32(-81920), -1);
    assert_eq!(fx_trunc_u32(-81920), 0);
    assert_eq!(fx_trunc_u32(81920), 1);
    assert_eq!(fx_trunc_i32(FX_MAX), i32::MAX);
    assert_eq!(fx_ceil_i32(81920), 2);
    assert_eq!(fx_ceil_i32(-81920), -1);
    assert_eq!(fx_ceil_i32(3 * SCALE), 3);
    assert_eq!(fx_min(3, -4), -4);
    assert_eq!(fx_max(3, -4), 3);
}
