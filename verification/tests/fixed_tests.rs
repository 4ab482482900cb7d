//! The fixed-point scalar core: exact values, truncation, and saturation.

use raytrace::fixed::{
    fx_abs, fx_add, fx_clamp, fx_div, fx_min, fx_mul, fx_neg, fx_sqrt, fx_sub, FIX_MAX, FIX_MIN,
    HALF, ONE, TWO,
};

#[test]
fn addition_saturates_at_the_range_ends() {
    assert_eq!(fx_add(FIX_MAX, FIX_MAX), FIX_MAX);
    assert_eq!(fx_sub(FIX_MIN, 1), FIX_MIN);
    assert_eq!(fx_add(ONE, ONE), TWO);
    assert_eq!(fx_neg(FIX_MIN), FIX_MAX);
}

#[test]
fn multiplication_is_exact_on_halves() {
    assert_eq!(fx_mul(HALF, HALF), ONE / 4);
    assert_eq!(fx_mul(3 * HALF, 3 * HALF), 147456); // 1.5 * 1.5 = 2.25
    assert_eq!(fx_mul(-3 * HALF, 3 * HALF), -147456);
    assert_eq!(fx_mul(TWO, -ONE), -TWO);
}

#[test]
fn multiplication_truncates_toward_zero() {
    // 3/65536 * 3/65536 is far below one step: truncation gives zero for
    // either sign, as the rounding convention says.
    assert_eq!(fx_mul(3, 3), 0);
    assert_eq!(fx_mul(-3, 3), 0);
    assert_eq!(fx_mul(3, -3), 0);
}

#[test]
fn division_is_exact_where_the_quotient_is_representable() {
    assert_eq!(fx_div(ONE, TWO), HALF);
    assert_eq!(fx_div(-ONE, TWO), -HALF);
    assert_eq!(fx_div(3 * ONE, ONE), 3 * ONE);
    assert_eq!(fx_div(ONE, 3 * ONE), 21845); // 1/3, truncated
    assert_eq!(fx_div(-ONE, 3 * ONE), -21845);
}

#[test]
fn division_by_zero_saturates_by_sign() {
    assert_eq!(fx_div(5, 0), FIX_MAX);
    assert_eq!(fx_div(-5, 0), FIX_MIN);
    assert_eq!(fx_div(0, 0), 0);
}

#[test]
fn square_root_is_the_scaled_floor() {
    assert_eq!(fx_sqrt(0), 0);
    assert_eq!(fx_sqrt(ONE), ONE);
    assert_eq!(fx_sqrt(4 * ONE), 2 * ONE);
    assert_eq!(fx_sqrt(ONE / 4), HALF);
    assert_eq!(fx_sqrt(2 * ONE), 92681); // floor(sqrt(2) * 2^16)
    assert_eq!(fx_sqrt(-5), 0);
}

#[test]
fn min_abs_and_clamp_behave_pointwise() {
    assert_eq!(fx_min(ONE, TWO), ONE);
    assert_eq!(fx_min(-ONE, 0), -ONE);
    assert_eq!(fx_abs(-3 * ONE), 3 * ONE);
    assert_eq!(fx_abs(3 * ONE), 3 * ONE);
    assert_eq!(fx_clamp(3 * ONE, 0, ONE), ONE);
    assert_eq!(fx_clamp(-ONE, 0, ONE), 0);
    assert_eq!(fx_clamp(HALF, 0, ONE), HALF);
}
