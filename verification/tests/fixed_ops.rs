//! The fixed-point scalar operations on concrete values.

use lumo::fixed::{
    fx_add, fx_clamp, fx_cos, fx_div, fx_min, fx_mul, fx_neg, fx_sin, fx_sqrt, fx_sub, fx_tan,
    int2fx, u322fx, FX_HALF, FX_MAX, FX_ONE, FX_TWO,
};

#[test]
fn add_and_sub_are_exact_in_range() {
    assert_eq!(fx_add(FX_ONE, FX_ONE), FX_TWO);
    assert_eq!(fx_sub(FX_TWO, FX_ONE), FX_ONE);
    assert_eq!(fx_add(-FX_ONE, FX_ONE), 0);
}

#[test]
fn add_saturates_symmetrically() {
    assert_eq!(fx_add(FX_MAX, 1), FX_MAX);
    assert_eq!(fx_add(-FX_MAX, -1), -FX_MAX);
    assert_eq!(fx_sub(-FX_MAX, FX_MAX), -FX_MAX);
    assert_eq!(fx_neg(FX_MAX), -FX_MAX);
    assert_eq!(fx_neg(-FX_MAX), FX_MAX);
}

#[test]
fn mul_matches_real_products() {
    let one_and_half = FX_ONE + FX_HALF;
    assert_eq!(fx_mul(one_and_half, FX_TWO), 3 * FX_ONE);
    assert_eq!(fx_mul(FX_ONE, FX_ONE), FX_ONE);
    assert_eq!(fx_mul(-FX_ONE, FX_ONE), -FX_ONE);
    // Truncation toward zero: one quantum squared vanishes.
    assert_eq!(fx_mul(1, 1), 0);
    assert_eq!(fx_mul(-1, 1), 0);
}

#[test]
fn div_by_zero_saturates_toward_the_dividend() {
    assert_eq!(fx_div(FX_ONE, 0), FX_MAX);
    assert_eq!(fx_div(-FX_ONE, 0), -FX_MAX);
    assert_eq!(fx_div(0, 0), 0);
}

#[test]
fn div_truncates_toward_zero() {
    assert_eq!(fx_div(FX_ONE, FX_TWO), FX_HALF);
    assert_eq!(fx_div(-FX_ONE, FX_TWO), -FX_HALF);
    assert_eq!(fx_div(7, 2 * FX_ONE), 3);
    assert_eq!(fx_div(-7, 2 * FX_ONE), -3);
}

#[test]
fn sqrt_on_perfect_squares_and_edges() {
    assert_eq!(fx_sqrt(4 * FX_ONE), 2 * FX_ONE);
    assert_eq!(fx_sqrt(FX_ONE), FX_ONE);
    assert_eq!(fx_sqrt(0), 0);
    assert_eq!(fx_sqrt(-5 * FX_ONE), 0);
    // sqrt(1/2) rounded down.
    assert_eq!(fx_sqrt(FX_HALF), 11863283);
}

#[test]
fn trig_series_near_a_quarter_turn() {
    let quarter = 13176794; // pi / 4
    assert_eq!(fx_sin(quarter), 11863278);
    assert_eq!(fx_cos(quarter), 11863224);
    let t = fx_tan(quarter);
    assert_eq!(t, 16777292);
    let tf = t as f64 / FX_ONE as f64;
    assert!((tf - 1.0).abs() < 1e-4);
    // Beyond the quarter turn the cosine term is gone and tangent saturates.
    assert_eq!(fx_tan(4 * FX_ONE), FX_MAX);
}

#[test]
fn clamp_and_min() {
    assert_eq!(fx_clamp(3 * FX_ONE, 0, FX_ONE), FX_ONE);
    assert_eq!(fx_clamp(-FX_ONE, 0, FX_ONE), 0);
    assert_eq!(fx_clamp(FX_HALF, 0, FX_ONE), FX_HALF);
    assert_eq!(fx_min(3, -4), -4);
}

#[test]
fn integer_conversions() {
    assert_eq!(int2fx(3), 3 * FX_ONE);
    assert_eq!(int2fx(-2), -2 * FX_ONE);
    assert_eq!(u322fx(5), 5 * FX_ONE);
    // A count too large to scale saturates.
    assert_eq!(int2fx(i64::MAX), FX_MAX);
}
