use pathtracer::fx::fx_add;
use pathtracer::fx::fx_div;
use pathtracer::fx::fx_mul;
use pathtracer::fx::fx_neg;
use pathtracer::fx::fx_sqrt;
use pathtracer::fx::fx_sub;
use pathtracer::fx::FX_ONE;
use pathtracer::fx::FX_SAT;

#[test]
fn fixed_products_are_exact() {
    assert_eq!(fx_mul(2 * FX_ONE, 3 * FX_ONE), 6 * FX_ONE);
    assert_eq!(fx_mul(-2 * FX_ONE, 3 * FX_ONE), -6 * FX_ONE);
    assert_eq!(fx_mul(FX_ONE / 2, FX_ONE / 2), FX_ONE / 4);
    assert_eq!(fx_mul(5, 0), 0);
}

#[test]
fn fixed_division_truncates_toward_zero() {
    assert_eq!(fx_div(3 * FX_ONE, 2 * FX_ONE), FX_ONE + FX_ONE / 2);
    // -1/3 rounds toward zero in the last fixed-point digit
    assert_eq!(fx_div(-FX_ONE, 3 * FX_ONE), -21845);
    assert_eq!(fx_div(FX_ONE, 3 * FX_ONE), 21845);
}

#[test]
fn fixed_sqrt_matches_perfect_squares() {
    assert_eq!(fx_sqrt(4 * FX_ONE), 2 * FX_ONE);
    assert_eq!(fx_sqrt(9 * FX_ONE), 3 * FX_ONE);
    assert_eq!(fx_sqrt(0), 0);
    // sqrt(2) to the fixed-point digit below
    let r = fx_sqrt(2 * FX_ONE);
    assert!(r * r <= 2 * FX_ONE * FX_ONE);
    assert!((r + 1) * (r + 1) > 2 * FX_ONE * FX_ONE);
}

#[test]
fn fixed_arithmetic_saturates() {
    assert_eq!(fx_add(FX_SAT, FX_SAT), FX_SAT);
    assert_eq!(fx_sub(-FX_SAT, FX_SAT), -FX_SAT);
    assert_eq!(fx_neg(-FX_SAT), FX_SAT);
    assert_eq!(fx_mul(FX_SAT, FX_SAT), FX_SAT);
}
