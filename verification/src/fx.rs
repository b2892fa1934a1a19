//! Fixed-point scalar arithmetic for the renderer.
//!
//! Every coordinate, colour channel, ray parameter and probability density in
//! this crate is a Q47.16 fixed-point number: an `i64` raw value `v` stands
//! for the real number `v / 65536`.  All operations saturate at `FX_SAT`
//! instead of overflowing, and every operation has an exact integer
//! specification, so callers can reason about results without any notion of
//! rounding "tolerance".

use vstd::prelude::*;

verus! {

/// Raw value of the number one: the Q47.16 scale factor.
pub const FX_ONE: i64 = 65536;

/// Saturation bound (2^62): results of the arithmetic helpers are clamped to
/// `[-FX_SAT, FX_SAT]`, which keeps every value representable in an `i64`.
pub const FX_SAT: i64 = 0x4000_0000_0000_0000;

/// The closest fixed-point value to pi.
pub const FX_PI: i64 = 205887;

/// The closest fixed-point value to 1/pi.
pub const FX_INV_PI: i64 = 20861;

pub open spec fn abs_int(x: int) -> int {
    if x < 0 { -x } else { x }
}

/// Truncating (round-toward-zero) division, the rounding of Rust's `/` on
/// machine integers; defined as 0 when the divisor is 0 so the spec is total.
pub open spec fn tdiv(a: int, b: int) -> int {
    if b == 0 {
        0
    } else if (a < 0) == (b < 0) {
        abs_int(a) / abs_int(b)
    } else {
        -(abs_int(a) / abs_int(b))
    }
}

/// Clamp to the saturation range.
pub open spec fn sat(x: int) -> int {
    if x > FX_SAT as int {
        FX_SAT as int
    } else if x < -(FX_SAT as int) {
        -(FX_SAT as int)
    } else {
        x
    }
}

pub open spec fn fx_add_spec(a: int, b: int) -> int {
    sat(a + b)
}

pub open spec fn fx_sub_spec(a: int, b: int) -> int {
    sat(a - b)
}

pub open spec fn fx_neg_spec(a: int) -> int {
    sat(-a)
}

pub open spec fn fx_mul_spec(a: int, b: int) -> int {
    sat(tdiv(a * b, FX_ONE as int))
}

pub open spec fn fx_div_spec(a: int, b: int) -> int {
    sat(tdiv(a * (FX_ONE as int), b))
}

/// Floor of the square root; 0 for negative arguments so the spec is total.
pub open spec fn sqrt_floor(n: int) -> int {
    if n < 0 {
        0
    } else {
        choose|r: int| 0 <= r && #[trigger] (r * r) <= n && n < (r + 1) * (r + 1)
    }
}

pub open spec fn fx_sqrt_spec(a: int) -> int {
    sqrt_floor(a * (FX_ONE as int))
}

fn sat128(x: i128) -> (r: i64)
    ensures
        r as int == sat(x as int),
{
    if x > FX_SAT as i128 {
        FX_SAT
    } else if x < -(FX_SAT as i128) {
        -FX_SAT
    } else {
        x as i64
    }
}

pub fn tdiv_wide(a: i128, b: i128) -> (r: i128)
    requires
        b != 0,
        a > i128::MIN,
        b > i128::MIN,
    ensures
        r as int == tdiv(a as int, b as int),
{
    let ua: u128 = if a < 0 { (-a) as u128 } else { a as u128 };
    let ub: u128 = if b < 0 { (-b) as u128 } else { b as u128 };
    let q: u128 = ua / ub;
    assert(q <= ua) by {
        assert(ua as int / ub as int <= ua as int) by (nonlinear_arith)
            requires
                ub >= 1,
                ua >= 0,
        ;
    }
    if (a < 0) == (b < 0) {
        q as i128
    } else {
        -(q as i128)
    }
}

/// Saturating fixed-point addition.
pub fn fx_add(a: i64, b: i64) -> (r: i64)
    ensures
        r as int == fx_add_spec(a as int, b as int),
{
    sat128(a as i128 + b as i128)
}

/// Saturating fixed-point subtraction.
pub fn fx_sub(a: i64, b: i64) -> (r: i64)
    ensures
        r as int == fx_sub_spec(a as int, b as int),
{
    sat128(a as i128 - b as i128)
}

/// Saturating fixed-point negation.
pub fn fx_neg(a: i64) -> (r: i64)
    ensures
        r as int == fx_neg_spec(a as int),
{
    sat128(-(a as i128))
}

/// The product of two `i64` values stays well inside the `i128` range.
proof fn lemma_i64_product_fits(a: int, b: int) by (nonlinear_arith)
    requires
        -0x8000_0000_0000_0000 <= a <= 0x7fff_ffff_ffff_ffff,
        -0x8000_0000_0000_0000 <= b <= 0x7fff_ffff_ffff_ffff,
    ensures
        -0x4000_0000_0000_0000_0000_0000_0000_0000 <= a * b
            <= 0x4000_0000_0000_0000_0000_0000_0000_0000,
{
}

/// Saturating fixed-point multiplication: `(a * b) / FX_ONE`, truncated.
pub fn fx_mul(a: i64, b: i64) -> (r: i64)
    ensures
        r as int == fx_mul_spec(a as int, b as int),
{
    proof {
        lemma_i64_product_fits(a as int, b as int);
    }
    let p: i128 = (a as i128) * (b as i128);
    sat128(tdiv_wide(p, FX_ONE as i128))
}

/// Saturating fixed-point division: `(a * FX_ONE) / b`, truncated.
pub fn fx_div(a: i64, b: i64) -> (r: i64)
    requires
        b != 0,
    ensures
        r as int == fx_div_spec(a as int, b as int),
{
    let p: i128 = (a as i128) * 65536;
    assert(p == a as int * 65536);
    assert(p > i128::MIN);
    sat128(tdiv_wide(p, b as i128))
}

/// Repeated fixed-point multiplication: `base^e` with `base^0 == 1`.
pub open spec fn fx_powi_spec(base: int, e: nat) -> int
    decreases e,
{
    if e == 0 {
        FX_ONE as int
    } else {
        fx_mul_spec(base, fx_powi_spec(base, (e - 1) as nat))
    }
}

/// Fixed-point power with a small nonnegative integer exponent.
pub fn fx_powi(base: i64, e: u32) -> (r: i64)
    ensures
        r as int == fx_powi_spec(base as int, e as nat),
{
    let mut acc: i64 = FX_ONE;
    let mut k: u32 = 0;
    while k < e
        invariant
            k <= e,
            acc as int == fx_powi_spec(base as int, k as nat),
        decreases e - k,
    {
        proof {
            assert(fx_powi_spec(base as int, (k + 1) as nat) == fx_mul_spec(
                base as int,
                fx_powi_spec(base as int, k as nat),
            ));
        }
        acc = fx_mul(base, acc);
        k = k + 1;
    }
    acc
}

/// For nonnegative operands, truncating division is plain Euclidean division.
pub proof fn lemma_tdiv_pos(a: int, b: int)
    requires
        a >= 0,
        b > 0,
    ensures
        tdiv(a, b) == a / b,
{
}

/// Truncating division is an odd function of its numerator.
pub proof fn lemma_tdiv_neg(a: int, b: int)
    ensures
        tdiv(-a, b) == -tdiv(a, b),
{
}

/// Saturation is an odd function.
pub proof fn lemma_sat_neg(x: int)
    ensures
        sat(-x) == -sat(x),
{
}

/// Negating one factor negates the fixed-point product.
pub proof fn lemma_fx_mul_neg_left(a: int, b: int)
    ensures
        fx_mul_spec(-a, b) == -fx_mul_spec(a, b),
{
    assert((-a) * b == -(a * b)) by (nonlinear_arith);
    lemma_tdiv_neg(a * b, FX_ONE as int);
    lemma_sat_neg(tdiv(a * b, FX_ONE as int));
}

/// A fixed-point square is nonnegative.
pub proof fn lemma_fx_square_nonneg(a: int)
    ensures
        fx_mul_spec(a, a) >= 0,
{
    assert(a * a >= 0) by (nonlinear_arith);
    assert(a * a / 65536 >= 0) by (nonlinear_arith)
        requires
            a * a >= 0,
    ;
}

/// Negating both summands negates the saturating sum.
pub proof fn lemma_fx_add_neg(a: int, b: int)
    ensures
        fx_add_spec(-a, -b) == -fx_add_spec(a, b),
{
    lemma_sat_neg(a + b);
}

/// Multiplying by zero gives zero.
pub proof fn lemma_fx_mul_zero(a: int)
    ensures
        fx_mul_spec(a, 0) == 0,
        fx_mul_spec(0, a) == 0,
{
    assert(a * 0 == 0) by (nonlinear_arith);
    assert(0 * a == 0) by (nonlinear_arith);
}

/// Dividing zero gives zero.
pub proof fn lemma_fx_div_zero(b: int)
    ensures
        fx_div_spec(0, b) == 0,
{
}

/// Truncating division by a positive divisor is monotone in the numerator.
pub proof fn lemma_tdiv_monotone(a1: int, a2: int, b: int)
    requires
        a1 <= a2,
        b > 0,
    ensures
        tdiv(a1, b) <= tdiv(a2, b),
{
    if a1 >= 0 {
        assert(a1 / b <= a2 / b) by (nonlinear_arith)
            requires
                0 <= a1 <= a2,
                b > 0,
        ;
    } else if a2 < 0 {
        assert((-a2) / b <= (-a1) / b) by (nonlinear_arith)
            requires
                0 <= -a2 <= -a1,
                b > 0,
        ;
    } else {
        assert((-a1) / b >= 0 && a2 / b >= 0) by (nonlinear_arith)
            requires
                a1 < 0 <= a2,
                b > 0,
        ;
    }
}

/// Negating the divisor negates a truncating quotient.
pub proof fn lemma_tdiv_neg_divisor(a: int, b: int)
    ensures
        tdiv(a, -b) == -tdiv(a, b),
{
}

/// Fixed-point division by a negative divisor reverses order.
pub proof fn lemma_fx_div_antitone(a1: int, a2: int, b: int)
    requires
        a1 <= a2,
        b < 0,
    ensures
        fx_div_spec(a2, b) <= fx_div_spec(a1, b),
{
    let c = -b;
    lemma_tdiv_monotone(a1 * (FX_ONE as int), a2 * (FX_ONE as int), c);
    lemma_tdiv_neg_divisor(a1 * (FX_ONE as int), c);
    lemma_tdiv_neg_divisor(a2 * (FX_ONE as int), c);
    lemma_sat_monotone(tdiv(a2 * (FX_ONE as int), b), tdiv(a1 * (FX_ONE as int), b));
}

/// Saturation is monotone.
pub proof fn lemma_sat_monotone(x: int, y: int)
    requires
        x <= y,
    ensures
        sat(x) <= sat(y),
{
}

/// Fixed-point division by a positive divisor is monotone in the numerator.
pub proof fn lemma_fx_div_monotone(a1: int, a2: int, b: int)
    requires
        a1 <= a2,
        b > 0,
    ensures
        fx_div_spec(a1, b) <= fx_div_spec(a2, b),
{
    lemma_tdiv_monotone(a1 * (FX_ONE as int), a2 * (FX_ONE as int), b);
    lemma_sat_monotone(tdiv(a1 * (FX_ONE as int), b), tdiv(a2 * (FX_ONE as int), b));
}

/// Flooring (Euclidean) division for a positive divisor, on wide operands.
/// Matches the spec-level `/` exactly.
pub fn fdiv128(a: i128, b: i128) -> (r: i128)
    requires
        b > 0,
        -0x1000_0000_0000_0000_0000_0000_0000 <= a <= 0x1000_0000_0000_0000_0000_0000_0000,
        b <= 0x1000_0000_0000_0000_0000_0000_0000,
    ensures
        r as int == a as int / b as int,
{
    if a >= 0 {
        let q = (a as u128) / (b as u128);
        q as i128
    } else {
        let m = (-a) as u128;
        let ub = b as u128;
        let qm = m / ub;
        let rm = m % ub;
        assert(qm <= m) by {
            assert(m as int / ub as int <= m as int) by (nonlinear_arith)
                requires
                    ub >= 1,
                    m >= 0,
            ;
        }
        proof {
            vstd::arithmetic::div_mod::lemma_fundamental_div_mod(m as int, ub as int);
            assert(m as int == (ub as int) * (qm as int) + rm as int);
            if rm == 0 {
                assert(a as int == (-(qm as int)) * (b as int) + 0) by (nonlinear_arith)
                    requires
                        m as int == (ub as int) * (qm as int) + rm as int,
                        rm == 0,
                        a as int == -(m as int),
                        ub as int == b as int,
                ;
                vstd::arithmetic::div_mod::lemma_fundamental_div_mod_converse(
                    a as int, b as int, -(qm as int), 0);
            } else {
                assert(a as int == (-(qm as int) - 1) * (b as int) + (b as int - rm as int))
                    by (nonlinear_arith)
                    requires
                        m as int == (ub as int) * (qm as int) + rm as int,
                        a as int == -(m as int),
                        ub as int == b as int,
                ;
                vstd::arithmetic::div_mod::lemma_fundamental_div_mod_converse(
                    a as int, b as int, -(qm as int) - 1, b - rm);
            }
        }
        if rm == 0 {
            -(qm as i128)
        } else {
            -(qm as i128) - 1
        }
    }
}

/// Existence of an integer square root, by induction on `n`.
proof fn lemma_sqrt_exists(n: nat)
    ensures
        exists|r: int| 0 <= r && #[trigger] (r * r) <= n && n < (r + 1) * (r + 1),
    decreases n,
{
    if n == 0 {
        assert(0 * 0 <= 0 < 1 * 1);
    } else {
        lemma_sqrt_exists((n - 1) as nat);
        let r = choose|r: int| 0 <= r && #[trigger] (r * r) <= n - 1 && n - 1 < (r + 1) * (r + 1);
        if (r + 1) * (r + 1) <= n {
            // n - 1 < (r+1)^2 <= n, so (r+1)^2 == n and r+1 is the root.
            assert((r + 1) * (r + 1) == n);
            assert(n < (r + 2) * (r + 2)) by (nonlinear_arith)
                requires
                    0 <= r,
                    (r + 1) * (r + 1) == n,
            ;
            assert(0 <= r + 1 && (r + 1) * (r + 1) <= n && n < (r + 2) * (r + 2));
        } else {
            assert(0 <= r && r * r <= n && n < (r + 1) * (r + 1));
        }
    }
}

/// The square root characterisation pins a unique value.
pub proof fn lemma_sqrt_unique(n: int, r1: int, r2: int)
    requires
        0 <= r1 && r1 * r1 <= n && n < (r1 + 1) * (r1 + 1),
        0 <= r2 && r2 * r2 <= n && n < (r2 + 1) * (r2 + 1),
    ensures
        r1 == r2,
{
    assert(r1 == r2) by (nonlinear_arith)
        requires
            0 <= r1 && r1 * r1 <= n && n < (r1 + 1) * (r1 + 1),
            0 <= r2 && r2 * r2 <= n && n < (r2 + 1) * (r2 + 1),
    ;
}

/// `sqrt_floor(n)` satisfies its defining inequalities for `n >= 0`.
pub proof fn lemma_sqrt_floor_props(n: int)
    requires
        n >= 0,
    ensures
        0 <= sqrt_floor(n),
        sqrt_floor(n) * sqrt_floor(n) <= n,
        n < (sqrt_floor(n) + 1) * (sqrt_floor(n) + 1),
{
    lemma_sqrt_exists(n as nat);
}

/// The saturation bound holds of every saturated result.
pub proof fn lemma_sat_range(x: int)
    ensures
        -(FX_SAT as int) <= sat(x) <= FX_SAT as int,
{
}

/// Bounds for the discriminant arithmetic of the quadratic shapes: with all
/// three coefficients inside the saturation range, every intermediate value
/// stays far inside the `i128` range.
pub proof fn lemma_i64_products_wide(a: int, hb: int, c: int) by (nonlinear_arith)
    requires
        -0x4000_0000_0000_0000 <= a <= 0x4000_0000_0000_0000,
        -0x4000_0000_0000_0000 <= hb <= 0x4000_0000_0000_0000,
        -0x4000_0000_0000_0000 <= c <= 0x4000_0000_0000_0000,
    ensures
        -0x4000_0000_0000_0000_0000_0000_0000_0000 <= hb * hb - a * c
            <= 0x4000_0000_0000_0000_0000_0000_0000_0000,
        hb * hb <= 0x1000_0000_0000_0000_0000_0000_0000_0000,
        a * c >= -0x1000_0000_0000_0000_0000_0000_0000_0000,
{
}

/// A root of a number below 2^126 fits in an `i128` with room to spare.
pub proof fn lemma_wide_root_small(n: int, s: int) by (nonlinear_arith)
    requires
        0 <= s,
        s * s <= n,
        n <= 0x4000_0000_0000_0000_0000_0000_0000_0000,
    ensures
        s <= 0x8000_0000_0000_0000,
{
}

/// A root of a number below 2^79 fits comfortably in an `i64`.
proof fn lemma_root_small(n: int, s: int) by (nonlinear_arith)
    requires
        0 <= s,
        s * s <= n,
        n < 0x8000_0000_0000_0000_0000,
    ensures
        s < 0x100_0000_0000,
{
}

pub fn isqrt_u128(n: u128) -> (r: u128)
    ensures
        r * r <= n,
        n < (r + 1) * (r + 1),
{
    if n == 0 {
        return 0;
    }
    let mut lo: u128 = 0;
    let mut hi: u128 = 0x1_0000_0000_0000_0000;
    assert(n < hi * hi) by (nonlinear_arith)
        requires
            hi == 0x1_0000_0000_0000_0000u128,
            n <= 0xffff_ffff_ffff_ffff_ffff_ffff_ffff_ffffu128,
    ;
    while hi - lo > 1
        invariant
            lo < hi,
            hi <= 0x1_0000_0000_0000_0000,
            lo * lo <= n,
            n < hi * hi,
        decreases hi - lo,
    {
        let mid: u128 = lo + (hi - lo) / 2;
        assert(lo < mid < hi);
        assert(mid * mid <= u128::MAX) by (nonlinear_arith)
            requires
                mid < 0x1_0000_0000_0000_0000u128,
        ;
        if mid * mid <= n {
            lo = mid;
        } else {
            hi = mid;
        }
    }
    lo
}

/// Fixed-point square root: `sqrt(a / FX_ONE) * FX_ONE`, rounded down.
pub fn fx_sqrt(a: i64) -> (r: i64)
    requires
        a >= 0,
    ensures
        r as int == fx_sqrt_spec(a as int),
        r >= 0,
{
    let n: u128 = (a as u128) * 65536;
    assert(n == a as int * 65536);
    let s: u128 = isqrt_u128(n);
    proof {
        lemma_sqrt_floor_props(n as int);
        lemma_sqrt_unique(n as int, s as int, sqrt_floor(n as int));
        lemma_root_small(n as int, s as int);
    }
    s as i64
}

} // verus!
