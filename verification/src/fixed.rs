//! Fixed-point scalars: an `i64` carrying a real number scaled by `FX_ONE`.

use vstd::prelude::*;
use vstd::arithmetic::div_mod::{lemma_div_is_ordered, lemma_div_multiples_vanish};
use vstd::math::abs;

verus! {

/// The fixed-point unit: 1.0 is represented as `FX_ONE`.
pub const FX_ONE: i64 = 0x1_0000;

/// Largest value whose quotient by `FX_ONE` still fits in `i64`.
pub const FX_PRODUCT_LIMIT: i128 = 0x7fff_ffff_ffff_ffff * 0x1_0000;

/// Fixed-point product, truncated toward zero: the mathematical value of
/// `a * b / FX_ONE`, with the fractional part dropped.
pub open spec fn fx_mul_spec(a: int, b: int) -> int {
    let p = a * b;
    if p >= 0 {
        p / (FX_ONE as int)
    } else {
        -((-p) / (FX_ONE as int))
    }
}

/// Multiplies two fixed-point numbers, truncating toward zero.
pub fn fx_mul(a: i64, b: i64) -> (r: i64)
    requires
        -FX_PRODUCT_LIMIT <= a * b <= FX_PRODUCT_LIMIT,
    ensures
        r == fx_mul_spec(a as int, b as int),
{
    let neg: bool = (a < 0) != (b < 0);
    let ua: u64 = if a < 0 { (-(a as i128)) as u64 } else { a as u64 };
    let ub: u64 = if b < 0 { (-(b as i128)) as u64 } else { b as u64 };
    proof {
        assert(ua == abs(a as int) && ub == abs(b as int));
        assert(ua as int * ub as int == abs((a as int) * (b as int))) by (nonlinear_arith)
            requires
                ua == abs(a as int),
                ub == abs(b as int),
        ;
        assert(((a < 0) != (b < 0)) ==> (a as int) * (b as int) <= 0) by (nonlinear_arith);
        assert(((a < 0) == (b < 0)) ==> (a as int) * (b as int) >= 0) by (nonlinear_arith);
    }
    let prod: u128 = (ua as u128) * (ub as u128);
    let q: u128 = prod / (FX_ONE as u128);
    proof {
        lemma_div_is_ordered(prod as int, FX_PRODUCT_LIMIT as int, FX_ONE as int);
        lemma_div_multiples_vanish(0x7fff_ffff_ffff_ffff, FX_ONE as int);
        assert(q <= 0x7fff_ffff_ffff_ffff);
    }
    if neg {
        (-(q as i128)) as i64
    } else {
        q as i64
    }
}

/// The magnitude of a truncated fixed-point product is the truncated
/// product of the magnitudes.
pub proof fn lemma_fx_mul_abs(a: int, b: int)
    ensures
        abs(fx_mul_spec(a, b)) as int == (abs(a * b) as int) / (FX_ONE as int),
{
    let p = a * b;
    if p >= 0 {
        vstd::arithmetic::div_mod::lemma_div_pos_is_pos(p, FX_ONE as int);
    } else {
        vstd::arithmetic::div_mod::lemma_div_pos_is_pos(-p, FX_ONE as int);
    }
}

/// Multiplying by a factor of magnitude at most one cannot grow a value:
/// `|b| <= FX_ONE` gives `|fx_mul_spec(a, b)| <= |a|`, and more generally
/// any bound on `|a|` is kept.
pub proof fn lemma_fx_mul_abs_le(a: int, b: int, m: int)
    requires
        abs(b) <= FX_ONE,
        abs(a) <= m,
    ensures
        abs(fx_mul_spec(a, b)) <= m,
{
    lemma_fx_mul_abs(a, b);
    assert(abs(a * b) <= m * (FX_ONE as int)) by (nonlinear_arith)
        requires
            abs(b) <= FX_ONE,
            abs(a) <= m,
    ;
    lemma_div_is_ordered(abs(a * b) as int, m * (FX_ONE as int), FX_ONE as int);
    lemma_div_multiples_vanish(m, FX_ONE as int);
}

/// A product of values within known magnitudes stays within the fixed-point
/// product limit.
pub proof fn lemma_fx_product_limit(a: int, b: int, ma: int, mb: int)
    requires
        abs(a) <= ma,
        abs(b) <= mb,
        ma * mb <= FX_PRODUCT_LIMIT,
    ensures
        -FX_PRODUCT_LIMIT <= a * b <= FX_PRODUCT_LIMIT,
{
    assert(abs(a * b) <= ma * mb) by (nonlinear_arith)
        requires
            abs(a) <= ma,
            abs(b) <= mb,
    ;
}

/// A truncated product of nonnegative factors is nonnegative.
pub proof fn lemma_fx_mul_nonneg(a: int, b: int)
    requires
        0 <= a,
        0 <= b,
    ensures
        0 <= fx_mul_spec(a, b),
{
    assert(0 <= a * b) by (nonlinear_arith)
        requires
            0 <= a,
            0 <= b,
    ;
    vstd::arithmetic::div_mod::lemma_div_pos_is_pos(a * b, FX_ONE as int);
}

/// Strict division bound: a numerator strictly below `b * c` divides by `c`
/// to strictly below `b`.
pub proof fn lemma_div_below(a: int, b: int, c: int)
    requires
        0 <= a,
        a < b * c,
        0 < c,
    ensures
        a / c < b,
{
    vstd::arithmetic::div_mod::lemma_fundamental_div_mod(a, c);
    let q = a / c;
    let r = a % c;
    assert(q < b) by (nonlinear_arith)
        requires
            a == c * q + r,
            0 <= r < c,
            a < b * c,
            c > 0,
    ;
}

/// Fixed-point products by 0, 1 and -1 are exact.
pub proof fn lemma_fx_mul_unit(a: int)
    ensures
        fx_mul_spec(a, FX_ONE as int) == a,
        fx_mul_spec(a, -(FX_ONE as int)) == -a,
        fx_mul_spec(a, 0) == 0,
        fx_mul_spec(0, a) == 0,
{
    lemma_div_multiples_vanish(a, FX_ONE as int);
    lemma_div_multiples_vanish(-a, FX_ONE as int);
    assert(a * (FX_ONE as int) == (FX_ONE as int) * a) by (nonlinear_arith);
    assert(a * (-(FX_ONE as int)) == -((FX_ONE as int) * a)) by (nonlinear_arith);
    assert(a * 0 == 0) by (nonlinear_arith);
    assert(0 * a == 0) by (nonlinear_arith);
}

} // verus!
