//! Sine and cosine on binary angles.
//!
//! An angle is a `u64` number of `1/TURN`-ths of a full circle, so wraparound
//! is exact modular arithmetic. The wave is a quadratic approximation blended
//! with its own square; it is exact at every multiple of a quarter turn and
//! stays within `[-FX_ONE, FX_ONE]` everywhere.

use vstd::prelude::*;
use vstd::arithmetic::div_mod::{
    lemma_div_is_ordered, lemma_div_multiples_vanish, lemma_div_pos_is_pos,
    lemma_mod_bound,
};
use crate::fixed::FX_ONE;

verus! {

/// A full circle.
pub const TURN: u64 = 0x1_0000_0000;

/// Half a circle.
pub const HALF_TURN: u64 = 0x8000_0000;

/// A quarter circle.
pub const QUARTER_TURN: u64 = 0x4000_0000;

/// Blend weight of the plain parabola; with `SIN_BLEND_CURVE` it sums to `FX_ONE`.
pub const SIN_BLEND_BASE: u64 = 50790;

/// Blend weight of the squared parabola.
pub const SIN_BLEND_CURVE: u64 = 14746;

/// One half-wave of the sine approximation, for `x` in `[0, HALF_TURN)`:
/// a parabola `p` through 0, 1, 0, sharpened by blending it with `p * p`.
pub open spec fn sin_half_wave(x: int) -> int {
    let z = x / 0x8000;
    let p = (4 * z * ((FX_ONE as int) - z)) / (FX_ONE as int);
    (p * ((SIN_BLEND_BASE as int) + ((SIN_BLEND_CURVE as int) * p) / (FX_ONE as int)))
        / (FX_ONE as int)
}

/// Sine of a binary angle, as a fixed-point value.
pub open spec fn sin_bam_spec(a: int) -> int {
    if a < HALF_TURN {
        sin_half_wave(a)
    } else {
        -sin_half_wave(a - (HALF_TURN as int))
    }
}

/// Cosine of a binary angle: the sine a quarter turn ahead.
pub open spec fn cos_bam_spec(a: int) -> int {
    sin_bam_spec((a + QUARTER_TURN) % (TURN as int))
}

/// The half-wave stays within `[0, FX_ONE]`.
pub proof fn lemma_sin_half_wave_range(x: int)
    requires
        0 <= x < HALF_TURN,
    ensures
        0 <= sin_half_wave(x) <= FX_ONE,
{
    let one = FX_ONE as int;
    let z = x / 0x8000;
    lemma_div_pos_is_pos(x, 0x8000);
    lemma_div_is_ordered(x, (HALF_TURN - 1) as int, 0x8000);
    assert(z <= 65535);
    let num = 4 * z * (one - z);
    assert(0 <= num <= 0x1_0000_0000) by (nonlinear_arith)
        requires
            0 <= z <= 65535,
            one == 0x1_0000,
            num == 4 * z * (one - z),
    ;
    let p = num / one;
    lemma_div_pos_is_pos(num, one);
    lemma_div_is_ordered(num, 0x1_0000_0000, one);
    assert(0 <= p <= one);
    let curve = (SIN_BLEND_CURVE as int) * p;
    assert(0 <= curve <= (SIN_BLEND_CURVE as int) * one) by (nonlinear_arith)
        requires
            0 <= p <= one,
            curve == (SIN_BLEND_CURVE as int) * p,
    ;
    lemma_div_pos_is_pos(curve, one);
    lemma_div_is_ordered(curve, (SIN_BLEND_CURVE as int) * one, one);
    lemma_div_multiples_vanish(SIN_BLEND_CURVE as int, one);
    let inner = (SIN_BLEND_BASE as int) + curve / one;
    assert(0 <= inner <= one);
    let outer = p * inner;
    assert(0 <= outer <= one * one) by (nonlinear_arith)
        requires
            0 <= p <= one,
            0 <= inner <= one,
            outer == p * inner,
    ;
    lemma_div_pos_is_pos(outer, one);
    lemma_div_is_ordered(outer, one * one, one);
    lemma_div_multiples_vanish(one, one);
}

/// Sine of any binary angle stays within `[-FX_ONE, FX_ONE]`.
pub proof fn lemma_sin_range(a: int)
    requires
        0 <= a < TURN,
    ensures
        -(FX_ONE as int) <= sin_bam_spec(a) <= FX_ONE,
{
    if a < HALF_TURN {
        lemma_sin_half_wave_range(a);
    } else {
        lemma_sin_half_wave_range(a - (HALF_TURN as int));
    }
}

/// Cosine of any binary angle stays within `[-FX_ONE, FX_ONE]`.
pub proof fn lemma_cos_range(a: int)
    requires
        0 <= a < TURN,
    ensures
        -(FX_ONE as int) <= cos_bam_spec(a) <= FX_ONE,
{
    lemma_mod_bound(a + (QUARTER_TURN as int), TURN as int);
    lemma_sin_range((a + QUARTER_TURN) % (TURN as int));
}

/// The approximation is exact at the four cardinal directions.
pub proof fn lemma_trig_quarters()
    ensures
        sin_bam_spec(0) == 0,
        sin_bam_spec(QUARTER_TURN as int) == FX_ONE,
        sin_bam_spec(HALF_TURN as int) == 0,
        sin_bam_spec(3 * (QUARTER_TURN as int)) == -(FX_ONE as int),
        cos_bam_spec(0) == FX_ONE,
        cos_bam_spec(QUARTER_TURN as int) == 0,
        cos_bam_spec(HALF_TURN as int) == -(FX_ONE as int),
        cos_bam_spec(3 * (QUARTER_TURN as int)) == 0,
{
    lemma_half_wave_at_zero();
    assert(sin_half_wave(QUARTER_TURN as int) == FX_ONE) by {
        lemma_half_wave_peak();
    }
    assert((0 + QUARTER_TURN) % (TURN as int) == QUARTER_TURN) by (nonlinear_arith);
    assert((QUARTER_TURN + QUARTER_TURN) % (TURN as int) == HALF_TURN) by (nonlinear_arith);
    assert((HALF_TURN + QUARTER_TURN) % (TURN as int) == 3 * (QUARTER_TURN as int))
        by (nonlinear_arith);
    assert((3 * (QUARTER_TURN as int) + QUARTER_TURN) % (TURN as int) == 0) by (nonlinear_arith);
}

/// The half-wave starts at zero.
proof fn lemma_half_wave_at_zero()
    ensures
        sin_half_wave(0) == 0,
{
    let one = FX_ONE as int;
    assert(0int / 0x8000 == 0);
    assert(4 * 0 * (one - 0) == 0) by (nonlinear_arith);
    assert(0int / one == 0);
    assert(0 * ((SIN_BLEND_BASE as int) + (SIN_BLEND_CURVE as int) * 0 / one) == 0)
        by (nonlinear_arith);
}

/// The half-wave reaches exactly `FX_ONE` at the quarter turn.
proof fn lemma_half_wave_peak()
    ensures
        sin_half_wave(QUARTER_TURN as int) == FX_ONE,
{
    let one = FX_ONE as int;
    let z = (QUARTER_TURN as int) / 0x8000;
    assert(z == 0x8000);
    let num = 4 * z * (one - z);
    assert(num == 0x1_0000_0000) by (nonlinear_arith)
        requires
            z == 0x8000,
            one == 0x1_0000,
            num == 4 * z * (one - z),
    ;
    let p = num / one;
    assert(p == one);
    let curve = (SIN_BLEND_CURVE as int) * p;
    assert(curve == (SIN_BLEND_CURVE as int) * one) by (nonlinear_arith)
        requires
            p == one,
            curve == (SIN_BLEND_CURVE as int) * p,
    ;
    lemma_div_multiples_vanish(SIN_BLEND_CURVE as int, one);
    let inner = (SIN_BLEND_BASE as int) + curve / one;
    assert(inner == one);
    let outer = p * inner;
    assert(outer == one * one) by (nonlinear_arith)
        requires
            p == one,
            inner == one,
            outer == p * inner,
    ;
    lemma_div_multiples_vanish(one, one);
}

/// Sine of a binary angle, truncated fixed point.
pub fn sin_bam(a: u64) -> (r: i64)
    requires
        a < TURN,
    ensures
        r == sin_bam_spec(a as int),
        -(FX_ONE as int) <= r <= FX_ONE,
{
    let neg: bool = a >= HALF_TURN;
    let x: u64 = if neg { a - HALF_TURN } else { a };
    let z: u64 = x / 0x8000;
    proof {
        lemma_div_is_ordered(x as int, 0x7fff_ffff, 0x8000);
        assert(z <= 65535);
        assert(0 <= 4 * (z as int) * (0x1_0000 - z as int) <= 0x1_0000_0000) by (nonlinear_arith)
            requires
                0 <= z <= 65535,
        ;
    }
    let num: u64 = 4 * z * (FX_ONE as u64 - z);
    proof {
        lemma_div_is_ordered(num as int, 0x1_0000_0000, FX_ONE as int);
    }
    let p: u64 = num / (FX_ONE as u64);
    proof {
        assert(p <= 0x1_0000);
        lemma_div_is_ordered(
            (SIN_BLEND_CURVE * p) as int,
            (SIN_BLEND_CURVE as int) * (FX_ONE as int),
            FX_ONE as int,
        );
        lemma_div_multiples_vanish(SIN_BLEND_CURVE as int, FX_ONE as int);
    }
    let inner: u64 = SIN_BLEND_BASE + (SIN_BLEND_CURVE * p) / (FX_ONE as u64);
    proof {
        assert(inner <= 0x1_0000);
        assert(p * inner <= 0x1_0000 * 0x1_0000) by (nonlinear_arith)
            requires
                p <= 0x1_0000,
                inner <= 0x1_0000,
        ;
        lemma_div_is_ordered((p * inner) as int, 0x1_0000int * 0x1_0000, FX_ONE as int);
        lemma_div_multiples_vanish(FX_ONE as int, FX_ONE as int);
    }
    let q: u64 = (p * inner) / (FX_ONE as u64);
    proof {
        assert(q <= FX_ONE as u64);
    }
    if neg {
        -(q as i64)
    } else {
        q as i64
    }
}

/// Cosine of a binary angle, truncated fixed point.
pub fn cos_bam(a: u64) -> (r: i64)
    requires
        a < TURN,
    ensures
        r == cos_bam_spec(a as int),
        -(FX_ONE as int) <= r <= FX_ONE,
{
    proof {
        lemma_mod_bound(a + (QUARTER_TURN as int), TURN as int);
    }
    sin_bam((a + QUARTER_TURN) % TURN)
}

} // verus!
