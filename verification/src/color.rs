//! Colors: 8-bit RGBA values, fixed-point HSVA values on a decimal scale,
//! linear interpolation, and the HSV-to-RGB conversion.

use vstd::prelude::*;
use vstd::arithmetic::div_mod::{
    lemma_div_is_ordered, lemma_div_multiples_vanish, lemma_div_pos_is_pos, lemma_mod_bound,
};

verus! {

/// The color-space unit: 1.0 on the decimal fixed-point scale.
pub const COLOR_SCALE: i64 = 1_000_000;

/// An 8-bit RGBA color.
#[derive(Clone, Copy, PartialEq, Eq, Structural, Debug)]
pub struct Rgba {
    pub r: u8,
    pub g: u8,
    pub b: u8,
    pub a: u8,
}

impl Rgba {
    /// An opaque color from its three channels.
    pub fn from_rgb(r: u8, g: u8, b: u8) -> (c: Rgba)
        ensures
            c == (Rgba { r, g, b, a: 255u8 }),
    {
        Rgba { r, g, b, a: 255 }
    }

    /// A color from all four channels.
    pub fn from_rgba(r: u8, g: u8, b: u8, a: u8) -> (c: Rgba)
        ensures
            c == (Rgba { r, g, b, a }),
    {
        Rgba { r, g, b, a }
    }
}

/// A hue-saturation-value-alpha color on the decimal scale: `h` is a fraction
/// of a full hue circle, `s`, `v` and `a` are fractions of one.
#[derive(Clone, Copy, PartialEq, Eq, Structural, Debug)]
pub struct HsvaFx {
    pub h: i64,
    pub s: i64,
    pub v: i64,
    pub a: i64,
}

impl HsvaFx {
    /// All four components on the decimal scale, the hue strictly below a
    /// full circle.
    pub open spec fn valid(self) -> bool {
        &&& 0 <= self.h < COLOR_SCALE
        &&& 0 <= self.s <= COLOR_SCALE
        &&& 0 <= self.v <= COLOR_SCALE
        &&& 0 <= self.a <= COLOR_SCALE
    }

    /// An HSVA color from its components.
    pub fn new(h: i64, s: i64, v: i64, a: i64) -> (c: HsvaFx)
        ensures
            c == (HsvaFx { h, s, v, a }),
    {
        HsvaFx { h, s, v, a }
    }
}

/// Linear interpolation from `a` to `b` by the fraction `t` of the decimal
/// scale, truncated toward the start.
pub open spec fn lerp_spec(a: int, b: int, t: int) -> int {
    if b >= a {
        a + ((b - a) * t) / (COLOR_SCALE as int)
    } else {
        a - ((a - b) * t) / (COLOR_SCALE as int)
    }
}

/// The interpolant stays between its endpoints.
pub proof fn lemma_lerp_bounds(a: int, b: int, t: int)
    requires
        0 <= t <= COLOR_SCALE,
    ensures
        b >= a ==> a <= lerp_spec(a, b, t) <= b,
        b < a ==> b <= lerp_spec(a, b, t) <= a,
{
    let c = COLOR_SCALE as int;
    if b >= a {
        assert(0 <= (b - a) * t <= (b - a) * c) by (nonlinear_arith)
            requires
                0 <= t <= c,
                b >= a,
        ;
        lemma_div_pos_is_pos((b - a) * t, c);
        lemma_div_is_ordered((b - a) * t, (b - a) * c, c);
        lemma_div_multiples_vanish(b - a, c);
    } else {
        assert(0 <= (a - b) * t <= (a - b) * c) by (nonlinear_arith)
            requires
                0 <= t <= c,
                b < a,
        ;
        lemma_div_pos_is_pos((a - b) * t, c);
        lemma_div_is_ordered((a - b) * t, (a - b) * c, c);
        lemma_div_multiples_vanish(a - b, c);
    }
}

/// Interpolates linearly between two decimal-scale values.
pub fn lerp_fx(a: i64, b: i64, t: i64) -> (r: i64)
    requires
        0 <= a <= COLOR_SCALE,
        0 <= b <= COLOR_SCALE,
        0 <= t <= COLOR_SCALE,
    ensures
        r == lerp_spec(a as int, b as int, t as int),
        0 <= r <= COLOR_SCALE,
{
    proof {
        lemma_lerp_bounds(a as int, b as int, t as int);
    }
    if b >= a {
        let d: u64 = (b - a) as u64;
        a + ((d * (t as u64)) / (COLOR_SCALE as u64)) as i64
    } else {
        let d: u64 = (a - b) as u64;
        a - ((d * (t as u64)) / (COLOR_SCALE as u64)) as i64
    }
}

/// A decimal-scale fraction rounded to the nearest 8-bit channel value.
pub open spec fn unit_to_byte_spec(x: int) -> int {
    (x * 255 + (COLOR_SCALE as int) / 2) / (COLOR_SCALE as int)
}

/// The rounded channel fits in a byte.
pub proof fn lemma_unit_to_byte_bounds(x: int)
    requires
        0 <= x <= COLOR_SCALE,
    ensures
        0 <= unit_to_byte_spec(x) <= 255,
{
    let c = COLOR_SCALE as int;
    assert(x * 255 <= c * 255) by (nonlinear_arith)
        requires
            0 <= x <= c,
    ;
    assert(x * 255 >= 0) by (nonlinear_arith)
        requires
            x >= 0,
    ;
    lemma_div_pos_is_pos(x * 255 + c / 2, c);
    lemma_div_is_ordered(x * 255 + c / 2, c * 255 + c / 2, c);
    assert((c * 255 + c / 2) / c == 255) by {
        lemma_div_multiples_vanish(255, c);
        vstd::arithmetic::div_mod::lemma_hoist_over_denominator(c / 2, 255, c as nat);
    }
}

/// Rounds a decimal-scale fraction to the nearest 8-bit channel value.
pub fn unit_to_byte(x: i64) -> (r: u8)
    requires
        0 <= x <= COLOR_SCALE,
    ensures
        r == unit_to_byte_spec(x as int),
{
    proof {
        lemma_unit_to_byte_bounds(x as int);
    }
    (((x as u64) * 255 + (COLOR_SCALE as u64) / 2) / (COLOR_SCALE as u64)) as u8
}

/// An 8-bit channel scaled by a decimal-scale factor, rounded to nearest.
pub open spec fn scale_channel_spec(channel: int, factor: int) -> int {
    (channel * factor + (COLOR_SCALE as int) / 2) / (COLOR_SCALE as int)
}

/// Scaling by a factor of at most one cannot push a channel above 255.
pub proof fn lemma_scale_channel_bounds(channel: int, factor: int)
    requires
        0 <= channel <= 255,
        0 <= factor <= COLOR_SCALE,
    ensures
        0 <= scale_channel_spec(channel, factor) <= 255,
{
    let c = COLOR_SCALE as int;
    assert(0 <= channel * factor <= 255 * c) by (nonlinear_arith)
        requires
            0 <= channel <= 255,
            0 <= factor <= c,
    ;
    lemma_div_pos_is_pos(channel * factor + c / 2, c);
    lemma_div_is_ordered(channel * factor + c / 2, 255 * c + c / 2, c);
    assert((255 * c + c / 2) / c == 255) by {
        lemma_div_multiples_vanish(255, c);
        vstd::arithmetic::div_mod::lemma_hoist_over_denominator(c / 2, 255, c as nat);
    }
}

/// Scales an 8-bit channel by a decimal-scale factor, rounding to nearest.
pub fn scale_channel(channel: u8, factor: i64) -> (r: u8)
    requires
        0 <= factor <= COLOR_SCALE,
    ensures
        r == scale_channel_spec(channel as int, factor as int),
{
    proof {
        lemma_scale_channel_bounds(channel as int, factor as int);
    }
    (((channel as u64) * (factor as u64) + (COLOR_SCALE as u64) / 2) / (COLOR_SCALE as u64)) as u8
}

/// HSV to RGB on the decimal scale: the hue wheel split in six sectors, each
/// blending the value toward the two neighboring primaries.
pub open spec fn hsv_rgb_spec(h: int, s: int, v: int) -> (int, int, int) {
    let c = COLOR_SCALE as int;
    let sector = (6 * h) / c;
    let f = (6 * h) % c;
    let p = (v * (c - s)) / c;
    let q = (v * (c - (s * f) / c)) / c;
    let t = (v * (c - (s * (c - f)) / c)) / c;
    if sector == 0 {
        (v, t, p)
    } else if sector == 1 {
        (q, v, p)
    } else if sector == 2 {
        (p, v, t)
    } else if sector == 3 {
        (p, q, v)
    } else if sector == 4 {
        (t, p, v)
    } else {
        (v, p, q)
    }
}

/// Every HSV-to-RGB component stays on the decimal scale.
pub proof fn lemma_hsv_rgb_bounds(h: int, s: int, v: int)
    requires
        0 <= h < COLOR_SCALE,
        0 <= s <= COLOR_SCALE,
        0 <= v <= COLOR_SCALE,
    ensures
        0 <= hsv_rgb_spec(h, s, v).0 <= COLOR_SCALE,
        0 <= hsv_rgb_spec(h, s, v).1 <= COLOR_SCALE,
        0 <= hsv_rgb_spec(h, s, v).2 <= COLOR_SCALE,
{
    let c = COLOR_SCALE as int;
    lemma_mod_bound(6 * h, c);
    let f = (6 * h) % c;
    lemma_hsv_mix_bounds(s, v, c - s);
    lemma_scaled_fraction_bounds(s, f);
    lemma_hsv_mix_bounds(s, v, c - (s * f) / c);
    lemma_scaled_fraction_bounds(s, c - f);
    lemma_hsv_mix_bounds(s, v, c - (s * (c - f)) / c);
}

/// `s * f / c` stays within `[0, s]` for a fraction `f` of the scale.
proof fn lemma_scaled_fraction_bounds(s: int, f: int)
    requires
        0 <= s <= COLOR_SCALE,
        0 <= f <= COLOR_SCALE,
    ensures
        0 <= (s * f) / (COLOR_SCALE as int) <= s,
{
    let c = COLOR_SCALE as int;
    assert(0 <= s * f <= s * c) by (nonlinear_arith)
        requires
            0 <= s <= c,
            0 <= f <= c,
    ;
    lemma_div_pos_is_pos(s * f, c);
    lemma_div_is_ordered(s * f, s * c, c);
    lemma_div_multiples_vanish(s, c);
}

/// `v * w / c` stays on the scale for a weight `w` on the scale.
proof fn lemma_hsv_mix_bounds(s: int, v: int, w: int)
    requires
        0 <= v <= COLOR_SCALE,
        0 <= w <= COLOR_SCALE,
    ensures
        0 <= (v * w) / (COLOR_SCALE as int) <= COLOR_SCALE,
{
    let c = COLOR_SCALE as int;
    assert(0 <= v * w <= c * c) by (nonlinear_arith)
        requires
            0 <= v <= c,
            0 <= w <= c,
    ;
    lemma_div_pos_is_pos(v * w, c);
    lemma_div_is_ordered(v * w, c * c, c);
    lemma_div_multiples_vanish(c, c);
}

/// An HSVA color converted to 8-bit RGBA, each channel rounded to nearest.
pub open spec fn hsva_to_rgba_spec(hsva: HsvaFx) -> Rgba {
    let (r, g, b) = hsv_rgb_spec(hsva.h as int, hsva.s as int, hsva.v as int);
    Rgba {
        r: unit_to_byte_spec(r) as u8,
        g: unit_to_byte_spec(g) as u8,
        b: unit_to_byte_spec(b) as u8,
        a: unit_to_byte_spec(hsva.a as int) as u8,
    }
}

/// Converts an HSVA color to 8-bit RGBA.
pub fn hsva_to_rgba(hsva: &HsvaFx) -> (c: Rgba)
    requires
        hsva.valid(),
    ensures
        c == hsva_to_rgba_spec(*hsva),
{
    let cs: u64 = COLOR_SCALE as u64;
    let h6: u64 = 6 * (hsva.h as u64);
    let sector: u64 = h6 / cs;
    let f: u64 = h6 % cs;
    proof {
        lemma_mod_bound(h6 as int, cs as int);
        lemma_hsv_rgb_bounds(hsva.h as int, hsva.s as int, hsva.v as int);
        lemma_scaled_fraction_bounds(hsva.s as int, f as int);
        lemma_scaled_fraction_bounds(hsva.s as int, COLOR_SCALE - f as int);
        lemma_hsv_mix_bounds(hsva.s as int, hsva.v as int, COLOR_SCALE - hsva.s as int);
        lemma_hsv_mix_bounds(
            hsva.s as int,
            hsva.v as int,
            COLOR_SCALE - ((hsva.s as int) * (f as int)) / (COLOR_SCALE as int),
        );
        lemma_hsv_mix_bounds(
            hsva.s as int,
            hsva.v as int,
            COLOR_SCALE - ((hsva.s as int) * (COLOR_SCALE - f as int)) / (COLOR_SCALE as int),
        );
    }
    let sv: u64 = hsva.s as u64;
    let vv: u64 = hsva.v as u64;
    let p: i64 = ((vv * (cs - sv)) / cs) as i64;
    let q: i64 = ((vv * (cs - (sv * f) / cs)) / cs) as i64;
    let t: i64 = ((vv * (cs - (sv * (cs - f)) / cs)) / cs) as i64;
    let v: i64 = hsva.v;
    let (r, g, b): (i64, i64, i64) = if sector == 0 {
        (v, t, p)
    } else if sector == 1 {
        (q, v, p)
    } else if sector == 2 {
        (p, v, t)
    } else if sector == 3 {
        (p, q, v)
    } else if sector == 4 {
        (t, p, v)
    } else {
        (v, p, q)
    };
    Rgba {
        r: unit_to_byte(r),
        g: unit_to_byte(g),
        b: unit_to_byte(b),
        a: unit_to_byte(hsva.a),
    }
}

} // verus!
