//! The user-tunable parameters of the clock, their validity ranges, and a
//! codec that flattens a configuration to plain values and restores it, for
//! the host to persist between sessions.

use vstd::prelude::*;
use crate::color::{HsvaFx, Rgba, COLOR_SCALE};
use crate::fixed::FX_ONE;

verus! {

/// Deepest fractal expansion the engine accepts.
pub const MAX_DEPTH: usize = 20;

/// Number of plain values a flattened configuration holds.
pub const CONFIG_VALUE_COUNT: usize = 23;

/// The parameters that shape a frame: all scalars are fixed point, on the
/// geometry scale (`FX_ONE`) or, for colors, the decimal scale
/// (`COLOR_SCALE`).
#[derive(Clone, Copy, PartialEq, Eq, Structural, Debug)]
pub struct FractalClockConfig {
    /// Magnification of the logical unit square, in `[0, FX_ONE]`.
    pub zoom: i64,
    /// Stroke width of the hands, in `[0, 5 * FX_ONE]`.
    pub start_line_width: i64,
    /// Number of fractal generations, at most `MAX_DEPTH`.
    pub depth: usize,
    /// Length of the second and minute hands, in `[0, FX_ONE]`.
    pub length_factor: i64,
    /// Per-generation luminance decay, in `[0, COLOR_SCALE]`.
    pub luminance_factor: i64,
    /// Per-generation stroke-width decay, in `[0, FX_ONE]`.
    pub width_factor: i64,
    /// Branch color in solid mode.
    pub branch_color: Rgba,
    /// Color of the three hands.
    pub hand_color: Rgba,
    /// Whether branch colors interpolate between the two HSVA endpoints.
    pub rainbow_mode: bool,
    /// First endpoint of the rainbow interpolation.
    pub start_hsv: HsvaFx,
    /// Second endpoint of the rainbow interpolation.
    pub end_hsv: HsvaFx,
}

impl FractalClockConfig {
    /// Every parameter within the range its control offers.
    pub open spec fn valid(self) -> bool {
        &&& 0 <= self.zoom <= FX_ONE
        &&& 0 <= self.start_line_width <= 5 * FX_ONE
        &&& self.depth <= MAX_DEPTH
        &&& 0 <= self.length_factor <= FX_ONE
        &&& 0 <= self.luminance_factor <= COLOR_SCALE
        &&& 0 <= self.width_factor <= FX_ONE
        &&& self.start_hsv.valid()
        &&& self.end_hsv.valid()
    }

    /// The configuration the clock starts from.
    pub open spec fn default_spec() -> FractalClockConfig {
        FractalClockConfig {
            zoom: 0x8000,
            start_line_width: 0x5_0000,
            depth: 15,
            length_factor: 0xc000,
            luminance_factor: COLOR_SCALE,
            width_factor: 0xc000,
            branch_color: Rgba { r: 115, g: 186, b: 37, a: 255 },
            hand_color: Rgba { r: 255, g: 255, b: 255, a: 255 },
            rainbow_mode: true,
            start_hsv: HsvaFx { h: 0, s: COLOR_SCALE, v: COLOR_SCALE, a: COLOR_SCALE },
            end_hsv: HsvaFx { h: 666_667, s: COLOR_SCALE, v: COLOR_SCALE, a: COLOR_SCALE },
        }
    }

    /// Flattens the configuration to a list of plain values; `from_values`
    /// restores it.
    pub open spec fn to_values_spec(self) -> Seq<i64> {
        seq![
            self.zoom,
            self.start_line_width,
            self.depth as i64,
            self.length_factor,
            self.luminance_factor,
            self.width_factor,
            self.branch_color.r as i64,
            self.branch_color.g as i64,
            self.branch_color.b as i64,
            self.branch_color.a as i64,
            self.hand_color.r as i64,
            self.hand_color.g as i64,
            self.hand_color.b as i64,
            self.hand_color.a as i64,
            if self.rainbow_mode { 1i64 } else { 0i64 },
            self.start_hsv.h,
            self.start_hsv.s,
            self.start_hsv.v,
            self.start_hsv.a,
            self.end_hsv.h,
            self.end_hsv.s,
            self.end_hsv.v,
            self.end_hsv.a,
        ]
    }

    /// The configuration a list of plain values restores to: `None` unless
    /// the list has the right length and every value is in range.
    pub open spec fn from_values_spec(vals: Seq<i64>) -> Option<FractalClockConfig> {
        if vals.len() == CONFIG_VALUE_COUNT && Self::values_in_range(vals) {
            Some(Self::decoded(vals))
        } else {
            None
        }
    }

    /// Range checks for a flattened configuration: the validity ranges, byte
    /// channels, and a strict flag value.
    pub open spec fn values_in_range(vals: Seq<i64>) -> bool {
        &&& 0 <= vals[0] <= FX_ONE
        &&& 0 <= vals[1] <= 5 * FX_ONE
        &&& 0 <= vals[2] <= MAX_DEPTH as i64
        &&& 0 <= vals[3] <= FX_ONE
        &&& 0 <= vals[4] <= COLOR_SCALE
        &&& 0 <= vals[5] <= FX_ONE
        &&& byte_range(vals[6]) && byte_range(vals[7]) && byte_range(vals[8]) && byte_range(
            vals[9],
        )
        &&& byte_range(vals[10]) && byte_range(vals[11]) && byte_range(vals[12]) && byte_range(
            vals[13],
        )
        &&& vals[14] == 0 || vals[14] == 1
        &&& hsva_range(vals[15], vals[16], vals[17], vals[18])
        &&& hsva_range(vals[19], vals[20], vals[21], vals[22])
    }

    /// The configuration read back from an in-range flattened list.
    pub open spec fn decoded(vals: Seq<i64>) -> FractalClockConfig {
        FractalClockConfig {
            zoom: vals[0],
            start_line_width: vals[1],
            depth: vals[2] as usize,
            length_factor: vals[3],
            luminance_factor: vals[4],
            width_factor: vals[5],
            branch_color: Rgba {
                r: vals[6] as u8,
                g: vals[7] as u8,
                b: vals[8] as u8,
                a: vals[9] as u8,
            },
            hand_color: Rgba {
                r: vals[10] as u8,
                g: vals[11] as u8,
                b: vals[12] as u8,
                a: vals[13] as u8,
            },
            rainbow_mode: vals[14] == 1,
            start_hsv: HsvaFx { h: vals[15], s: vals[16], v: vals[17], a: vals[18] },
            end_hsv: HsvaFx { h: vals[19], s: vals[20], v: vals[21], a: vals[22] },
        }
    }

    /// Flattens the configuration to plain values.
    pub fn to_values(&self) -> (vals: Vec<i64>)
        requires
            self.valid(),
        ensures
            vals@ == self.to_values_spec(),
    {
        let mut vals: Vec<i64> = Vec::new();
        vals.push(self.zoom);
        vals.push(self.start_line_width);
        vals.push(self.depth as i64);
        vals.push(self.length_factor);
        vals.push(self.luminance_factor);
        vals.push(self.width_factor);
        vals.push(self.branch_color.r as i64);
        vals.push(self.branch_color.g as i64);
        vals.push(self.branch_color.b as i64);
        vals.push(self.branch_color.a as i64);
        vals.push(self.hand_color.r as i64);
        vals.push(self.hand_color.g as i64);
        vals.push(self.hand_color.b as i64);
        vals.push(self.hand_color.a as i64);
        vals.push(if self.rainbow_mode { 1 } else { 0 });
        vals.push(self.start_hsv.h);
        vals.push(self.start_hsv.s);
        vals.push(self.start_hsv.v);
        vals.push(self.start_hsv.a);
        vals.push(self.end_hsv.h);
        vals.push(self.end_hsv.s);
        vals.push(self.end_hsv.v);
        vals.push(self.end_hsv.a);
        proof {
            assert(vals@ =~= self.to_values_spec());
        }
        vals
    }

    /// Restores a configuration from plain values; `None` unless the list
    /// has the right length and every value is in range. A restored
    /// configuration is always valid.
    pub fn from_values(vals: &Vec<i64>) -> (c: Option<FractalClockConfig>)
        ensures
            c == Self::from_values_spec(vals@),
            c matches Some(cfg) ==> cfg.valid(),
    {
        if vals.len() != CONFIG_VALUE_COUNT {
            return None;
        }
        let in_range: bool = 0 <= vals[0] && vals[0] <= FX_ONE && 0 <= vals[1] && vals[1] <= 5
            * FX_ONE && 0 <= vals[2] && vals[2] <= MAX_DEPTH as i64 && 0 <= vals[3] && vals[3]
            <= FX_ONE && 0 <= vals[4] && vals[4] <= COLOR_SCALE && 0 <= vals[5] && vals[5]
            <= FX_ONE && byte_in_range(vals[6]) && byte_in_range(vals[7]) && byte_in_range(vals[8])
            && byte_in_range(vals[9]) && byte_in_range(vals[10]) && byte_in_range(vals[11])
            && byte_in_range(vals[12]) && byte_in_range(vals[13]) && (vals[14] == 0 || vals[14]
            == 1) && hsva_in_range(vals[15], vals[16], vals[17], vals[18]) && hsva_in_range(
            vals[19],
            vals[20],
            vals[21],
            vals[22],
        );
        if !in_range {
            return None;
        }
        Some(
            FractalClockConfig {
                zoom: vals[0],
                start_line_width: vals[1],
                depth: vals[2] as usize,
                length_factor: vals[3],
                luminance_factor: vals[4],
                width_factor: vals[5],
                branch_color: Rgba {
                    r: vals[6] as u8,
                    g: vals[7] as u8,
                    b: vals[8] as u8,
                    a: vals[9] as u8,
                },
                hand_color: Rgba {
                    r: vals[10] as u8,
                    g: vals[11] as u8,
                    b: vals[12] as u8,
                    a: vals[13] as u8,
                },
                rainbow_mode: vals[14] == 1,
                start_hsv: HsvaFx { h: vals[15], s: vals[16], v: vals[17], a: vals[18] },
                end_hsv: HsvaFx { h: vals[19], s: vals[20], v: vals[21], a: vals[22] },
            },
        )
    }
}

/// A plain value holding an 8-bit channel.
pub open spec fn byte_range(v: i64) -> bool {
    0 <= v <= 255
}

/// Tests `byte_range`.
fn byte_in_range(v: i64) -> (r: bool)
    ensures
        r == byte_range(v),
{
    0 <= v && v <= 255
}

/// Plain values holding a valid HSVA color.
pub open spec fn hsva_range(h: i64, s: i64, v: i64, a: i64) -> bool {
    (HsvaFx { h, s, v, a }).valid()
}

/// Tests `hsva_range`.
fn hsva_in_range(h: i64, s: i64, v: i64, a: i64) -> (r: bool)
    ensures
        r == hsva_range(h, s, v, a),
{
    0 <= h && h < COLOR_SCALE && 0 <= s && s <= COLOR_SCALE && 0 <= v && v <= COLOR_SCALE && 0 <= a
        && a <= COLOR_SCALE
}

impl Default for FractalClockConfig {
    /// The configuration the clock starts from; it is valid.
    fn default() -> (c: FractalClockConfig)
        ensures
            c == FractalClockConfig::default_spec(),
            c.valid(),
    {
        FractalClockConfig {
            zoom: 0x8000,
            start_line_width: 0x5_0000,
            depth: 15,
            length_factor: 0xc000,
            luminance_factor: COLOR_SCALE,
            width_factor: 0xc000,
            branch_color: Rgba { r: 115, g: 186, b: 37, a: 255 },
            hand_color: Rgba { r: 255, g: 255, b: 255, a: 255 },
            rainbow_mode: true,
            start_hsv: HsvaFx { h: 0, s: COLOR_SCALE, v: COLOR_SCALE, a: COLOR_SCALE },
            end_hsv: HsvaFx { h: 666_667, s: COLOR_SCALE, v: COLOR_SCALE, a: COLOR_SCALE },
        }
    }
}

/// Restoring a flattened valid configuration yields it back unchanged: the
/// codec loses nothing a render could see.
pub proof fn lemma_config_round_trip(c: FractalClockConfig)
    requires
        c.valid(),
    ensures
        FractalClockConfig::from_values_spec(c.to_values_spec()) == Some(c),
{
    let vals = c.to_values_spec();
    assert(vals.len() == CONFIG_VALUE_COUNT);
    assert(FractalClockConfig::values_in_range(vals));
    assert(FractalClockConfig::decoded(vals) == c);
}

} // verus!
