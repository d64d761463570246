//! Unit-level checks of the fixed-point pieces: arithmetic, colors, the
//! screen map, culling, the time of day, and the configuration codec.

use fractal_clock::clock::{describe_time, ms_of_parts};
use fractal_clock::color::{hsva_to_rgba, lerp_fx, scale_channel, unit_to_byte, HsvaFx, Rgba};
use fractal_clock::config::FractalClockConfig;
use fractal_clock::fixed::fx_mul;
use fractal_clock::geom::{
    map_apply, rect_from_two_pos, rects_intersect, screen_map, Pos2Fx, RectFx,
};
use fractal_clock::trig::{cos_bam, sin_bam};

const ONE: i64 = 0x1_0000;
const CS: i64 = 1_000_000;

#[test]
fn fixed_point_products_truncate_toward_zero() {
    assert_eq!(fx_mul(ONE, ONE), ONE);
    assert_eq!(fx_mul(3 * ONE, ONE / 2), 3 * ONE / 2);
    assert_eq!(fx_mul(-49152, 36864), -27648);
    assert_eq!(fx_mul(49152, -49152), -36864);
    assert_eq!(fx_mul(1, 1), 0);
    assert_eq!(fx_mul(-1, 1), 0);
    assert_eq!(fx_mul(0, 12345), 0);
}

#[test]
fn trig_is_exact_at_the_cardinal_directions() {
    let quarter: u64 = 1 << 30;
    assert_eq!(sin_bam(0), 0);
    assert_eq!(sin_bam(quarter), ONE);
    assert_eq!(sin_bam(2 * quarter), 0);
    assert_eq!(sin_bam(3 * quarter), -ONE);
    assert_eq!(cos_bam(0), ONE);
    assert_eq!(cos_bam(quarter), 0);
    assert_eq!(cos_bam(2 * quarter), -ONE);
    assert_eq!(cos_bam(3 * quarter), 0);
    // Everywhere else the wave stays within one unit.
    for i in 0..64 {
        let a = (i as u64) * (1 << 26);
        let s = sin_bam(a);
        let c = cos_bam(a);
        assert!(-ONE <= s && s <= ONE);
        assert!(-ONE <= c && c <= ONE);
    }
}

#[test]
fn channel_scaling_rounds_to_nearest() {
    // 115 * 0.7 = 80.5 rounds up to 81.
    assert_eq!(scale_channel(115, 700_000), 81);
    assert_eq!(scale_channel(186, 700_000), 130);
    assert_eq!(scale_channel(37, 700_000), 26);
    assert_eq!(scale_channel(255, CS), 255);
    assert_eq!(scale_channel(255, 0), 0);
    assert_eq!(unit_to_byte(0), 0);
    assert_eq!(unit_to_byte(CS), 255);
    assert_eq!(unit_to_byte(CS / 2), 128);
}

#[test]
fn lerp_meets_its_endpoints_and_midpoint() {
    assert_eq!(lerp_fx(0, CS, 0), 0);
    assert_eq!(lerp_fx(0, CS, CS), CS);
    assert_eq!(lerp_fx(0, CS, CS / 2), CS / 2);
    assert_eq!(lerp_fx(CS, 0, CS / 2), CS / 2);
    assert_eq!(lerp_fx(200, 100, CS), 100);
}

#[test]
fn hsv_conversion_hits_the_primaries() {
    let red = hsva_to_rgba(&HsvaFx { h: 0, s: CS, v: CS, a: CS });
    assert_eq!(red, Rgba { r: 255, g: 0, b: 0, a: 255 });
    // A third of the circle: green.
    let green = hsva_to_rgba(&HsvaFx { h: 333_334, s: CS, v: CS, a: CS });
    assert_eq!(green, Rgba { r: 0, g: 255, b: 0, a: 255 });
    // Two thirds: blue.
    let blue = hsva_to_rgba(&HsvaFx { h: 666_667, s: CS, v: CS, a: CS });
    assert_eq!(blue, Rgba { r: 0, g: 0, b: 255, a: 255 });
    // Zero saturation: white, alpha carried through.
    let white = hsva_to_rgba(&HsvaFx { h: 123_456, s: 0, v: CS, a: CS / 2 });
    assert_eq!(white, Rgba { r: 255, g: 255, b: 255, a: 128 });
}

#[test]
fn screen_map_centers_and_scales() {
    let rect = RectFx {
        min: Pos2Fx { x: 0, y: 0 },
        max: Pos2Fx { x: 65_536_000, y: 65_536_000 },
    };
    let map = screen_map(&rect, ONE / 2);
    let center = map_apply(&map, &Pos2Fx { x: 0, y: 0 });
    assert_eq!((center.x, center.y), (32_768_000, 32_768_000));
    let corner = map_apply(&map, &Pos2Fx { x: ONE, y: ONE });
    assert_eq!((corner.x, corner.y), (65_536_000, 65_536_000));
    let up = map_apply(&map, &Pos2Fx { x: 0, y: -ONE });
    assert_eq!((up.x, up.y), (32_768_000, 0));
}

#[test]
fn culling_tests_bounding_box_overlap() {
    let a = rect_from_two_pos(&Pos2Fx { x: 0, y: 0 }, &Pos2Fx { x: 10, y: 10 });
    let b = rect_from_two_pos(&Pos2Fx { x: 30, y: 5 }, &Pos2Fx { x: 20, y: 25 });
    assert_eq!(a.min, Pos2Fx { x: 0, y: 0 });
    assert_eq!(b.min, Pos2Fx { x: 20, y: 5 });
    assert_eq!(b.max, Pos2Fx { x: 30, y: 25 });
    assert!(!rects_intersect(&a, &b));
    assert!(rects_intersect(&a, &a));
    // Sharing only an edge still counts as overlap.
    let c = rect_from_two_pos(&Pos2Fx { x: 10, y: 0 }, &Pos2Fx { x: 40, y: 10 });
    assert!(rects_intersect(&a, &c));
}

#[test]
fn clock_parts_scale_to_milliseconds() {
    assert_eq!(ms_of_parts(0, 0), 0);
    assert_eq!(ms_of_parts(3, 456_789_123), 3_456);
    assert_eq!(ms_of_parts(86_399, 999_999_999), 86_399_999);
    // A leap second at the day's end wraps onto the next day.
    assert_eq!(ms_of_parts(86_399, 1_999_999_999), 999);
}

#[test]
fn clock_face_reading_of_a_time_of_day() {
    assert_eq!(describe_time(3_723_456), Some((1, 2, 3, 456)));
    assert_eq!(describe_time(0), Some((0, 0, 0, 0)));
    assert_eq!(describe_time(86_399_999), Some((23, 59, 59, 999)));
    assert_eq!(describe_time(86_400_000), None);
    assert_eq!(describe_time(u64::MAX), None);
}

#[test]
fn config_codec_rejects_bad_values() {
    let config = FractalClockConfig::default();
    let values = config.to_values();
    assert_eq!(values.len(), 23);
    assert_eq!(FractalClockConfig::from_values(&values), Some(config));
    // Wrong length.
    let mut short = values.clone();
    short.pop();
    assert_eq!(FractalClockConfig::from_values(&short), None);
    // Zoom out of range.
    let mut bad = values.clone();
    bad[0] = -1;
    assert_eq!(FractalClockConfig::from_values(&bad), None);
    // Depth past the maximum.
    let mut bad = values.clone();
    bad[2] = 21;
    assert_eq!(FractalClockConfig::from_values(&bad), None);
    // A channel past a byte.
    let mut bad = values.clone();
    bad[6] = 256;
    assert_eq!(FractalClockConfig::from_values(&bad), None);
    // The rainbow flag must be exactly zero or one.
    let mut bad = values.clone();
    bad[14] = 2;
    assert_eq!(FractalClockConfig::from_values(&bad), None);
}
