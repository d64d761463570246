//! Frame-level scenarios: hand positions, fractal expansion counts, color
//! schedules, pausing, and the configuration round trip.

use fractal_clock::color::{HsvaFx, Rgba};
use fractal_clock::config::FractalClockConfig;
use fractal_clock::fractal_clock::FractalClock;
use fractal_clock::geom::{Pos2Fx, RectFx};
use fractal_clock::render::Segment;

/// One fixed-point unit (1.0) on the geometry scale.
const ONE: i64 = 0x1_0000;
/// One unit (1.0) on the decimal color scale.
const CS: i64 = 1_000_000;

/// A 1000 x 1000 pixel clip rectangle, in fixed-point pixels.
fn rect_1000() -> RectFx {
    RectFx {
        min: Pos2Fx { x: 0, y: 0 },
        max: Pos2Fx { x: 65_536_000, y: 65_536_000 },
    }
}

/// A paused engine frozen at the given time of day with the given parameters.
fn engine_with(config: FractalClockConfig, time_ms: u64) -> FractalClock {
    let mut engine = FractalClock::default();
    engine.set_paused(true);
    engine.set_time(time_ms);
    engine.set_config(config);
    engine
}

/// The solid-mode scenario configuration: zoom 0.5, depth 3, length and
/// width factors 0.75, luminance factor 1.0, branch color RGB(115, 186, 37).
fn scenario_config() -> FractalClockConfig {
    FractalClockConfig {
        zoom: ONE / 2,
        start_line_width: 5 * ONE,
        depth: 3,
        length_factor: 49152,
        luminance_factor: CS,
        width_factor: 49152,
        branch_color: Rgba { r: 115, g: 186, b: 37, a: 255 },
        hand_color: Rgba { r: 255, g: 255, b: 255, a: 255 },
        rainbow_mode: false,
        start_hsv: HsvaFx { h: 0, s: CS, v: CS, a: CS },
        end_hsv: HsvaFx { h: 666_667, s: CS, v: CS, a: CS },
    }
}

#[test]
fn hands_at_midnight_point_up() {
    let mut engine = engine_with(scenario_config(), 0);
    let hands = engine.create_hands();
    // All three hands at -90 degrees: three quarter turns in binary angle.
    assert_eq!(hands.second.angle, 3 << 30);
    assert_eq!(hands.minute.angle, 3 << 30);
    assert_eq!(hands.hour.angle, 3 << 30);
    // Straight up on a y-down screen, lengths 0.75, 0.75 and 0.5.
    assert_eq!((hands.second.vec.x, hands.second.vec.y), (0, -49152));
    assert_eq!((hands.minute.vec.x, hands.minute.vec.y), (0, -49152));
    assert_eq!((hands.hour.vec.x, hands.hour.vec.y), (0, -32768));
    // Recomputing with identical state is bit-identical.
    let again = engine.create_hands();
    assert_eq!(hands, again);
    let _ = engine.paint(&rect_1000());
}

#[test]
fn hands_quarter_and_half_minute() {
    let mut config = scenario_config();
    config.length_factor = 49152;
    let engine = engine_with(config, 15_000);
    let hands = engine.create_hands();
    // Fifteen seconds: the second hand points right, exactly.
    assert_eq!((hands.second.vec.x, hands.second.vec.y), (49152, 0));
    let engine = engine_with(config, 30_000);
    let hands = engine.create_hands();
    // Thirty seconds: the second hand points down, exactly.
    assert_eq!((hands.second.vec.x, hands.second.vec.y), (0, 49152));
}

#[test]
fn scenario_depth_three_counts_and_colors() {
    let mut engine = engine_with(scenario_config(), 0);
    let rect = rect_1000();
    let shapes = engine.paint(&rect);
    // Three hand segments, then two rotors over generations of 2, 4 and 8
    // nodes: 4 + 8 + 16 branch segments.
    assert_eq!(shapes.len(), 3 + 4 + 8 + 16);
    assert_eq!(engine.painted_line_count(), 31);
    // Hands: white, width 5.0, drawn from the mapped center.
    let center = Pos2Fx { x: 32_768_000, y: 32_768_000 };
    assert_eq!(
        shapes[0],
        Segment {
            a: center,
            b: Pos2Fx { x: 32_768_000, y: 8_192_000 },
            width: 5 * ONE,
            color: Rgba { r: 255, g: 255, b: 255, a: 255 },
        }
    );
    assert_eq!(shapes[1], shapes[0]);
    assert_eq!(
        shapes[2],
        Segment {
            a: center,
            b: Pos2Fx { x: 32_768_000, y: 16_384_000 },
            width: 5 * ONE,
            color: Rgba { r: 255, g: 255, b: 255, a: 255 },
        }
    );
    // With luminance factor 1.0 the decayed luminance stays at 0.7, so all
    // three generations share the same dimmed branch color.
    let branch_color = Rgba { r: 81, g: 130, b: 26, a: 255 };
    for segment in &shapes[3..] {
        assert_eq!(segment.color, branch_color);
    }
    // Generation widths decay by 0.75 per level from 5.0.
    let expected_level_0 = Segment {
        a: Pos2Fx { x: 32_768_000, y: 8_192_000 },
        b: Pos2Fx { x: 32_768_000, y: 26_624_000 },
        width: 245_760,
        color: branch_color,
    };
    for segment in &shapes[3..7] {
        assert_eq!(*segment, expected_level_0);
    }
    let expected_level_1 = Segment {
        a: Pos2Fx { x: 32_768_000, y: 26_624_000 },
        b: Pos2Fx { x: 32_768_000, y: 12_800_000 },
        width: 184_320,
        color: branch_color,
    };
    for segment in &shapes[7..15] {
        assert_eq!(*segment, expected_level_1);
    }
    let expected_level_2 = Segment {
        a: Pos2Fx { x: 32_768_000, y: 12_800_000 },
        b: Pos2Fx { x: 32_768_000, y: 23_168_000 },
        width: 138_240,
        color: branch_color,
    };
    for segment in &shapes[15..31] {
        assert_eq!(*segment, expected_level_2);
    }
}

#[test]
fn zero_depth_emits_hands_only() {
    let mut config = scenario_config();
    config.depth = 0;
    config.rainbow_mode = true;
    let mut engine = engine_with(config, 43_000_000);
    let shapes = engine.paint(&rect_1000());
    assert_eq!(shapes.len(), 3);
    assert_eq!(engine.color_count(), 0);
}

#[test]
fn zero_luminance_factor_emits_hands_only() {
    let mut config = scenario_config();
    config.luminance_factor = 0;
    config.depth = 15;
    let mut engine = engine_with(config, 0);
    let shapes = engine.paint(&rect_1000());
    // The first computed luminance is already below the visibility floor.
    assert_eq!(engine.color_count(), 0);
    assert_eq!(shapes.len(), 3);
}

#[test]
fn luminance_decay_strictly_dims_the_schedule() {
    let mut config = scenario_config();
    config.luminance_factor = 900_000;
    config.depth = 5;
    let mut engine = engine_with(config, 0);
    engine.compute_colors();
    assert_eq!(engine.color_count(), 5);
    let reds: Vec<u8> = (0..5).map(|i| engine.color_at(i).r).collect();
    assert_eq!(reds, vec![72, 65, 59, 53, 48]);
    for i in 1..5 {
        assert!(engine.color_at(i).r < engine.color_at(i - 1).r);
    }
}

#[test]
fn schedule_never_outruns_depth_and_truncates_early() {
    let mut config = scenario_config();
    config.depth = 15;
    config.luminance_factor = 100_000;
    let mut engine = engine_with(config, 0);
    engine.compute_colors();
    // Luminance runs 0.07, 0.007, 0.0007: the third is below 0.5/255.
    assert_eq!(engine.color_count(), 2);
    config.luminance_factor = CS;
    let mut engine = engine_with(config, 0);
    engine.compute_colors();
    assert_eq!(engine.color_count(), 15);
}

#[test]
fn rainbow_schedule_starts_at_the_start_hue() {
    let mut config = scenario_config();
    config.rainbow_mode = true;
    config.depth = 15;
    let mut engine = engine_with(config, 0);
    engine.compute_colors();
    assert_eq!(engine.color_count(), 15);
    // Generation zero sits at the start of the hue ramp: pure red.
    assert_eq!(engine.color_at(0), Rgba { r: 255, g: 0, b: 0, a: 255 });
}

#[test]
fn offscreen_branches_are_culled() {
    let mut config = scenario_config();
    config.zoom = ONE;
    config.depth = 1;
    // Half past the minute: the second hand points down, the minute hand up.
    let mut engine = engine_with(config, 30_000);
    let shapes = engine.paint(&rect_1000());
    // At full zoom both free hand tips leave the view, and one of each
    // tip's two branches stays fully outside it: 3 hands + 2 of 4 branches.
    assert_eq!(shapes.len(), 5);
    assert_eq!(engine.painted_line_count(), 5);
}

#[test]
fn rainbow_hues_are_evenly_spaced() {
    let mut config = scenario_config();
    config.rainbow_mode = true;
    config.depth = 3;
    let mut engine = engine_with(config, 0);
    engine.compute_colors();
    assert_eq!(engine.color_count(), 3);
    // The default endpoints run from 0 to 2/3 of the hue circle; three
    // generations sample it at 0, 80 and 160 degrees, evenly spaced.
    assert_eq!(engine.color_at(0), Rgba { r: 255, g: 0, b: 0, a: 255 });
    assert_eq!(engine.color_at(1), Rgba { r: 170, g: 255, b: 0, a: 255 });
    assert_eq!(engine.color_at(2), Rgba { r: 0, g: 255, b: 170, a: 255 });
}

#[test]
fn render_is_idempotent_while_paused() {
    let mut engine = engine_with(scenario_config(), 12_345_678);
    let rect = rect_1000();
    let first = engine.paint(&rect);
    let second = engine.paint(&rect);
    assert_eq!(first, second);
    let mut rainbow = scenario_config();
    rainbow.rainbow_mode = true;
    rainbow.depth = 7;
    let mut engine = engine_with(rainbow, 77_000_001);
    let first = engine.paint(&rect);
    let second = engine.paint(&rect);
    assert_eq!(first, second);
}

#[test]
fn config_round_trip_preserves_the_render() {
    let mut config = scenario_config();
    config.rainbow_mode = true;
    config.depth = 6;
    let values = config.to_values();
    let restored = FractalClockConfig::from_values(&values).expect("valid values restore");
    assert_eq!(restored, config);
    let rect = rect_1000();
    let mut original_engine = engine_with(config, 9_000_000);
    let mut restored_engine = engine_with(restored, 9_000_000);
    assert_eq!(original_engine.paint(&rect), restored_engine.paint(&rect));
}

#[test]
fn update_freezes_while_paused_and_wraps_time() {
    let mut engine = FractalClock::default();
    engine.set_paused(true);
    engine.set_time(1234);
    engine.update();
    assert_eq!(engine.time_of_day_ms(), 1234);
    // A full day wraps to midnight; a bit more wraps past it.
    engine.set_time(86_400_000);
    assert_eq!(engine.time_of_day_ms(), 0);
    engine.set_time(86_400_000 + 86_399_999);
    assert_eq!(engine.time_of_day_ms(), 86_399_999);
    // Running again samples the live clock: always a valid time of day.
    engine.set_paused(false);
    engine.update();
    assert!(engine.time_of_day_ms() < 86_400_000);
}

#[test]
fn paint_recomputes_schedule_after_config_change() {
    let mut engine = engine_with(scenario_config(), 0);
    let rect = rect_1000();
    let _ = engine.paint(&rect);
    assert_eq!(engine.color_count(), 3);
    let mut config = engine.config();
    config.depth = 5;
    engine.set_config(config);
    // The stale cache is replaced at the start of the next paint.
    let _ = engine.paint(&rect);
    assert_eq!(engine.color_count(), 5);
}
