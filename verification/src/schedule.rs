//! The per-depth color schedule: one color per fractal generation, produced
//! by decaying a luminance accumulator until it falls under the visibility
//! floor or the configured depth is exhausted. Solid mode dims the branch
//! color; rainbow mode interpolates between two HSVA endpoints.

use vstd::prelude::*;
use vstd::arithmetic::div_mod::{
    lemma_div_is_ordered, lemma_div_multiples_vanish, lemma_div_pos_is_pos,
    lemma_fundamental_div_mod,
};
use vstd::math::abs;
use crate::color::{
    hsva_to_rgba, hsva_to_rgba_spec, lemma_lerp_bounds, lerp_fx, lerp_spec, scale_channel,
    scale_channel_spec, HsvaFx, Rgba, COLOR_SCALE,
};
use crate::config::FractalClockConfig;

verus! {

/// The luminance accumulator's start: dimmer than the hands, 0.7 of the scale.
pub const LUM_START: i64 = 700_000;

/// A luminance is visible once it rounds to at least one 8-bit step, that is
/// once it reaches half of 1/255 of the scale.
pub open spec fn lum_visible(lum: int) -> bool {
    lum * 510 >= COLOR_SCALE
}

/// One decay step: the accumulator scaled by the decay factor, truncated.
pub open spec fn lum_decay(lum: int, factor: int) -> int {
    (lum * factor) / (COLOR_SCALE as int)
}

/// The luminance accumulator after `k` decay steps.
pub open spec fn lum_at(cfg: FractalClockConfig, k: nat) -> int
    decreases k,
{
    if k == 0 {
        LUM_START as int
    } else {
        lum_decay(lum_at(cfg, (k - 1) as nat), cfg.luminance_factor as int)
    }
}

/// The divisor of the rainbow interpolation position: the configured depth,
/// at least one.
pub open spec fn rainbow_divisor(cfg: FractalClockConfig) -> int {
    if cfg.depth >= 1 {
        cfg.depth as int
    } else {
        1
    }
}

/// The interpolation position of generation `d` in rainbow mode.
pub open spec fn rainbow_t(cfg: FractalClockConfig, d: int) -> int {
    (d * (COLOR_SCALE as int)) / rainbow_divisor(cfg)
}

/// The interpolated hue of generation `d` in rainbow mode.
pub open spec fn rainbow_hue_at(cfg: FractalClockConfig, d: int) -> int {
    lerp_spec(cfg.start_hsv.h as int, cfg.end_hsv.h as int, rainbow_t(cfg, d))
}

/// The color of generation `d`, given the decayed accumulator `lum`: in
/// rainbow mode the HSVA interpolant at `d`, in solid mode the branch color
/// dimmed by `lum` (capped at one); the branch alpha passes through.
pub open spec fn schedule_color_spec(cfg: FractalClockConfig, d: int, lum: int) -> Rgba {
    if cfg.rainbow_mode {
        let t = rainbow_t(cfg, d);
        hsva_to_rgba_spec(
            HsvaFx {
                h: lerp_spec(cfg.start_hsv.h as int, cfg.end_hsv.h as int, t) as i64,
                s: lerp_spec(cfg.start_hsv.s as int, cfg.end_hsv.s as int, t) as i64,
                v: lerp_spec(cfg.start_hsv.v as int, cfg.end_hsv.v as int, t) as i64,
                a: lerp_spec(cfg.start_hsv.a as int, cfg.end_hsv.a as int, t) as i64,
            },
        )
    } else {
        let factor = if lum <= COLOR_SCALE {
            lum
        } else {
            COLOR_SCALE as int
        };
        Rgba {
            r: scale_channel_spec(cfg.branch_color.r as int, factor) as u8,
            g: scale_channel_spec(cfg.branch_color.g as int, factor) as u8,
            b: scale_channel_spec(cfg.branch_color.b as int, factor) as u8,
            a: cfg.branch_color.a,
        }
    }
}

/// The schedule from generation `d` on, with accumulator `lum`: empty once
/// the depth budget is spent or the next decayed luminance is invisible.
pub open spec fn schedule_suffix(cfg: FractalClockConfig, lum: int, d: int) -> Seq<Rgba>
    decreases cfg.depth - d,
{
    if d < 0 || d >= cfg.depth {
        Seq::empty()
    } else {
        let next = lum_decay(lum, cfg.luminance_factor as int);
        if !lum_visible(next) {
            Seq::empty()
        } else {
            seq![schedule_color_spec(cfg, d, next)] + schedule_suffix(cfg, next, d + 1)
        }
    }
}

/// The whole color schedule of a configuration.
pub open spec fn schedule_spec(cfg: FractalClockConfig) -> Seq<Rgba> {
    schedule_suffix(cfg, LUM_START as int, 0)
}

/// Decay by a factor of at most one cannot grow the accumulator or make it
/// negative.
pub proof fn lemma_lum_decay_bounds(lum: int, factor: int)
    requires
        0 <= lum,
        0 <= factor <= COLOR_SCALE,
    ensures
        0 <= lum_decay(lum, factor) <= lum,
{
    let c = COLOR_SCALE as int;
    assert(0 <= lum * factor <= lum * c) by (nonlinear_arith)
        requires
            0 <= lum,
            0 <= factor <= c,
    ;
    lemma_div_pos_is_pos(lum * factor, c);
    lemma_div_is_ordered(lum * factor, lum * c, c);
    lemma_div_multiples_vanish(lum, c);
}

/// A positive accumulator strictly shrinks under a factor strictly below one.
pub proof fn lemma_lum_decay_strict(lum: int, factor: int)
    requires
        0 < lum,
        0 <= factor < COLOR_SCALE,
    ensures
        lum_decay(lum, factor) < lum,
{
    let c = COLOR_SCALE as int;
    assert(lum * factor < lum * c) by (nonlinear_arith)
        requires
            0 < lum,
            factor < c,
    ;
    let q = (lum * factor) / c;
    let r = (lum * factor) % c;
    lemma_fundamental_div_mod(lum * factor, c);
    assert(q < lum) by (nonlinear_arith)
        requires
            lum * factor == c * q + r,
            0 <= r < c,
            lum * factor < lum * c,
    ;
}

/// The schedule never outruns the configured depth.
pub proof fn lemma_schedule_suffix_len(cfg: FractalClockConfig, lum: int, d: int)
    ensures
        schedule_suffix(cfg, lum, d).len() <= if d < 0 || d >= cfg.depth {
            0int
        } else {
            cfg.depth - d
        },
    decreases cfg.depth - d,
{
    if 0 <= d < cfg.depth {
        let next = lum_decay(lum, cfg.luminance_factor as int);
        if lum_visible(next) {
            lemma_schedule_suffix_len(cfg, next, d + 1);
        }
    }
}

/// The color schedule is never longer than the configured maximum depth.
pub proof fn lemma_schedule_len_le_depth(cfg: FractalClockConfig)
    ensures
        schedule_spec(cfg).len() <= cfg.depth,
{
    lemma_schedule_suffix_len(cfg, LUM_START as int, 0);
}

/// Within the suffix starting at step `d`, every produced generation `d + j`
/// was produced from a visible accumulator: `lum_at(d + j + 1)` is visible.
proof fn lemma_schedule_suffix_visible(cfg: FractalClockConfig, d: int, j: int)
    requires
        0 <= d,
        lum_at(cfg, d as nat) >= 0,
        0 <= j < schedule_suffix(cfg, lum_at(cfg, d as nat), d).len(),
    ensures
        lum_visible(lum_at(cfg, (d + j + 1) as nat)),
    decreases j,
{
    let next = lum_decay(lum_at(cfg, d as nat), cfg.luminance_factor as int);
    assert(next == lum_at(cfg, (d + 1) as nat));
    if j == 0 {
    } else {
        lemma_schedule_suffix_visible(cfg, d + 1, j - 1);
    }
}

/// Within the suffix starting at step `d`, entry `j` is the color of
/// generation `d + j` under the accumulator decayed `d + j + 1` times.
proof fn lemma_schedule_suffix_entry(cfg: FractalClockConfig, d: int, j: int)
    requires
        0 <= d,
        0 <= j < schedule_suffix(cfg, lum_at(cfg, d as nat), d).len(),
    ensures
        schedule_suffix(cfg, lum_at(cfg, d as nat), d)[j] == schedule_color_spec(
            cfg,
            d + j,
            lum_at(cfg, (d + j + 1) as nat),
        ),
    decreases j,
{
    let next = lum_decay(lum_at(cfg, d as nat), cfg.luminance_factor as int);
    assert(next == lum_at(cfg, (d + 1) as nat));
    if j > 0 {
        lemma_schedule_suffix_entry(cfg, d + 1, j - 1);
    }
}

/// Each schedule entry is the color of its generation under the luminance
/// accumulator decayed once per generation so far: entry `j` uses
/// `lum_at(j + 1)`.
pub proof fn lemma_schedule_entry_color(cfg: FractalClockConfig, j: int)
    requires
        0 <= j < schedule_spec(cfg).len(),
    ensures
        schedule_spec(cfg)[j] == schedule_color_spec(cfg, j, lum_at(cfg, (j + 1) as nat)),
{
    lemma_schedule_suffix_entry(cfg, 0, j);
}

/// Every generation the schedule holds was produced from a visible
/// accumulator.
pub proof fn lemma_schedule_visible(cfg: FractalClockConfig, j: int)
    requires
        0 <= j < schedule_spec(cfg).len(),
    ensures
        lum_visible(lum_at(cfg, (j + 1) as nat)),
{
    lemma_schedule_suffix_visible(cfg, 0, j);
}

/// The accumulator never leaves `[0, LUM_START]`.
pub proof fn lemma_lum_at_bounds(cfg: FractalClockConfig, k: nat)
    requires
        0 <= cfg.luminance_factor <= COLOR_SCALE,
    ensures
        0 <= lum_at(cfg, k) <= LUM_START,
    decreases k,
{
    if k > 0 {
        lemma_lum_at_bounds(cfg, (k - 1) as nat);
        lemma_lum_decay_bounds(lum_at(cfg, (k - 1) as nat), cfg.luminance_factor as int);
    }
}

/// Solid-mode dimming law: under a decay factor strictly below one, the
/// luminance of each schedule generation is strictly below the previous
/// generation's. A factor of exactly one keeps the luminance constant
/// instead, so it is left out.
pub proof fn lemma_luminance_strictly_decreasing(cfg: FractalClockConfig, k: int)
    requires
        cfg.valid(),
        cfg.luminance_factor < COLOR_SCALE,
        0 <= k,
        k + 1 < schedule_spec(cfg).len(),
    ensures
        lum_at(cfg, (k + 2) as nat) < lum_at(cfg, (k + 1) as nat),
{
    lemma_schedule_visible(cfg, k + 1);
    lemma_lum_at_bounds(cfg, (k + 1) as nat);
    let lum = lum_at(cfg, (k + 1) as nat);
    if lum == 0 {
        lemma_lum_decay_bounds(lum, cfg.luminance_factor as int);
        assert(lum_at(cfg, (k + 2) as nat) <= 0);
        assert(!lum_visible(lum_at(cfg, (k + 2) as nat)));
        assert(false);
    }
    lemma_lum_decay_strict(lum, cfg.luminance_factor as int);
}

/// A decay factor of zero silences the schedule: the first decayed luminance
/// is already invisible, so no generation is produced.
pub proof fn lemma_zero_factor_empty_schedule(cfg: FractalClockConfig)
    requires
        cfg.luminance_factor == 0,
    ensures
        schedule_spec(cfg).len() == 0,
{
    if cfg.depth > 0 {
        assert((LUM_START as int) * 0 == 0) by (nonlinear_arith);
        assert(lum_decay(LUM_START as int, 0) == 0);
    }
}

/// A depth of zero empties the schedule outright.
pub proof fn lemma_zero_depth_empty_schedule(cfg: FractalClockConfig)
    requires
        cfg.depth == 0,
    ensures
        schedule_spec(cfg).len() == 0,
{
}

/// Rainbow spacing law: scaled by the configured depth `N`, the hue of
/// generation `d` stays within `2 N` scale units of the exact line from the
/// start hue to the end hue, so the hues are evenly spaced between the two
/// endpoints up to truncation.
pub proof fn lemma_rainbow_hue_spacing(cfg: FractalClockConfig, d: int)
    requires
        cfg.valid(),
        cfg.rainbow_mode,
        1 <= cfg.depth,
        0 <= d < cfg.depth,
    ensures
        abs(
            cfg.depth * rainbow_hue_at(cfg, d) - (cfg.depth * cfg.start_hsv.h + d * (cfg.end_hsv.h
                - cfg.start_hsv.h)),
        ) <= 2 * cfg.depth,
{
    let c = COLOR_SCALE as int;
    let n = cfg.depth as int;
    let s = cfg.start_hsv.h as int;
    let e = cfg.end_hsv.h as int;
    let t = rainbow_t(cfg, d);
    assert(rainbow_divisor(cfg) == n);
    lemma_fundamental_div_mod(d * c, n);
    let rt = (d * c) % n;
    assert(d * c == n * t + rt);
    assert(0 <= rt < n);
    assert(0 <= t <= c) by {
        lemma_div_pos_is_pos(d * c, n);
        assert(d * c <= n * c) by (nonlinear_arith)
            requires
                d < n,
                c > 0,
        ;
        lemma_div_is_ordered(d * c, n * c, n);
        assert((n * c) / n == c) by {
            vstd::arithmetic::div_mod::lemma_div_multiples_vanish(c, n);
        }
    }
    if e >= s {
        let dd = e - s;
        let q = (dd * t) / c;
        lemma_fundamental_div_mod(dd * t, c);
        let rq = (dd * t) % c;
        assert(dd * t == c * q + rq);
        assert(rainbow_hue_at(cfg, d) == s + q);
        // n * (dd * t) is within n * c of dd * (d * c), and dd <= c.
        assert(n * (dd * t) == dd * (n * t)) by (nonlinear_arith);
        assert(dd * (n * t) == dd * (d * c) - dd * rt) by (nonlinear_arith)
            requires
                n * t == d * c - rt,
        ;
        assert(0 <= dd * rt <= c * n) by (nonlinear_arith)
            requires
                0 <= dd <= c,
                0 <= rt < n,
        ;
        assert(n * (c * q) == c * (n * q)) by (nonlinear_arith);
        assert(n * (dd * t) == n * (c * q) + n * rq) by (nonlinear_arith)
            requires
                dd * t == c * q + rq,
        ;
        assert(0 <= n * rq <= n * c) by (nonlinear_arith)
            requires
                0 <= rq < c,
                n >= 1,
        ;
        assert(dd * (d * c) == c * (d * dd)) by (nonlinear_arith);
        // c * (n * q) == c * (d * dd) - dd * rt - n * rq, both offsets in [0, 2 c n].
        assert(c * (n * q) >= c * (d * dd) - 2 * c * n && c * (n * q) <= c * (d * dd))
            by (nonlinear_arith)
            requires
                c * (n * q) == dd * (d * c) - dd * rt - n * rq,
                dd * (d * c) == c * (d * dd),
                0 <= dd * rt <= c * n,
                0 <= n * rq <= n * c,
        ;
        assert(n * q >= d * dd - 2 * n && n * q <= d * dd) by (nonlinear_arith)
            requires
                c * (n * q) >= c * (d * dd) - 2 * c * n,
                c * (n * q) <= c * (d * dd),
                c > 0,
        ;
        assert(n * (s + q) - (n * s + d * dd) == n * q - d * dd) by (nonlinear_arith);
    } else {
        let dd = s - e;
        let q = (dd * t) / c;
        lemma_fundamental_div_mod(dd * t, c);
        let rq = (dd * t) % c;
        assert(rainbow_hue_at(cfg, d) == s - q);
        assert(n * (dd * t) == dd * (n * t)) by (nonlinear_arith);
        assert(dd * (n * t) == dd * (d * c) - dd * rt) by (nonlinear_arith)
            requires
                n * t == d * c - rt,
        ;
        assert(0 <= dd * rt <= c * n) by (nonlinear_arith)
            requires
                0 <= dd <= c,
                0 <= rt < n,
        ;
        assert(n * (c * q) == c * (n * q)) by (nonlinear_arith);
        assert(n * (dd * t) == n * (c * q) + n * rq) by (nonlinear_arith)
            requires
                dd * t == c * q + rq,
        ;
        assert(0 <= n * rq <= n * c) by (nonlinear_arith)
            requires
                0 <= rq < c,
                n >= 1,
        ;
        assert(dd * (d * c) == c * (d * dd)) by (nonlinear_arith);
        assert(c * (n * q) >= c * (d * dd) - 2 * c * n && c * (n * q) <= c * (d * dd))
            by (nonlinear_arith)
            requires
                c * (n * q) == dd * (d * c) - dd * rt - n * rq,
                dd * (d * c) == c * (d * dd),
                0 <= dd * rt <= c * n,
                0 <= n * rq <= n * c,
        ;
        assert(n * q >= d * dd - 2 * n && n * q <= d * dd) by (nonlinear_arith)
            requires
                c * (n * q) >= c * (d * dd) - 2 * c * n,
                c * (n * q) <= c * (d * dd),
                c > 0,
        ;
        assert(n * (s - q) - (n * s + d * (e - s)) == d * dd - n * q) by (nonlinear_arith)
            requires
                dd == s - e,
        ;
    }
}

/// The color of one generation, from the configuration and the already
/// decayed luminance accumulator.
fn schedule_color(config: &FractalClockConfig, d: usize, lum: i64) -> (c: Rgba)
    requires
        config.valid(),
        d < config.depth,
        0 <= lum <= LUM_START,
    ensures
        c == schedule_color_spec(*config, d as int, lum as int),
{
    if config.rainbow_mode {
        let divd: usize = if config.depth >= 1 {
            config.depth
        } else {
            1
        };
        let t: i64 = (((d as u64) * (COLOR_SCALE as u64)) / (divd as u64)) as i64;
        proof {
            lemma_div_pos_is_pos((d as int) * (COLOR_SCALE as int), divd as int);
            assert((d as int) * (COLOR_SCALE as int) <= (divd as int) * (COLOR_SCALE as int))
                by (nonlinear_arith)
                requires
                    d < divd || d <= divd,
                    d <= divd,
            ;
            lemma_div_is_ordered(
                (d as int) * (COLOR_SCALE as int),
                (divd as int) * (COLOR_SCALE as int),
                divd as int,
            );
            lemma_div_multiples_vanish(COLOR_SCALE as int, divd as int);
            assert(t == rainbow_t(*config, d as int));
            lemma_lerp_bounds(config.start_hsv.h as int, config.end_hsv.h as int, t as int);
        }
        let h: i64 = lerp_fx(config.start_hsv.h, config.end_hsv.h, t);
        let s: i64 = lerp_fx(config.start_hsv.s, config.end_hsv.s, t);
        let v: i64 = lerp_fx(config.start_hsv.v, config.end_hsv.v, t);
        let a: i64 = lerp_fx(config.start_hsv.a, config.end_hsv.a, t);
        let hsva = HsvaFx { h, s, v, a };
        proof {
            assert(hsva.valid());
        }
        hsva_to_rgba(&hsva)
    } else {
        let factor: i64 = if lum <= COLOR_SCALE {
            lum
        } else {
            COLOR_SCALE
        };
        Rgba {
            r: scale_channel(config.branch_color.r, factor),
            g: scale_channel(config.branch_color.g, factor),
            b: scale_channel(config.branch_color.b, factor),
            a: config.branch_color.a,
        }
    }
}

/// Recomputes the per-depth colors for a configuration: decay the luminance
/// accumulator once per generation, stop at the visibility floor or the
/// depth budget, and record each generation's color.
pub fn update_colors(depth_colors: &mut Vec<Rgba>, config: &FractalClockConfig)
    requires
        config.valid(),
    ensures
        final(depth_colors)@ == schedule_spec(*config),
{
    depth_colors.clear();
    let mut lum: i64 = LUM_START;
    let mut d: usize = 0;
    let mut done: bool = false;
    while d < config.depth && !done
        invariant
            config.valid(),
            d <= config.depth,
            0 <= lum <= LUM_START,
            depth_colors@.len() == d,
            !done ==> depth_colors@ + schedule_suffix(*config, lum as int, d as int)
                == schedule_spec(*config),
            done ==> depth_colors@ == schedule_spec(*config),
        decreases config.depth - d, if done { 0int } else { 1int },
    {
        proof {
            lemma_lum_decay_bounds(lum as int, config.luminance_factor as int);
        }
        let next: i64 = (((lum as u64) * (config.luminance_factor as u64)) / (
        COLOR_SCALE as u64)) as i64;
        proof {
            assert(next == lum_decay(lum as int, config.luminance_factor as int));
        }
        if (next as u64) * 510 < (COLOR_SCALE as u64) {
            proof {
                assert(!lum_visible(next as int));
                assert(schedule_suffix(*config, lum as int, d as int) =~= Seq::<Rgba>::empty());
            }
            done = true;
        } else {
            let color = schedule_color(config, d, next);
            proof {
                assert(schedule_suffix(*config, lum as int, d as int) == seq![
                    schedule_color_spec(*config, d as int, next as int),
                ] + schedule_suffix(*config, next as int, d as int + 1));
            }
            depth_colors.push(color);
            proof {
                assert(depth_colors@ + schedule_suffix(*config, next as int, d as int + 1)
                    =~= schedule_spec(*config));
            }
            lum = next;
            d = d + 1;
        }
    }
    proof {
        if !done {
            assert(schedule_suffix(*config, lum as int, d as int) =~= Seq::<Rgba>::empty());
            assert(depth_colors@ =~= schedule_spec(*config));
        }
    }
}

} // verus!
