//! The fractal clock engine: it owns the configuration, the frozen-or-live
//! time of day, and the cached color schedule, and emits one frame of
//! segments per `paint` call.

use vstd::prelude::*;
use crate::clock::{now_ms_since_midnight, MS_PER_DAY};
use crate::color::Rgba;
use crate::config::{FractalClockConfig, MAX_DEPTH};
use crate::fixed::{fx_mul, lemma_fx_product_limit, FX_ONE};
use crate::geom::{
    map_apply, map_wf, pos_add_vec, pos_bounded, rect_from_two_pos, rect_wf, rects_intersect,
    rotor_apply, rotor_bounded, screen_map, vec_bounded, Pos2Fx, RectFx, Rotor, ScreenMap,
    POS_LIMIT,
};
use crate::render::{
    branch_segments_spec, child_spec, children_spec, generation_spec, hand_angle, hand_rotor,
    hand_segments_spec, hands_spec, hands_wf, init_nodes_spec, lemma_child_bounded,
    lemma_pow2_mono, lemma_pow2_21, lemma_width_at_bounds, next_generation_spec, nodes_bounded,
    pow2_spec, render_spec, rotor_level_segments, rotors_spec, width_at_spec, Hand, Hands, Node,
    Segment, HOUR_HAND_LENGTH, HOUR_PERIOD_MS, MINUTE_PERIOD_MS, SECOND_PERIOD_MS,
};
use crate::schedule::{lemma_schedule_len_le_depth, schedule_spec, update_colors};

verus! {

/// The engine: one long-lived instance owned by the host, painted once per
/// displayed frame. The host reaches the paused flag, the configuration and
/// the window toggles through getters and setters; the time and the schedule
/// cache are the engine's own.
pub struct FractalClock {
    paused: bool,
    time_ms: u64,
    config: FractalClockConfig,
    line_count: usize,
    depth_colors: Vec<Rgba>,
    colors_for: Option<FractalClockConfig>,
    fullscreen: bool,
    transparent_background: bool,
}

impl FractalClock {
    /// The engine's internal invariant: the time is a valid time of day, and
    /// a cached color schedule is the schedule of the configuration it was
    /// computed for.
    pub closed spec fn wf(self) -> bool {
        &&& self.time_ms < MS_PER_DAY
        &&& match self.colors_for {
            Some(c) => c.valid() && self.depth_colors@ == schedule_spec(c),
            None => true,
        }
    }

    /// The frozen-or-live time of day, in milliseconds since midnight.
    pub closed spec fn time_of_day(self) -> int {
        self.time_ms as int
    }

    /// Whether `update` freezes the time.
    pub closed spec fn paused_spec(self) -> bool {
        self.paused
    }

    /// The parameters the next frame uses.
    pub closed spec fn config_spec(self) -> FractalClockConfig {
        self.config
    }

    /// How many segments the last `paint` emitted.
    pub closed spec fn line_count_spec(self) -> int {
        self.line_count as int
    }

    /// The cached per-generation colors.
    pub closed spec fn cached_colors(self) -> Seq<Rgba> {
        self.depth_colors@
    }

    /// Whether the host should run full screen.
    pub closed spec fn fullscreen_spec(self) -> bool {
        self.fullscreen
    }

    /// Whether the host should clear to a transparent background.
    pub closed spec fn transparent_background_spec(self) -> bool {
        self.transparent_background
    }

    /// Everything the host can observe of the engine but the schedule cache:
    /// two engines alike in this render alike.
    pub open spec fn same_but_cache(self, other: FractalClock) -> bool {
        &&& self.paused_spec() == other.paused_spec()
        &&& self.time_of_day() == other.time_of_day()
        &&& self.config_spec() == other.config_spec()
        &&& self.line_count_spec() == other.line_count_spec()
        &&& self.fullscreen_spec() == other.fullscreen_spec()
        &&& self.transparent_background_spec() == other.transparent_background_spec()
    }

    /// Whether `update` freezes the time.
    pub fn paused(&self) -> (p: bool)
        ensures
            p == self.paused_spec(),
    {
        self.paused
    }

    /// Freezes or resumes the animation.
    pub fn set_paused(&mut self, paused: bool)
        requires
            old(self).wf(),
        ensures
            final(self).wf(),
            final(self).paused_spec() == paused,
            final(self).time_of_day() == old(self).time_of_day(),
            final(self).config_spec() == old(self).config_spec(),
            final(self).line_count_spec() == old(self).line_count_spec(),
            final(self).cached_colors() == old(self).cached_colors(),
            final(self).fullscreen_spec() == old(self).fullscreen_spec(),
            final(self).transparent_background_spec() == old(self).transparent_background_spec(),
    {
        self.paused = paused;
    }

    /// The parameters the next frame uses.
    pub fn config(&self) -> (c: FractalClockConfig)
        ensures
            c == self.config_spec(),
    {
        self.config
    }

    /// Replaces the configuration; `paint` recomputes the color schedule on
    /// its next call when this changed it.
    pub fn set_config(&mut self, config: FractalClockConfig)
        requires
            old(self).wf(),
        ensures
            final(self).wf(),
            final(self).config_spec() == config,
            final(self).paused_spec() == old(self).paused_spec(),
            final(self).time_of_day() == old(self).time_of_day(),
            final(self).line_count_spec() == old(self).line_count_spec(),
            final(self).cached_colors() == old(self).cached_colors(),
            final(self).fullscreen_spec() == old(self).fullscreen_spec(),
            final(self).transparent_background_spec() == old(self).transparent_background_spec(),
    {
        self.config = config;
    }

    /// Whether the host should run full screen.
    pub fn fullscreen(&self) -> (f: bool)
        ensures
            f == self.fullscreen_spec(),
    {
        self.fullscreen
    }

    /// Stores the full-screen toggle for the host.
    pub fn set_fullscreen(&mut self, fullscreen: bool)
        requires
            old(self).wf(),
        ensures
            final(self).wf(),
            final(self).fullscreen_spec() == fullscreen,
            final(self).paused_spec() == old(self).paused_spec(),
            final(self).time_of_day() == old(self).time_of_day(),
            final(self).config_spec() == old(self).config_spec(),
            final(self).line_count_spec() == old(self).line_count_spec(),
            final(self).cached_colors() == old(self).cached_colors(),
            final(self).transparent_background_spec() == old(self).transparent_background_spec(),
    {
        self.fullscreen = fullscreen;
    }

    /// Whether the host should clear to a transparent background.
    pub fn transparent_background(&self) -> (t: bool)
        ensures
            t == self.transparent_background_spec(),
    {
        self.transparent_background
    }

    /// Stores the background toggle for the host.
    pub fn set_transparent_background(&mut self, transparent: bool)
        requires
            old(self).wf(),
        ensures
            final(self).wf(),
            final(self).transparent_background_spec() == transparent,
            final(self).paused_spec() == old(self).paused_spec(),
            final(self).time_of_day() == old(self).time_of_day(),
            final(self).config_spec() == old(self).config_spec(),
            final(self).line_count_spec() == old(self).line_count_spec(),
            final(self).cached_colors() == old(self).cached_colors(),
            final(self).fullscreen_spec() == old(self).fullscreen_spec(),
    {
        self.transparent_background = transparent;
    }

    /// The time of day the next frame would use.
    pub fn time_of_day_ms(&self) -> (ms: u64)
        ensures
            ms as int == self.time_of_day(),
    {
        self.time_ms
    }

    /// How many segments the last `paint` emitted.
    pub fn painted_line_count(&self) -> (n: usize)
        ensures
            n as int == self.line_count_spec(),
    {
        self.line_count
    }

    /// How many generations the cached color schedule holds.
    pub fn color_count(&self) -> (n: usize)
        ensures
            n == self.cached_colors().len(),
    {
        self.depth_colors.len()
    }

    /// The cached color of generation `i`.
    pub fn color_at(&self, i: usize) -> (c: Rgba)
        requires
            i < self.cached_colors().len(),
        ensures
            c == self.cached_colors()[i as int],
    {
        self.depth_colors[i]
    }

    /// Freezes the time at the given value, wrapped onto a valid time of day.
    pub fn set_time(&mut self, ms: u64)
        requires
            old(self).wf(),
        ensures
            final(self).wf(),
            final(self).time_of_day() == (ms as int) % (MS_PER_DAY as int),
            final(self).paused_spec() == old(self).paused_spec(),
            final(self).config_spec() == old(self).config_spec(),
            final(self).line_count_spec() == old(self).line_count_spec(),
            final(self).cached_colors() == old(self).cached_colors(),
            final(self).fullscreen_spec() == old(self).fullscreen_spec(),
            final(self).transparent_background_spec() == old(self).transparent_background_spec(),
    {
        self.time_ms = ms % MS_PER_DAY;
    }

    /// One animation step: while running, samples the live clock; while
    /// paused, changes nothing. On leaving a pause the time resumes from the
    /// live clock, not from where it stopped.
    pub fn update(&mut self)
        requires
            old(self).wf(),
        ensures
            final(self).wf(),
            old(self).paused_spec() ==> *final(self) == *old(self),
            final(self).paused_spec() == old(self).paused_spec(),
            final(self).config_spec() == old(self).config_spec(),
            final(self).line_count_spec() == old(self).line_count_spec(),
            final(self).cached_colors() == old(self).cached_colors(),
            final(self).fullscreen_spec() == old(self).fullscreen_spec(),
            final(self).transparent_background_spec() == old(self).transparent_background_spec(),
            0 <= final(self).time_of_day() < MS_PER_DAY,
    {
        if !self.paused {
            self.time_ms = now_ms_since_midnight();
        }
    }

    /// Recomputes the cached color schedule for the current configuration.
    pub fn compute_colors(&mut self)
        requires
            old(self).config_spec().valid(),
            old(self).wf(),
        ensures
            final(self).wf(),
            final(self).cached_colors() == schedule_spec(old(self).config_spec()),
            final(self).same_but_cache(*old(self)),
    {
        update_colors(&mut self.depth_colors, &self.config);
        self.colors_for = Some(self.config);
    }

    /// The three hands at the engine's time of day.
    pub fn create_hands(&self) -> (hands: Hands)
        requires
            self.config_spec().valid(),
        ensures
            hands == hands_spec(self.config_spec(), self.time_of_day()),
            hands_wf(hands),
    {
        let second_angle: u64 = hand_angle(self.time_ms, SECOND_PERIOD_MS);
        let minute_angle: u64 = hand_angle(self.time_ms, MINUTE_PERIOD_MS);
        let hour_angle: u64 = hand_angle(self.time_ms, HOUR_PERIOD_MS);
        Hands {
            second: Hand::from_length_angle(self.config.length_factor, second_angle),
            minute: Hand::from_length_angle(self.config.length_factor, minute_angle),
            hour: Hand::from_length_angle(HOUR_HAND_LENGTH, hour_angle),
        }
    }

    /// The rotors of the two free hands; the hour hand is the reference
    /// frame.
    pub fn calculate_hand_rotors(&self, hands: &Hands) -> (rotors: (Rotor, Rotor))
        requires
            hands_wf(*hands),
        ensures
            rotors == rotors_spec(*hands),
            rotor_bounded(rotors.0),
            rotor_bounded(rotors.1),
    {
        (hand_rotor(&hands.second, &hands.hour), hand_rotor(&hands.minute, &hands.hour))
    }

    /// Draws the three hands into `shapes` (those whose bounding box meets
    /// the clip rectangle) and seeds `nodes` with the two free hand tips.
    fn draw_hands(
        &self,
        hands: &Hands,
        map: &ScreenMap,
        rect: &RectFx,
        shapes: &mut Vec<Segment>,
        nodes: &mut Vec<Node>,
        line_count: &mut usize,
    )
        requires
            self.config.valid(),
            hands_wf(*hands),
            map_wf(*map),
            old(shapes)@.len() == 0,
            old(nodes)@.len() == 0,
            *old(line_count) == 0,
        ensures
            final(shapes)@ == hand_segments_spec(
                *map,
                *rect,
                *hands,
                self.config.start_line_width,
                self.config.hand_color,
            ),
            final(nodes)@ == init_nodes_spec(*hands),
            *final(line_count) == final(shapes)@.len(),
            nodes_bounded(final(nodes)@, FX_ONE as int, 2 * (FX_ONE as int)),
    {
        let width: i64 = self.config.start_line_width;
        let color: Rgba = self.config.hand_color;
        let center = Pos2Fx { x: 0, y: 0 };
        let screen_center = map_apply(map, &center);
        let end_second = Pos2Fx { x: hands.second.vec.x, y: hands.second.vec.y };
        let tip_second = map_apply(map, &end_second);
        let bb_second = rect_from_two_pos(&screen_center, &tip_second);
        if rects_intersect(&bb_second, rect) {
            shapes.push(Segment { a: screen_center, b: tip_second, width, color });
        }
        *line_count = shapes.len();
        nodes.push(Node { pos: end_second, dir: hands.second.vec });
        let end_minute = Pos2Fx { x: hands.minute.vec.x, y: hands.minute.vec.y };
        let tip_minute = map_apply(map, &end_minute);
        let bb_minute = rect_from_two_pos(&screen_center, &tip_minute);
        if rects_intersect(&bb_minute, rect) {
            shapes.push(Segment { a: screen_center, b: tip_minute, width, color });
        }
        *line_count = shapes.len();
        nodes.push(Node { pos: end_minute, dir: hands.minute.vec });
        let end_hour = Pos2Fx { x: hands.hour.vec.x, y: hands.hour.vec.y };
        let tip_hour = map_apply(map, &end_hour);
        let bb_hour = rect_from_two_pos(&screen_center, &tip_hour);
        if rects_intersect(&bb_hour, rect) {
            shapes.push(Segment { a: screen_center, b: tip_hour, width, color });
        }
        *line_count = shapes.len();
        proof {
            assert(shapes@ =~= hand_segments_spec(*map, *rect, *hands, width, color));
            assert(nodes@ =~= init_nodes_spec(*hands));
        }
    }

    /// One rotor's pass over the current generation: appends each node's
    /// child to `next` and the visible segments to `shapes`.
    fn rotor_pass(
        map: &ScreenMap,
        rect: &RectFx,
        cur: &Vec<Node>,
        r: &Rotor,
        color: Rgba,
        width: i64,
        db: Ghost<int>,
        next: &mut Vec<Node>,
        shapes: &mut Vec<Segment>,
        line_count: &mut usize,
    )
        requires
            rotor_bounded(*r),
            map_wf(*map),
            0 <= db@,
            4 * db@ <= POS_LIMIT,
            nodes_bounded(cur@, db@, 2 * db@),
            nodes_bounded(old(next)@, 2 * db@, 4 * db@),
            *old(line_count) == old(shapes)@.len(),
        ensures
            final(next)@ == old(next)@ + children_spec(cur@, *r),
            final(shapes)@ == old(shapes)@ + rotor_level_segments(
                *map,
                *rect,
                cur@,
                *r,
                color,
                width,
            ),
            *final(line_count) == final(shapes)@.len(),
            nodes_bounded(final(next)@, 2 * db@, 4 * db@),
    {
        let ghost next_base = next@;
        let ghost shapes_base = shapes@;
        let mut i: usize = 0;
        while i < cur.len()
            invariant
                i <= cur@.len(),
                rotor_bounded(*r),
                map_wf(*map),
                0 <= db@,
                4 * db@ <= POS_LIMIT,
                nodes_bounded(cur@, db@, 2 * db@),
                next@ == next_base + children_spec(cur@.take(i as int), *r),
                shapes@ == shapes_base + rotor_level_segments(
                    *map,
                    *rect,
                    cur@.take(i as int),
                    *r,
                    color,
                    width,
                ),
                *line_count == shapes@.len(),
                nodes_bounded(next@, 2 * db@, 4 * db@),
            decreases cur@.len() - i,
        {
            let node: Node = cur[i];
            proof {
                assert(vec_bounded(node.dir, db@) && pos_bounded(node.pos, 2 * db@));
                lemma_child_bounded(*r, node, db@, 2 * db@);
            }
            let new_dir = rotor_apply(r, &node.dir);
            let new_pos = pos_add_vec(&node.pos, &new_dir);
            let new_node = Node { pos: new_pos, dir: new_dir };
            proof {
                assert(new_node == child_spec(*r, node));
                assert(pos_bounded(new_pos, POS_LIMIT as int));
            }
            let a = map_apply(map, &node.pos);
            let b = map_apply(map, &new_pos);
            let seg = Segment { a, b, width, color };
            let bb = rect_from_two_pos(&a, &b);
            if rects_intersect(&bb, rect) {
                shapes.push(seg);
            }
            *line_count = shapes.len();
            next.push(new_node);
            proof {
                assert(cur@.take(i + 1).drop_last() =~= cur@.take(i as int));
                assert(cur@.take(i + 1).last() == cur@[i as int]);
                assert(next@ =~= next_base + children_spec(cur@.take(i + 1), *r));
                assert(shapes@ =~= shapes_base + rotor_level_segments(
                    *map,
                    *rect,
                    cur@.take(i + 1),
                    *r,
                    color,
                    width,
                ));
            }
            i = i + 1;
        }
        proof {
            assert(cur@.take(cur@.len() as int) =~= cur@);
        }
    }

    /// Expands the fractal one generation per scheduled color, drawing the
    /// visible segments of each generation: each node spawns one child per
    /// rotor, generations double-buffer through `cur` and `next`, and the
    /// stroke width decays once per generation.
    fn draw_fractal_branches(
        &self,
        rotors: &(Rotor, Rotor),
        map: &ScreenMap,
        rect: &RectFx,
        nodes: Vec<Node>,
        shapes: &mut Vec<Segment>,
        line_count: &mut usize,
    )
        requires
            self.config.valid(),
            self.depth_colors@ == schedule_spec(self.config),
            rotor_bounded(rotors.0),
            rotor_bounded(rotors.1),
            map_wf(*map),
            nodes_bounded(nodes@, FX_ONE as int, 2 * (FX_ONE as int)),
            *old(line_count) == old(shapes)@.len(),
        ensures
            final(shapes)@ == old(shapes)@ + branch_segments_spec(
                *map,
                *rect,
                nodes@,
                rotors.0,
                rotors.1,
                schedule_spec(self.config),
                self.config.start_line_width,
                self.config.width_factor,
                schedule_spec(self.config).len(),
            ),
            *final(line_count) == final(shapes)@.len(),
    {
        let ghost schedule = schedule_spec(self.config);
        let ghost init = nodes@;
        let ghost base = shapes@;
        let r0: Rotor = rotors.0;
        let r1: Rotor = rotors.1;
        let w0: i64 = self.config.start_line_width;
        let decay: i64 = self.config.width_factor;
        let mut cur: Vec<Node> = nodes;
        let mut next: Vec<Node> = Vec::new();
        let mut width: i64 = w0;
        let count: usize = self.depth_colors.len();
        proof {
            lemma_schedule_len_le_depth(self.config);
            assert(count <= MAX_DEPTH);
        }
        let mut level: usize = 0;
        while level < count
            invariant
                self.config.valid(),
                self.depth_colors@ == schedule,
                schedule == schedule_spec(self.config),
                count == schedule.len(),
                count <= MAX_DEPTH,
                rotor_bounded(r0),
                rotor_bounded(r1),
                map_wf(*map),
                w0 == self.config.start_line_width,
                decay == self.config.width_factor,
                level <= count,
                width == width_at_spec(w0, decay, level as nat),
                0 <= width <= 5 * FX_ONE,
                cur@ == generation_spec(init, r0, r1, level as nat),
                nodes_bounded(
                    cur@,
                    (FX_ONE as int) * pow2_spec(level as nat),
                    2 * ((FX_ONE as int) * pow2_spec(level as nat)),
                ),
                shapes@ == base + branch_segments_spec(
                    *map,
                    *rect,
                    init,
                    r0,
                    r1,
                    schedule,
                    w0,
                    decay,
                    level as nat,
                ),
                *line_count == shapes@.len(),
            decreases count - level,
        {
            next.clear();
            proof {
                lemma_width_at_bounds(w0, decay, (level + 1) as nat);
                lemma_fx_product_limit(
                    width as int,
                    decay as int,
                    5 * (FX_ONE as int),
                    FX_ONE as int,
                );
            }
            width = fx_mul(width, decay);
            let color: Rgba = self.depth_colors[level];
            let ghost db = (FX_ONE as int) * pow2_spec(level as nat);
            proof {
                lemma_pow2_mono(level as nat, 21);
                lemma_pow2_21();
                assert(4 * db <= POS_LIMIT);
            }
            Self::rotor_pass(
                map,
                rect,
                &cur,
                &r0,
                color,
                width,
                Ghost(db),
                &mut next,
                shapes,
                line_count,
            );
            Self::rotor_pass(
                map,
                rect,
                &cur,
                &r1,
                color,
                width,
                Ghost(db),
                &mut next,
                shapes,
                line_count,
            );
            proof {
                assert(next@ == next_generation_spec(cur@, r0, r1));
                assert(next@ == generation_spec(init, r0, r1, (level + 1) as nat));
                assert(shapes@ =~= base + branch_segments_spec(
                    *map,
                    *rect,
                    init,
                    r0,
                    r1,
                    schedule,
                    w0,
                    decay,
                    (level + 1) as nat,
                ));
                assert(pow2_spec((level + 1) as nat) == 2 * pow2_spec(level as nat));
                assert((FX_ONE as int) * pow2_spec((level + 1) as nat) == 2 * db)
                    by (nonlinear_arith)
                    requires
                        db == (FX_ONE as int) * pow2_spec(level as nat),
                        pow2_spec((level + 1) as nat) == 2 * pow2_spec(level as nat),
                ;
                assert(nodes_bounded(
                    next@,
                    (FX_ONE as int) * pow2_spec((level + 1) as nat),
                    2 * ((FX_ONE as int) * pow2_spec((level + 1) as nat)),
                ));
            }
            std::mem::swap(&mut cur, &mut next);
            level = level + 1;
        }
    }

    /// Paints one frame: recomputes the color schedule if the configuration
    /// changed since it was cached, then emits the visible hand and branch
    /// segments for the current time of day, and records how many there are.
    pub fn paint(&mut self, rect: &RectFx) -> (shapes: Vec<Segment>)
        requires
            old(self).wf(),
            old(self).config_spec().valid(),
            rect_wf(*rect),
        ensures
            final(self).wf(),
            shapes@ == render_spec(old(self).config_spec(), old(self).time_of_day(), *rect),
            final(self).line_count_spec() == shapes@.len(),
            final(self).cached_colors() == schedule_spec(old(self).config_spec()),
            final(self).paused_spec() == old(self).paused_spec(),
            final(self).config_spec() == old(self).config_spec(),
            final(self).time_of_day() == old(self).time_of_day(),
            final(self).fullscreen_spec() == old(self).fullscreen_spec(),
            final(self).transparent_background_spec() == old(self).transparent_background_spec(),
    {
        let needs_recompute: bool = match &self.colors_for {
            Option::None => true,
            Option::Some(cached) => !(*cached == self.config),
        };
        if needs_recompute {
            self.compute_colors();
        }
        let map = screen_map(rect, self.config.zoom);
        let mut shapes: Vec<Segment> = Vec::new();
        let mut nodes: Vec<Node> = Vec::new();
        let mut line_count: usize = 0;
        let hands = self.create_hands();
        let rotors = self.calculate_hand_rotors(&hands);
        self.draw_hands(&hands, &map, rect, &mut shapes, &mut nodes, &mut line_count);
        self.draw_fractal_branches(&rotors, &map, rect, nodes, &mut shapes, &mut line_count);
        self.line_count = line_count;
        shapes
    }
}

impl Default for FractalClock {
    /// A running clock at the live time of day, with the default
    /// configuration and an empty schedule cache.
    fn default() -> (c: FractalClock)
        ensures
            c.wf(),
            c.paused_spec() == false,
            c.config_spec() == FractalClockConfig::default_spec(),
            c.config_spec().valid(),
            c.line_count_spec() == 0,
            c.cached_colors() == Seq::<Rgba>::empty(),
            c.fullscreen_spec() == false,
            c.transparent_background_spec() == true,
            0 <= c.time_of_day() < MS_PER_DAY,
    {
        let c = FractalClock {
            paused: false,
            time_ms: now_ms_since_midnight(),
            config: FractalClockConfig::default(),
            line_count: 0,
            depth_colors: Vec::new(),
            colors_for: None,
            fullscreen: false,
            transparent_background: true,
        };
        proof {
            assert(c.depth_colors@ =~= Seq::<Rgba>::empty());
        }
        c
    }
}

} // verus!
