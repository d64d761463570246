//! The frame pipeline: hand angles from the time of day, hand vectors, the
//! two rotors, the per-generation fractal expansion, visibility culling, and
//! the drawable segments a frame emits.

use vstd::prelude::*;
use vstd::arithmetic::div_mod::{lemma_div_of0, lemma_small_mod};
use vstd::math::abs;
use crate::color::Rgba;
use crate::config::FractalClockConfig;
use crate::fixed::{
    fx_mul, fx_mul_spec, lemma_fx_mul_abs_le, lemma_fx_mul_nonneg, lemma_fx_mul_unit,
    lemma_fx_product_limit, lemma_div_below, FX_ONE,
};
use crate::geom::{
    map_apply_spec, pos_add_vec_spec, pos_bounded, rect_from_two_pos_spec, rects_intersect_spec,
    rotor_apply_spec, rotor_bounded, screen_map_spec, vec_bounded, lemma_rotor_apply_bounded,
    Pos2Fx, RectFx, Rotor, ScreenMap, Vec2Fx,
};
use crate::schedule::schedule_spec;
use crate::trig::{
    cos_bam, cos_bam_spec, lemma_trig_quarters, sin_bam, sin_bam_spec, HALF_TURN, QUARTER_TURN,
    TURN,
};

verus! {

/// The second hand sweeps a full turn per minute.
pub const SECOND_PERIOD_MS: u64 = 60_000;

/// The minute hand sweeps a full turn per hour.
pub const MINUTE_PERIOD_MS: u64 = 3_600_000;

/// The hour hand sweeps a full turn per half day.
pub const HOUR_PERIOD_MS: u64 = 43_200_000;

/// The hour hand's fixed length: half a unit.
pub const HOUR_HAND_LENGTH: i64 = 0x8000;

/// One clock hand: its length, its binary angle, and the displacement from
/// the center to its tip.
#[derive(Clone, Copy, PartialEq, Eq, Structural, Debug)]
pub struct Hand {
    pub length: i64,
    pub angle: u64,
    pub vec: Vec2Fx,
}

/// The three hands of one frame.
#[derive(Clone, Copy, PartialEq, Eq, Structural, Debug)]
pub struct Hands {
    pub second: Hand,
    pub minute: Hand,
    pub hour: Hand,
}

/// A branch endpoint and the displacement that produced it: the state carried
/// from one fractal generation to the next.
#[derive(Clone, Copy, PartialEq, Eq, Structural, Debug)]
pub struct Node {
    pub pos: Pos2Fx,
    pub dir: Vec2Fx,
}

/// One drawable line segment, in screen coordinates.
#[derive(Clone, Copy, PartialEq, Eq, Structural, Debug)]
pub struct Segment {
    pub a: Pos2Fx,
    pub b: Pos2Fx,
    pub width: i64,
    pub color: Rgba,
}

/// The turn fraction a period has swept at time `t`, in binary angle units.
pub open spec fn frac_turn_spec(t: int, period: int) -> int {
    ((t % period) * (TURN as int)) / period
}

/// The angle of a hand with the given period at time `t`: zero elapsed time
/// points straight up (a quarter turn back), and the angle sweeps clockwise.
pub open spec fn hand_angle_spec(t: int, period: int) -> int {
    (frac_turn_spec(t, period) + 3 * (QUARTER_TURN as int)) % (TURN as int)
}

/// A hand from its length and binary angle: the tip displacement is the unit
/// vector of the angle scaled by the length.
pub open spec fn hand_spec(length: i64, angle: int) -> Hand {
    Hand {
        length,
        angle: angle as u64,
        vec: Vec2Fx {
            x: fx_mul_spec(length as int, cos_bam_spec(angle)) as i64,
            y: fx_mul_spec(length as int, sin_bam_spec(angle)) as i64,
        },
    }
}

/// The three hands at time `t` (milliseconds since midnight): second and
/// minute hands use the configured length, the hour hand half a unit.
pub open spec fn hands_spec(cfg: FractalClockConfig, t: int) -> Hands {
    Hands {
        second: hand_spec(cfg.length_factor, hand_angle_spec(t, SECOND_PERIOD_MS as int)),
        minute: hand_spec(cfg.length_factor, hand_angle_spec(t, MINUTE_PERIOD_MS as int)),
        hour: hand_spec(HOUR_HAND_LENGTH, hand_angle_spec(t, HOUR_PERIOD_MS as int)),
    }
}

/// A well-formed hand: length within a unit, angle within a turn, tip
/// displacement within a unit.
pub open spec fn hand_wf(h: Hand) -> bool {
    &&& 0 <= h.length <= FX_ONE
    &&& h.angle < TURN
    &&& vec_bounded(h.vec, FX_ONE as int)
}

pub open spec fn hands_wf(hands: Hands) -> bool {
    hand_wf(hands.second) && hand_wf(hands.minute) && hand_wf(hands.hour)
}

/// The rotor of a free hand: rotation by the hand's angle relative to the
/// hour hand plus half a turn, scaled by the hand's length.
pub open spec fn rotor_spec(hand: Hand, hour: Hand) -> Rotor {
    let rel = (hand.angle + (TURN - hour.angle) + (HALF_TURN as int)) % (TURN as int);
    Rotor {
        re: fx_mul_spec(hand.length as int, cos_bam_spec(rel)) as i64,
        im: fx_mul_spec(hand.length as int, sin_bam_spec(rel)) as i64,
    }
}

/// The two rotors of a frame, from the second and the minute hand.
pub open spec fn rotors_spec(hands: Hands) -> (Rotor, Rotor) {
    (rotor_spec(hands.second, hands.hour), rotor_spec(hands.minute, hands.hour))
}

/// The child a rotor makes of a node: the rotated direction, walked from the
/// node's position.
pub open spec fn child_spec(r: Rotor, n: Node) -> Node {
    let dir = rotor_apply_spec(r, n.dir);
    Node { pos: pos_add_vec_spec(n.pos, dir), dir }
}

/// The children one rotor makes of a generation, in order.
pub open spec fn children_spec(nodes: Seq<Node>, r: Rotor) -> Seq<Node>
    decreases nodes.len(),
{
    if nodes.len() == 0 {
        Seq::empty()
    } else {
        children_spec(nodes.drop_last(), r).push(child_spec(r, nodes.last()))
    }
}

/// The next generation: the first rotor's children, then the second's.
pub open spec fn next_generation_spec(nodes: Seq<Node>, r0: Rotor, r1: Rotor) -> Seq<Node> {
    children_spec(nodes, r0) + children_spec(nodes, r1)
}

/// Generation `k` of the expansion from the initial nodes.
pub open spec fn generation_spec(init: Seq<Node>, r0: Rotor, r1: Rotor, k: nat) -> Seq<Node>
    decreases k,
{
    if k == 0 {
        init
    } else {
        next_generation_spec(generation_spec(init, r0, r1, (k - 1) as nat), r0, r1)
    }
}

/// One rotor makes exactly one child per node.
pub proof fn lemma_children_len(nodes: Seq<Node>, r: Rotor)
    ensures
        children_spec(nodes, r).len() == nodes.len(),
    decreases nodes.len(),
{
    if nodes.len() > 0 {
        lemma_children_len(nodes.drop_last(), r);
    }
}

/// Powers of two.
pub open spec fn pow2_spec(k: nat) -> nat
    decreases k,
{
    if k == 0 {
        1
    } else {
        2 * pow2_spec((k - 1) as nat)
    }
}

/// Powers of two grow monotonically.
pub proof fn lemma_pow2_mono(a: nat, b: nat)
    requires
        a <= b,
    ensures
        pow2_spec(a) <= pow2_spec(b),
    decreases b,
{
    if a < b && b > 0 {
        lemma_pow2_mono(a, (b - 1) as nat);
        assert(pow2_spec((b - 1) as nat) >= 1) by {
            lemma_pow2_pos((b - 1) as nat);
        }
    }
}

/// Powers of two are positive.
pub proof fn lemma_pow2_pos(k: nat)
    ensures
        pow2_spec(k) >= 1,
    decreases k,
{
    if k > 0 {
        lemma_pow2_pos((k - 1) as nat);
    }
}

/// The twenty-first power of two, the largest the expansion can meet.
pub proof fn lemma_pow2_21()
    ensures
        pow2_spec(21) == 0x20_0000,
{
    reveal_with_fuel(pow2_spec, 22);
}

/// Node-count law: generation `k` holds exactly `2^k` nodes per initial
/// node — each generation doubles, before any culling, because each of the
/// two rotors makes one child per node.
pub proof fn lemma_generation_count(init: Seq<Node>, r0: Rotor, r1: Rotor, k: nat)
    ensures
        generation_spec(init, r0, r1, k).len() == init.len() * pow2_spec(k),
    decreases k,
{
    if k == 0 {
        assert(init.len() * 1 == init.len()) by (nonlinear_arith);
    } else {
        lemma_generation_count(init, r0, r1, (k - 1) as nat);
        let prev = generation_spec(init, r0, r1, (k - 1) as nat);
        lemma_children_len(prev, r0);
        lemma_children_len(prev, r1);
        assert(init.len() * pow2_spec((k - 1) as nat) + init.len() * pow2_spec((k - 1) as nat)
            == init.len() * pow2_spec(k)) by (nonlinear_arith)
            requires
                pow2_spec(k) == 2 * pow2_spec((k - 1) as nat),
        ;
    }
}

/// Node-count law at the frame level: seeded from the two free hand tips and
/// expanded by the frame's two rotors, generation `d` holds exactly
/// `2 * 2^d` nodes, whatever the configuration and the time of day — culling
/// skips drawing a segment but never removes a node.
pub proof fn lemma_frame_node_count(cfg: FractalClockConfig, t: int, d: nat)
    ensures
        ({
            let hands = hands_spec(cfg, t);
            let rotors = rotors_spec(hands);
            generation_spec(init_nodes_spec(hands), rotors.0, rotors.1, d).len() == 2 * pow2_spec(
                d,
            )
        }),
{
    let hands = hands_spec(cfg, t);
    let rotors = rotors_spec(hands);
    lemma_generation_count(init_nodes_spec(hands), rotors.0, rotors.1, d);
    assert(init_nodes_spec(hands).len() == 2);
}

/// All nodes of a generation have their direction within `db` and their
/// position within `pb`.
pub open spec fn nodes_bounded(nodes: Seq<Node>, db: int, pb: int) -> bool {
    forall|i: int|
        0 <= i < nodes.len() ==> vec_bounded(#[trigger] nodes[i].dir, db) && pos_bounded(
            nodes[i].pos,
            pb,
        )
}

/// A child's direction stays within twice the parent's direction bound, its
/// position within the parent's position bound plus that.
pub proof fn lemma_child_bounded(r: Rotor, n: Node, db: int, pb: int)
    requires
        rotor_bounded(r),
        vec_bounded(n.dir, db),
        pos_bounded(n.pos, pb),
        0 <= db,
        0 <= pb,
        pb + 2 * db <= 0x7fff_ffff_ffff_ffff,
    ensures
        vec_bounded(child_spec(r, n).dir, 2 * db),
        pos_bounded(child_spec(r, n).pos, pb + 2 * db),
{
    lemma_rotor_apply_bounded(r, n.dir, db);
}

/// The screen segment a rotor draws for one node: from the node's mapped
/// position to its child's.
pub open spec fn branch_segment_spec(
    map: ScreenMap,
    n: Node,
    r: Rotor,
    color: Rgba,
    width: i64,
) -> Segment {
    Segment {
        a: map_apply_spec(map, n.pos),
        b: map_apply_spec(map, child_spec(r, n).pos),
        width,
        color,
    }
}

/// A segment is emitted only if its bounding box meets the clip rectangle.
pub open spec fn segment_visible(seg: Segment, rect: RectFx) -> bool {
    rects_intersect_spec(rect_from_two_pos_spec(seg.a, seg.b), rect)
}

/// The visible segments one rotor draws over a generation, in node order.
pub open spec fn rotor_level_segments(
    map: ScreenMap,
    rect: RectFx,
    nodes: Seq<Node>,
    r: Rotor,
    color: Rgba,
    width: i64,
) -> Seq<Segment>
    decreases nodes.len(),
{
    if nodes.len() == 0 {
        Seq::empty()
    } else {
        let rest = rotor_level_segments(map, rect, nodes.drop_last(), r, color, width);
        let seg = branch_segment_spec(map, nodes.last(), r, color, width);
        if segment_visible(seg, rect) {
            rest.push(seg)
        } else {
            rest
        }
    }
}

/// The visible segments of one generation: the first rotor's, then the
/// second's.
pub open spec fn level_segments(
    map: ScreenMap,
    rect: RectFx,
    nodes: Seq<Node>,
    r0: Rotor,
    r1: Rotor,
    color: Rgba,
    width: i64,
) -> Seq<Segment> {
    rotor_level_segments(map, rect, nodes, r0, color, width) + rotor_level_segments(
        map,
        rect,
        nodes,
        r1,
        color,
        width,
    )
}

/// The stroke width at generation `k`: the starting width decayed `k` times.
pub open spec fn width_at_spec(w0: i64, f: i64, k: nat) -> i64
    decreases k,
{
    if k == 0 {
        w0
    } else {
        fx_mul_spec(width_at_spec(w0, f, (k - 1) as nat) as int, f as int) as i64
    }
}

/// Decayed widths stay within the starting range.
pub proof fn lemma_width_at_bounds(w0: i64, f: i64, k: nat)
    requires
        0 <= w0 <= 5 * FX_ONE,
        0 <= f <= FX_ONE,
    ensures
        0 <= width_at_spec(w0, f, k) <= 5 * FX_ONE,
    decreases k,
{
    if k > 0 {
        lemma_width_at_bounds(w0, f, (k - 1) as nat);
        let prev = width_at_spec(w0, f, (k - 1) as nat);
        lemma_fx_mul_nonneg(prev as int, f as int);
        lemma_fx_mul_abs_le(prev as int, f as int, 5 * (FX_ONE as int));
    }
}

/// The branch segments of the first `k` generations, in generation order:
/// generation `j` is drawn with the schedule's color `j` and the width
/// decayed `j + 1` times.
pub open spec fn branch_segments_spec(
    map: ScreenMap,
    rect: RectFx,
    init: Seq<Node>,
    r0: Rotor,
    r1: Rotor,
    schedule: Seq<Rgba>,
    w0: i64,
    f: i64,
    k: nat,
) -> Seq<Segment>
    decreases k,
{
    if k == 0 {
        Seq::empty()
    } else {
        branch_segments_spec(map, rect, init, r0, r1, schedule, w0, f, (k - 1) as nat)
            + level_segments(
            map,
            rect,
            generation_spec(init, r0, r1, (k - 1) as nat),
            r0,
            r1,
            schedule[k - 1],
            width_at_spec(w0, f, k),
        )
    }
}

/// The two initial nodes: the tips of the second and the minute hand, with
/// the hand vectors as directions. The hour hand only sets the reference
/// frame.
pub open spec fn init_nodes_spec(hands: Hands) -> Seq<Node> {
    seq![
        Node {
            pos: Pos2Fx { x: hands.second.vec.x, y: hands.second.vec.y },
            dir: hands.second.vec,
        },
        Node {
            pos: Pos2Fx { x: hands.minute.vec.x, y: hands.minute.vec.y },
            dir: hands.minute.vec,
        },
    ]
}

/// The screen segment of one hand: from the mapped center to the mapped tip.
pub open spec fn hand_segment_spec(map: ScreenMap, hand: Hand, width: i64, color: Rgba) -> Segment {
    Segment {
        a: map_apply_spec(map, Pos2Fx { x: 0, y: 0 }),
        b: map_apply_spec(map, Pos2Fx { x: hand.vec.x, y: hand.vec.y }),
        width,
        color,
    }
}

/// The visible hand segments, in second, minute, hour order.
pub open spec fn hand_segments_spec(
    map: ScreenMap,
    rect: RectFx,
    hands: Hands,
    width: i64,
    color: Rgba,
) -> Seq<Segment> {
    let s0 = hand_segment_spec(map, hands.second, width, color);
    let s1 = hand_segment_spec(map, hands.minute, width, color);
    let s2 = hand_segment_spec(map, hands.hour, width, color);
    (if segment_visible(s0, rect) {
        seq![s0]
    } else {
        Seq::empty()
    }) + (if segment_visible(s1, rect) {
        seq![s1]
    } else {
        Seq::empty()
    }) + (if segment_visible(s2, rect) {
        seq![s2]
    } else {
        Seq::empty()
    })
}

/// Everything one frame draws for a configuration, a time of day and a clip
/// rectangle: the three hands, then the branch segments of every generation
/// the color schedule holds.
pub open spec fn render_spec(cfg: FractalClockConfig, t: int, rect: RectFx) -> Seq<Segment> {
    let map = screen_map_spec(rect, cfg.zoom as int);
    let hands = hands_spec(cfg, t);
    let rotors = rotors_spec(hands);
    let schedule = schedule_spec(cfg);
    hand_segments_spec(map, rect, hands, cfg.start_line_width, cfg.hand_color)
        + branch_segments_spec(
        map,
        rect,
        init_nodes_spec(hands),
        rotors.0,
        rotors.1,
        schedule,
        cfg.start_line_width,
        cfg.width_factor,
        schedule.len(),
    )
}

/// The angle of a hand at a time of day, in binary angle units.
pub fn hand_angle(t_ms: u64, period_ms: u64) -> (a: u64)
    requires
        1 <= period_ms <= HOUR_PERIOD_MS,
    ensures
        a == hand_angle_spec(t_ms as int, period_ms as int),
        a < TURN,
{
    let rem: u64 = t_ms % period_ms;
    proof {
        assert((rem as int) * (TURN as int) < (TURN as int) * (period_ms as int))
            by (nonlinear_arith)
            requires
                rem < period_ms,
        ;
        lemma_div_below((rem as int) * (TURN as int), TURN as int, period_ms as int);
        vstd::arithmetic::div_mod::lemma_div_pos_is_pos(
            (rem as int) * (TURN as int),
            period_ms as int,
        );
    }
    let frac: u64 = (rem * TURN) / period_ms;
    (frac + 3 * QUARTER_TURN) % TURN
}

impl Hand {
    /// A hand from its length and binary angle.
    pub fn from_length_angle(length: i64, angle: u64) -> (h: Hand)
        requires
            0 <= length <= FX_ONE,
            angle < TURN,
        ensures
            h == hand_spec(length, angle as int),
            hand_wf(h),
    {
        let c: i64 = cos_bam(angle);
        let s: i64 = sin_bam(angle);
        proof {
            lemma_fx_product_limit(length as int, c as int, FX_ONE as int, FX_ONE as int);
            lemma_fx_product_limit(length as int, s as int, FX_ONE as int, FX_ONE as int);
            lemma_fx_mul_abs_le(length as int, c as int, FX_ONE as int);
            lemma_fx_mul_abs_le(length as int, s as int, FX_ONE as int);
        }
        Hand { length, angle, vec: Vec2Fx { x: fx_mul(length, c), y: fx_mul(length, s) } }
    }
}

/// The rotor of one free hand against the hour hand.
pub fn hand_rotor(hand: &Hand, hour: &Hand) -> (r: Rotor)
    requires
        hand_wf(*hand),
        hand_wf(*hour),
    ensures
        r == rotor_spec(*hand, *hour),
        rotor_bounded(r),
{
    let rel: u64 = (hand.angle + (TURN - hour.angle) + HALF_TURN) % TURN;
    proof {
        vstd::arithmetic::div_mod::lemma_mod_bound(
            hand.angle + (TURN - hour.angle) + (HALF_TURN as int),
            TURN as int,
        );
        crate::trig::lemma_cos_range(rel as int);
        crate::trig::lemma_sin_range(rel as int);
    }
    let c: i64 = cos_bam(rel);
    let s: i64 = sin_bam(rel);
    proof {
        lemma_fx_product_limit(hand.length as int, c as int, FX_ONE as int, FX_ONE as int);
        lemma_fx_product_limit(hand.length as int, s as int, FX_ONE as int, FX_ONE as int);
        lemma_fx_mul_abs_le(hand.length as int, c as int, FX_ONE as int);
        lemma_fx_mul_abs_le(hand.length as int, s as int, FX_ONE as int);
    }
    Rotor { re: fx_mul(hand.length, c), im: fx_mul(hand.length, s) }
}

/// Purity law: the hands are a function of the time of day and the
/// configuration alone — equal inputs give equal hands, on every frame.
pub proof fn lemma_hands_deterministic(
    c1: FractalClockConfig,
    c2: FractalClockConfig,
    t1: int,
    t2: int,
)
    requires
        c1 == c2,
        t1 == t2,
    ensures
        hands_spec(c1, t1) == hands_spec(c2, t2),
{
}

/// Idempotence law: a frame is a function of the configuration, the frozen
/// time and the clip rectangle alone — rendering twice with identical inputs
/// emits identical segments.
pub proof fn lemma_render_deterministic(
    c1: FractalClockConfig,
    c2: FractalClockConfig,
    t1: int,
    t2: int,
    r1: RectFx,
    r2: RectFx,
)
    requires
        c1 == c2,
        t1 == t2,
        r1 == r2,
    ensures
        render_spec(c1, t1, r1) == render_spec(c2, t2, r2),
{
}

/// Midnight law: at time zero every hand points straight up — the angle is
/// three quarter turns (one quarter turn back), and the tip displacement is
/// exactly the hand's length, upward on a y-down screen.
pub proof fn lemma_midnight_hands(cfg: FractalClockConfig)
    requires
        cfg.valid(),
    ensures
        hands_spec(cfg, 0).second.angle == 3 * (QUARTER_TURN as int),
        hands_spec(cfg, 0).minute.angle == 3 * (QUARTER_TURN as int),
        hands_spec(cfg, 0).hour.angle == 3 * (QUARTER_TURN as int),
        hands_spec(cfg, 0).second.vec == (Vec2Fx { x: 0i64, y: (-cfg.length_factor) as i64 }),
        hands_spec(cfg, 0).minute.vec == (Vec2Fx { x: 0i64, y: (-cfg.length_factor) as i64 }),
        hands_spec(cfg, 0).hour.vec == (Vec2Fx { x: 0i64, y: (-HOUR_HAND_LENGTH) as i64 }),
{
    lemma_midnight_angle(SECOND_PERIOD_MS as int);
    lemma_midnight_angle(MINUTE_PERIOD_MS as int);
    lemma_midnight_angle(HOUR_PERIOD_MS as int);
    lemma_trig_quarters();
    lemma_fx_mul_unit(cfg.length_factor as int);
    lemma_fx_mul_unit(HOUR_HAND_LENGTH as int);
}

/// At time zero every period's hand angle is three quarter turns.
proof fn lemma_midnight_angle(period: int)
    requires
        1 <= period,
    ensures
        hand_angle_spec(0, period) == 3 * (QUARTER_TURN as int),
{
    lemma_small_mod(0, period as nat);
    lemma_div_of0(period);
    assert(frac_turn_spec(0, period) == 0);
    lemma_small_mod((3 * (QUARTER_TURN as int)) as nat, TURN as nat);
}

/// Boundary law: with a depth of zero no branch segment is emitted — the
/// frame is the hand segments alone, whatever the other parameters.
pub proof fn lemma_zero_depth_renders_hands_only(cfg: FractalClockConfig, t: int, rect: RectFx)
    requires
        cfg.depth == 0,
    ensures
        render_spec(cfg, t, rect) == hand_segments_spec(
            screen_map_spec(rect, cfg.zoom as int),
            rect,
            hands_spec(cfg, t),
            cfg.start_line_width,
            cfg.hand_color,
        ),
{
    crate::schedule::lemma_zero_depth_empty_schedule(cfg);
    assert(render_spec(cfg, t, rect) =~= hand_segments_spec(
        screen_map_spec(rect, cfg.zoom as int),
        rect,
        hands_spec(cfg, t),
        cfg.start_line_width,
        cfg.hand_color,
    ));
}

/// Silent-schedule law: a luminance decay factor of zero empties the color
/// schedule, so no branch segment is emitted — the frame is the hand
/// segments alone.
pub proof fn lemma_zero_luminance_renders_hands_only(cfg: FractalClockConfig, t: int, rect: RectFx)
    requires
        cfg.luminance_factor == 0,
    ensures
        render_spec(cfg, t, rect) == hand_segments_spec(
            screen_map_spec(rect, cfg.zoom as int),
            rect,
            hands_spec(cfg, t),
            cfg.start_line_width,
            cfg.hand_color,
        ),
{
    crate::schedule::lemma_zero_factor_empty_schedule(cfg);
    assert(render_spec(cfg, t, rect) =~= hand_segments_spec(
        screen_map_spec(rect, cfg.zoom as int),
        rect,
        hands_spec(cfg, t),
        cfg.start_line_width,
        cfg.hand_color,
    ));
}

/// Round-trip law: a configuration flattened to plain values and restored
/// renders exactly as the original — the codec loses nothing a frame shows.
pub proof fn lemma_restored_config_renders_alike(cfg: FractalClockConfig, t: int, rect: RectFx)
    requires
        cfg.valid(),
    ensures
        FractalClockConfig::from_values_spec(cfg.to_values_spec()) == Some(cfg),
        forall|c2: FractalClockConfig|
            FractalClockConfig::from_values_spec(cfg.to_values_spec()) == Some(c2)
                ==> render_spec(c2, t, rect) == render_spec(cfg, t, rect),
{
    crate::config::lemma_config_round_trip(cfg);
}

} // verus!
