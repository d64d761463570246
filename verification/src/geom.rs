//! Fixed-point plane geometry: points, displacement vectors, axis-aligned
//! rectangles, rotation-and-scale operators, and the map from the logical
//! unit square to screen coordinates.

use vstd::prelude::*;
use vstd::math::abs;
use crate::fixed::{fx_mul, fx_mul_spec, lemma_fx_mul_abs_le, FX_ONE};

verus! {

/// Bound on the coordinates of the screen rectangle handed to the engine.
pub const RECT_LIMIT: i64 = 0x4_0000_0000;

/// Bound on the scale of a screen map built from a valid rectangle and a
/// zoom of at most one.
pub const SCALE_LIMIT: i64 = 0x8_0000_0000;

/// Bound on the logical coordinates that a screen map accepts.
pub const POS_LIMIT: i64 = 0x100_0000_0000;

/// A displacement in the logical plane.
#[derive(Clone, Copy, PartialEq, Eq, Structural, Debug)]
pub struct Vec2Fx {
    pub x: i64,
    pub y: i64,
}

/// A point, in the logical plane or on the screen.
#[derive(Clone, Copy, PartialEq, Eq, Structural, Debug)]
pub struct Pos2Fx {
    pub x: i64,
    pub y: i64,
}

/// A combined rotation and scale: the complex number `re + i*im` applied by
/// complex multiplication.
#[derive(Clone, Copy, PartialEq, Eq, Structural, Debug)]
pub struct Rotor {
    pub re: i64,
    pub im: i64,
}

/// An axis-aligned rectangle.
#[derive(Clone, Copy, PartialEq, Eq, Structural, Debug)]
pub struct RectFx {
    pub min: Pos2Fx,
    pub max: Pos2Fx,
}

/// The affine map from logical coordinates to screen coordinates: uniform
/// scale about the rectangle's center.
#[derive(Clone, Copy, PartialEq, Eq, Structural, Debug)]
pub struct ScreenMap {
    pub center: Pos2Fx,
    pub scale: i64,
}

pub open spec fn vec_bounded(v: Vec2Fx, m: int) -> bool {
    abs(v.x as int) <= m && abs(v.y as int) <= m
}

pub open spec fn pos_bounded(p: Pos2Fx, m: int) -> bool {
    abs(p.x as int) <= m && abs(p.y as int) <= m
}

/// A rotor of magnitude at most one in each component.
pub open spec fn rotor_bounded(r: Rotor) -> bool {
    abs(r.re as int) <= FX_ONE && abs(r.im as int) <= FX_ONE
}

/// A well-formed screen rectangle: ordered corners within `RECT_LIMIT`.
pub open spec fn rect_wf(r: RectFx) -> bool {
    &&& r.min.x <= r.max.x
    &&& r.min.y <= r.max.y
    &&& pos_bounded(r.min, RECT_LIMIT as int)
    &&& pos_bounded(r.max, RECT_LIMIT as int)
}

/// A screen map a well-formed rectangle and a zoom of at most one can give.
pub open spec fn map_wf(m: ScreenMap) -> bool {
    &&& pos_bounded(m.center, RECT_LIMIT as int)
    &&& abs(m.scale as int) <= SCALE_LIMIT
}

/// The rotor applied to a displacement: complex multiplication, each product
/// truncated toward zero.
pub open spec fn rotor_apply_spec(r: Rotor, v: Vec2Fx) -> Vec2Fx {
    Vec2Fx {
        x: (fx_mul_spec(r.re as int, v.x as int) - fx_mul_spec(r.im as int, v.y as int)) as i64,
        y: (fx_mul_spec(r.im as int, v.x as int) + fx_mul_spec(r.re as int, v.y as int)) as i64,
    }
}

/// Applying a bounded rotor at most doubles a displacement bound.
pub proof fn lemma_rotor_apply_bounded(r: Rotor, v: Vec2Fx, m: int)
    requires
        rotor_bounded(r),
        vec_bounded(v, m),
        0 <= m,
        2 * m <= 0x7fff_ffff_ffff_ffff,
    ensures
        vec_bounded(rotor_apply_spec(r, v), 2 * m),
{
    assert(abs(fx_mul_spec(r.re as int, v.x as int)) <= m) by {
        lemma_fx_mul_commute(r.re as int, v.x as int);
        lemma_fx_mul_abs_le(v.x as int, r.re as int, m);
    }
    assert(abs(fx_mul_spec(r.im as int, v.y as int)) <= m) by {
        lemma_fx_mul_commute(r.im as int, v.y as int);
        lemma_fx_mul_abs_le(v.y as int, r.im as int, m);
    }
    assert(abs(fx_mul_spec(r.im as int, v.x as int)) <= m) by {
        lemma_fx_mul_commute(r.im as int, v.x as int);
        lemma_fx_mul_abs_le(v.x as int, r.im as int, m);
    }
    assert(abs(fx_mul_spec(r.re as int, v.y as int)) <= m) by {
        lemma_fx_mul_commute(r.re as int, v.y as int);
        lemma_fx_mul_abs_le(v.y as int, r.re as int, m);
    }
}

/// Fixed-point products do not depend on the order of the factors.
pub proof fn lemma_fx_mul_commute(a: int, b: int)
    ensures
        fx_mul_spec(a, b) == fx_mul_spec(b, a),
{
    assert(a * b == b * a) by (nonlinear_arith);
}

/// Applies the rotor to a displacement.
pub fn rotor_apply(r: &Rotor, v: &Vec2Fx) -> (w: Vec2Fx)
    requires
        rotor_bounded(*r),
        vec_bounded(*v, POS_LIMIT as int),
    ensures
        w == rotor_apply_spec(*r, *v),
        vec_bounded(w, 2 * POS_LIMIT),
{
    proof {
        lemma_rotor_apply_bounded(*r, *v, POS_LIMIT as int);
        lemma_fx_mul_product_in_range(r.re as int, v.x as int);
        lemma_fx_mul_product_in_range(r.im as int, v.y as int);
        lemma_fx_mul_product_in_range(r.im as int, v.x as int);
        lemma_fx_mul_product_in_range(r.re as int, v.y as int);
        lemma_fx_mul_abs_le_self(r.re as int, v.x as int);
        lemma_fx_mul_abs_le_self(r.im as int, v.y as int);
        lemma_fx_mul_abs_le_self(r.im as int, v.x as int);
        lemma_fx_mul_abs_le_self(r.re as int, v.y as int);
    }
    Vec2Fx {
        x: fx_mul(r.re, v.x) - fx_mul(r.im, v.y),
        y: fx_mul(r.im, v.x) + fx_mul(r.re, v.y),
    }
}

/// A product of two `i64` factors stays within the fixed-point product limit.
proof fn lemma_fx_mul_product_in_range(a: int, b: int)
    requires
        abs(a) <= FX_ONE,
        abs(b) <= POS_LIMIT,
    ensures
        -crate::fixed::FX_PRODUCT_LIMIT <= a * b <= crate::fixed::FX_PRODUCT_LIMIT,
{
    assert(abs(a * b) <= FX_ONE * (POS_LIMIT as int)) by (nonlinear_arith)
        requires
            abs(a) <= FX_ONE,
            abs(b) <= POS_LIMIT,
    ;
}

/// A product with a factor of magnitude at most one keeps the other factor's
/// magnitude as a bound.
proof fn lemma_fx_mul_abs_le_self(a: int, b: int)
    requires
        abs(a) <= FX_ONE,
        abs(b) <= POS_LIMIT,
    ensures
        abs(fx_mul_spec(a, b)) <= POS_LIMIT,
{
    lemma_fx_mul_commute(a, b);
    lemma_fx_mul_abs_le(b, a, POS_LIMIT as int);
}

/// The point reached by walking a displacement from a point.
pub open spec fn pos_add_vec_spec(p: Pos2Fx, v: Vec2Fx) -> Pos2Fx {
    Pos2Fx { x: (p.x + v.x) as i64, y: (p.y + v.y) as i64 }
}

/// Walks a displacement from a point.
pub fn pos_add_vec(p: &Pos2Fx, v: &Vec2Fx) -> (q: Pos2Fx)
    requires
        pos_bounded(*p, 2 * POS_LIMIT),
        vec_bounded(*v, 2 * POS_LIMIT),
    ensures
        q == pos_add_vec_spec(*p, *v),
        pos_bounded(q, 4 * POS_LIMIT),
{
    Pos2Fx { x: p.x + v.x, y: p.y + v.y }
}

/// The smallest rectangle holding two points.
pub open spec fn rect_from_two_pos_spec(a: Pos2Fx, b: Pos2Fx) -> RectFx {
    RectFx {
        min: Pos2Fx {
            x: if a.x <= b.x { a.x } else { b.x },
            y: if a.y <= b.y { a.y } else { b.y },
        },
        max: Pos2Fx {
            x: if a.x <= b.x { b.x } else { a.x },
            y: if a.y <= b.y { b.y } else { a.y },
        },
    }
}

/// Builds the smallest rectangle holding two points.
pub fn rect_from_two_pos(a: &Pos2Fx, b: &Pos2Fx) -> (r: RectFx)
    ensures
        r == rect_from_two_pos_spec(*a, *b),
{
    RectFx {
        min: Pos2Fx {
            x: if a.x <= b.x { a.x } else { b.x },
            y: if a.y <= b.y { a.y } else { b.y },
        },
        max: Pos2Fx {
            x: if a.x <= b.x { b.x } else { a.x },
            y: if a.y <= b.y { b.y } else { a.y },
        },
    }
}

/// Whether two rectangles overlap, boundaries included.
pub open spec fn rects_intersect_spec(a: RectFx, b: RectFx) -> bool {
    &&& a.min.x <= b.max.x
    &&& b.min.x <= a.max.x
    &&& a.min.y <= b.max.y
    &&& b.min.y <= a.max.y
}

/// Tests whether two rectangles overlap, boundaries included.
pub fn rects_intersect(a: &RectFx, b: &RectFx) -> (r: bool)
    ensures
        r == rects_intersect_spec(*a, *b),
{
    a.min.x <= b.max.x && b.min.x <= a.max.x && a.min.y <= b.max.y && b.min.y <= a.max.y
}

/// The screen map for a rectangle and a zoom: logical coordinates scale by
/// `zoom` times the rectangle's smaller side and land about its center, so
/// the logical unit square fills the view at zoom one.
pub open spec fn screen_map_spec(rect: RectFx, zoom: int) -> ScreenMap {
    let w = rect.max.x - rect.min.x;
    let h = rect.max.y - rect.min.y;
    let side = if w <= h { w } else { h };
    ScreenMap {
        center: Pos2Fx {
            x: (rect.min.x + w / 2) as i64,
            y: (rect.min.y + h / 2) as i64,
        },
        scale: fx_mul_spec(side, zoom) as i64,
    }
}

/// Builds the screen map for a rectangle and a zoom.
pub fn screen_map(rect: &RectFx, zoom: i64) -> (m: ScreenMap)
    requires
        rect_wf(*rect),
        0 <= zoom <= FX_ONE,
    ensures
        m == screen_map_spec(*rect, zoom as int),
        map_wf(m),
{
    let w: i64 = rect.max.x - rect.min.x;
    let h: i64 = rect.max.y - rect.min.y;
    let side: i64 = if w <= h { w } else { h };
    proof {
        assert(abs(side as int) <= 2 * (RECT_LIMIT as int));
        assert(abs((side as int) * (zoom as int)) <= 2 * (RECT_LIMIT as int) * (FX_ONE as int))
            by (nonlinear_arith)
            requires
                abs(side as int) <= 2 * (RECT_LIMIT as int),
                0 <= zoom <= FX_ONE,
        ;
        lemma_fx_mul_abs_le(side as int, zoom as int, 2 * (RECT_LIMIT as int));
    }
    let scale: i64 = fx_mul(side, zoom);
    let cx: i64 = rect.min.x + ((w as u64) / 2) as i64;
    let cy: i64 = rect.min.y + ((h as u64) / 2) as i64;
    ScreenMap { center: Pos2Fx { x: cx, y: cy }, scale }
}

/// The map applied to a logical point.
pub open spec fn map_apply_spec(m: ScreenMap, p: Pos2Fx) -> Pos2Fx {
    Pos2Fx {
        x: (m.center.x + fx_mul_spec(m.scale as int, p.x as int)) as i64,
        y: (m.center.y + fx_mul_spec(m.scale as int, p.y as int)) as i64,
    }
}

/// Maps a logical point to the screen.
pub fn map_apply(m: &ScreenMap, p: &Pos2Fx) -> (q: Pos2Fx)
    requires
        map_wf(*m),
        pos_bounded(*p, POS_LIMIT as int),
    ensures
        q == map_apply_spec(*m, *p),
{
    proof {
        lemma_map_product_in_range(m.scale as int, p.x as int);
        lemma_map_product_in_range(m.scale as int, p.y as int);
        lemma_map_result_bounded(m.scale as int, p.x as int);
        lemma_map_result_bounded(m.scale as int, p.y as int);
    }
    Pos2Fx {
        x: m.center.x + fx_mul(m.scale, p.x),
        y: m.center.y + fx_mul(m.scale, p.y),
    }
}

/// The scale-times-position product stays within the fixed-point limit.
proof fn lemma_map_product_in_range(s: int, x: int)
    requires
        abs(s) <= SCALE_LIMIT,
        abs(x) <= POS_LIMIT,
    ensures
        -crate::fixed::FX_PRODUCT_LIMIT <= s * x <= crate::fixed::FX_PRODUCT_LIMIT,
{
    assert(abs(s * x) <= (SCALE_LIMIT as int) * (POS_LIMIT as int)) by (nonlinear_arith)
        requires
            abs(s) <= SCALE_LIMIT,
            abs(x) <= POS_LIMIT,
    ;
}

/// A mapped coordinate stays far from the `i64` range ends.
proof fn lemma_map_result_bounded(s: int, x: int)
    requires
        abs(s) <= SCALE_LIMIT,
        abs(x) <= POS_LIMIT,
    ensures
        abs(fx_mul_spec(s, x)) <= 0x1000_0000_0000_0000,
{
    assert(abs(s * x) <= (SCALE_LIMIT as int) * (POS_LIMIT as int)) by (nonlinear_arith)
        requires
            abs(s) <= SCALE_LIMIT,
            abs(x) <= POS_LIMIT,
    ;
    crate::fixed::lemma_fx_mul_abs(s, x);
    vstd::arithmetic::div_mod::lemma_div_is_ordered(
        abs(s * x) as int,
        (SCALE_LIMIT as int) * (POS_LIMIT as int),
        FX_ONE as int,
    );
    assert(((SCALE_LIMIT as int) * (POS_LIMIT as int)) / (FX_ONE as int)
        <= 0x1000_0000_0000_0000);
}

} // verus!
