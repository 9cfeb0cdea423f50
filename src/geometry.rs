use vstd::prelude::*;

verus! {

/// A point or displacement in the plane, in thousandths of an arena unit.
#[derive(Clone, Copy, Debug, PartialEq, Eq, Structural)]
pub struct Point {
    pub x: i64,
    pub y: i64,
}

/// A circle given by its center and radius.
#[derive(Clone, Copy, Debug, PartialEq, Eq, Structural)]
pub struct Circle {
    pub center: Point,
    pub radius: i64,
}

/// An axis-aligned box given by its center and its half extent on each axis.
#[derive(Clone, Copy, Debug, PartialEq, Eq, Structural)]
pub struct Aabb {
    pub center: Point,
    pub half_extent: Point,
}

/// The side of a box that a circle touches.
#[derive(Clone, Copy, Debug, PartialEq, Eq, Structural)]
pub enum Collision {
    Left,
    Right,
    Top,
    Bottom,
}

/// Clamps `v` into `[lo, hi]`; the lower bound wins when the bounds cross.
pub open spec fn clamp_spec(v: int, lo: int, hi: int) -> int {
    if v < lo {
        lo
    } else if v > hi {
        hi
    } else {
        v
    }
}

pub open spec fn abs(v: int) -> int {
    if v < 0 {
        -v
    } else {
        v
    }
}

/// Horizontal offset from the point of the box closest to `c` to `c` itself.
pub open spec fn offset_x(c: Point, b: Aabb) -> int {
    c.x - clamp_spec(
        c.x as int,
        b.center.x - b.half_extent.x,
        b.center.x + b.half_extent.x,
    )
}

/// Vertical offset from the point of the box closest to `c` to `c` itself.
pub open spec fn offset_y(c: Point, b: Aabb) -> int {
    c.y - clamp_spec(
        c.y as int,
        b.center.y - b.half_extent.y,
        b.center.y + b.half_extent.y,
    )
}

/// The circle reaches the box: the closest point of the box lies within the radius.
pub open spec fn overlaps(ball: Circle, b: Aabb) -> bool {
    let ox = offset_x(ball.center, b);
    let oy = offset_y(ball.center, b);
    ox * ox + oy * oy <= ball.radius * ball.radius && ball.radius >= 0
}

/// The side named by an offset: the axis of the larger magnitude decides, and a tie
/// (including a zero offset) falls to the vertical axis, where zero means `Bottom`.
pub open spec fn side_of(ox: int, oy: int) -> Collision {
    if abs(ox) > abs(oy) {
        if ox < 0 {
            Collision::Left
        } else {
            Collision::Right
        }
    } else if oy > 0 {
        Collision::Top
    } else {
        Collision::Bottom
    }
}

/// What the detector reports for a circle against a box.
pub open spec fn collision_spec(ball: Circle, b: Aabb) -> Option<Collision> {
    if overlaps(ball, b) {
        Some(side_of(offset_x(ball.center, b), offset_y(ball.center, b)))
    } else {
        None
    }
}

/// A box whose half extents are not negative.
pub open spec fn valid_box(b: Aabb) -> bool {
    b.half_extent.x >= 0 && b.half_extent.y >= 0
}

/// The point lies in the box grown by `r` on every side.
pub open spec fn in_inflated(c: Point, b: Aabb, r: int) -> bool {
    &&& b.center.x - b.half_extent.x - r <= c.x <= b.center.x + b.half_extent.x + r
    &&& b.center.y - b.half_extent.y - r <= c.y <= b.center.y + b.half_extent.y + r
}

fn clamp(v: i128, lo: i128, hi: i128) -> (r: i128)
    ensures
        r == clamp_spec(v as int, lo as int, hi as int),
{
    if v < lo {
        lo
    } else if v > hi {
        hi
    } else {
        v
    }
}

fn abs_i128(v: i128) -> (r: i128)
    requires
        v > i128::MIN,
    ensures
        r == abs(v as int),
{
    if v < 0 {
        -v
    } else {
        v
    }
}

/// Offset on one axis from the closest point of the interval `center ± half` to `c`.
fn axis_offset(c: i64, center: i64, half: i64) -> (r: i128)
    ensures
        r == c - clamp_spec(c as int, center - half, center + half),
{
    let lo = center as i128 - half as i128;
    let hi = center as i128 + half as i128;
    c as i128 - clamp(c as i128, lo, hi)
}

/// Tests `ball` against `bounding_box` and, where they touch, names the side of the
/// box that was hit.
pub fn ball_collision(ball: Circle, bounding_box: Aabb) -> (r: Option<Collision>)
    ensures
        r == collision_spec(ball, bounding_box),
{
    let ox = axis_offset(ball.center.x, bounding_box.center.x, bounding_box.half_extent.x);
    let oy = axis_offset(ball.center.y, bounding_box.center.y, bounding_box.half_extent.y);
    let r = ball.radius as i128;
    let ax = abs_i128(ox);
    let ay = abs_i128(oy);
    if r < 0 || ax > r || ay > r {
        proof {
            lemma_far_axis_misses(ox as int, oy as int, r as int);
        }
        return None;
    }
    assert(ax * ax <= r * r) by (nonlinear_arith)
        requires
            0 <= ax <= r,
    ;
    assert(ay * ay <= r * r) by (nonlinear_arith)
        requires
            0 <= ay <= r,
    ;
    assert(r * r <= 0x7fff_ffff_ffff_ffff * 0x7fff_ffff_ffff_ffff) by (nonlinear_arith)
        requires
            0 <= r <= 0x7fff_ffff_ffff_ffff,
    ;
    assert(ox * ox == ax * ax && oy * oy == ay * ay) by (nonlinear_arith)
        requires
            ax == abs(ox as int),
            ay == abs(oy as int),
    ;
    if ax * ax + ay * ay > r * r {
        return None;
    }
    let side = if ax > ay {
        if ox < 0 {
            Collision::Left
        } else {
            Collision::Right
        }
    } else if oy > 0 {
        Collision::Top
    } else {
        Collision::Bottom
    };
    Some(side)
}

/// An offset longer than the radius on either axis puts the point out of reach.
proof fn lemma_far_axis_misses(ox: int, oy: int, r: int)
    requires
        r < 0 || abs(ox) > r || abs(oy) > r,
    ensures
        !(ox * ox + oy * oy <= r * r && r >= 0),
{
    if r >= 0 {
        if abs(ox) > r {
            assert(ox * ox > r * r) by (nonlinear_arith)
                requires
                    abs(ox) > r >= 0,
            ;
        } else {
            assert(oy * oy > r * r) by (nonlinear_arith)
                requires
                    abs(oy) > r >= 0,
            ;
        }
        assert(ox * ox >= 0 && oy * oy >= 0) by (nonlinear_arith);
    }
}

/// A circle whose center lies outside the box grown by its radius does not collide
/// with the box.
pub proof fn lemma_outside_inflated_box_no_collision(ball: Circle, b: Aabb)
    requires
        valid_box(b),
        !in_inflated(ball.center, b, ball.radius as int),
    ensures
        collision_spec(ball, b) is None,
{
    let ox = offset_x(ball.center, b);
    let oy = offset_y(ball.center, b);
    assert(ball.radius < 0 || abs(ox) > ball.radius || abs(oy) > ball.radius);
    lemma_far_axis_misses(ox, oy, ball.radius as int);
}

/// When a circle and a box overlap, the side reported follows the sign of the offset
/// component of larger magnitude, and a tie goes to the vertical axis.
pub proof fn lemma_side_follows_offset(ball: Circle, b: Aabb)
    requires
        overlaps(ball, b),
    ensures
        ({
            let ox = offset_x(ball.center, b);
            let oy = offset_y(ball.center, b);
            let side = collision_spec(ball, b)->Some_0;
            &&& collision_spec(ball, b) is Some
            &&& abs(ox) > abs(oy) ==> (side == Collision::Left <==> ox < 0)
            &&& abs(ox) > abs(oy) ==> (side == Collision::Right <==> ox >= 0)
            &&& abs(ox) <= abs(oy) ==> (side == Collision::Top <==> oy > 0)
            &&& abs(ox) <= abs(oy) ==> (side == Collision::Bottom <==> oy <= 0)
        }),
{
}

} // verus!
