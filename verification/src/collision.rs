//! Collision of a moving body with a static obstacle: detection, positional
//! correction and deflection.
//!
//! When body and obstacle share a point, the body is pushed out of the
//! obstacle along one axis and the velocity component on that axis is turned
//! away from the obstacle. The axis is vertical when the common rectangle is
//! wider than it is high, horizontal otherwise. The direction is away from the
//! obstacle's centre, as seen from the body's centre. When the two centres
//! coincide on the deciding axis there is no such direction: the body stays
//! where it is and keeps its velocity, and the contact still counts.

use vstd::prelude::*;
use crate::geometry::{magnitude, sign, Rect, RectView, Vec2, Vec2View};

verus! {

/// Whether a contact of `a` with `b` is resolved along y (a hit on the top or
/// bottom of the obstacle) rather than along x.
pub open spec fn bounces_vertically(a: RectView, b: RectView) -> bool {
    a.overlap_w(b) > a.overlap_h(b)
}

/// Side of `a` on which the centre of `b` lies along x: 1 when it is further
/// right, -1 when it is further left, 0 when the centres coincide.
pub open spec fn side_x(a: RectView, b: RectView) -> int {
    sign(b.center_x2() - a.center_x2())
}

/// Side of `a` on which the centre of `b` lies along y: 1 when it is further
/// down, -1 when it is further up, 0 when the centres coincide.
pub open spec fn side_y(a: RectView, b: RectView) -> int {
    sign(b.center_y2() - a.center_y2())
}

/// A velocity component after a contact with an obstacle on side `side`: its
/// magnitude, pointing away from the obstacle. Unchanged when `side` is 0.
pub open spec fn deflected(v: int, side: int) -> int {
    if side == 0 {
        v
    } else {
        -side * magnitude(v)
    }
}

/// Where the body `a` is after its contact with the obstacle `b` is resolved:
/// moved by the extent of the common rectangle along the deciding axis, away
/// from the centre of `b`. Unchanged when they share no point.
pub open spec fn resolved_body(a: RectView, b: RectView) -> RectView {
    if !a.overlaps(b) {
        a
    } else if bounces_vertically(a, b) {
        RectView { y: a.y - side_y(a, b) * a.overlap_h(b), ..a }
    } else {
        RectView { x: a.x - side_x(a, b) * a.overlap_w(b), ..a }
    }
}

/// The velocity of the body `a` after its contact with the obstacle `b` is
/// resolved: the component on the deciding axis is deflected, the other is
/// kept. Unchanged when they share no point.
pub open spec fn resolved_velocity(a: RectView, vel: Vec2View, b: RectView) -> Vec2View {
    if !a.overlaps(b) {
        vel
    } else if bounces_vertically(a, b) {
        Vec2View { y: deflected(vel.y, side_y(a, b)), ..vel }
    } else {
        Vec2View { x: deflected(vel.x, side_x(a, b)), ..vel }
    }
}

/// Whether the intervals `[a, a + a_len]` and `[b, b + b_len]` are staggered:
/// both ends of the first lie to the same side of the matching ends of the
/// second, and the intervals are not the same.
pub open spec fn staggered(a: int, a_len: int, b: int, b_len: int) -> bool {
    ||| a <= b && a + a_len <= b + b_len && !(a == b && a_len == b_len)
    ||| a >= b && a + a_len >= b + b_len && !(a == b && a_len == b_len)
}

/// The sign of `to - from`, computed without overflow.
fn side(from: i128, to: i128) -> (s: i128)
    ensures
        s == sign(to - from),
{
    if to > from {
        1
    } else if to < from {
        -1
    } else {
        0
    }
}

/// A velocity component turned away from an obstacle on side `side`.
fn deflect(v: i32, side: i128) -> (r: i32)
    requires
        -1 <= side <= 1,
        i32::MIN <= deflected(v as int, side as int) <= i32::MAX,
    ensures
        r == deflected(v as int, side as int),
{
    if side == 0 {
        v
    } else {
        let size: i128 = if v >= 0 { v as i128 } else { -(v as i128) };
        (-side * size) as i32
    }
}

/// Detects a contact of the body `a`, moving with velocity `vel`, with the
/// obstacle `b`, and resolves it in place.
///
/// Returns whether the two share a point. If they do not, nothing is changed.
/// If they do, `a` and `vel` become what [`resolved_body`] and
/// [`resolved_velocity`] say. The corrected body and velocity must be
/// representable.
pub fn resolve_collision(a: &mut Rect, vel: &mut Vec2, b: &Rect) -> (hit: bool)
    requires
        resolved_body(old(a)@, b@).fits(),
        resolved_velocity(old(a)@, old(vel)@, b@).fits(),
    ensures
        hit == old(a)@.overlaps(b@),
        final(a)@ == resolved_body(old(a)@, b@),
        final(vel)@ == resolved_velocity(old(a)@, old(vel)@, b@),
        !hit ==> *final(a) == *old(a) && *final(vel) == *old(vel),
{
    let intersection: Rect = match a.intersect(b) {
        Some(intersection) => intersection,
        None => {
            return false;
        },
    };
    if intersection.w > intersection.h {
        let a_center: i128 = 2 * (a.y as i128) + a.h as i128;
        let b_center: i128 = 2 * (b.y as i128) + b.h as i128;
        let s: i128 = side(a_center, b_center);
        a.y = (a.y as i128 - s * (intersection.h as i128)) as i64;
        vel.y = deflect(vel.y, s);
    } else {
        let a_center: i128 = 2 * (a.x as i128) + a.w as i128;
        let b_center: i128 = 2 * (b.x as i128) + b.w as i128;
        let s: i128 = side(a_center, b_center);
        a.x = (a.x as i128 - s * (intersection.w as i128)) as i64;
        vel.x = deflect(vel.x, s);
    }
    true
}

/// Deflection keeps the magnitude of a velocity component, and leaves it
/// pointing away from the obstacle or at rest.
pub proof fn lemma_deflected_keeps_magnitude(v: int, side: int)
    requires
        -1 <= side <= 1,
    ensures
        magnitude(deflected(v, side)) == magnitude(v),
        side == 1 ==> deflected(v, side) <= 0,
        side == -1 ==> deflected(v, side) >= 0,
        side == 0 ==> deflected(v, side) == v,
{
    if side == 1 {
        assert(-side * magnitude(v) == -magnitude(v));
    } else if side == -1 {
        assert(-side * magnitude(v) == magnitude(v));
    }
}

/// Resolving a contact changes neither the extent of the body nor the
/// magnitude of either velocity component.
pub proof fn lemma_resolution_keeps_extent_and_pace(a: RectView, vel: Vec2View, b: RectView)
    ensures
        resolved_body(a, b).w == a.w,
        resolved_body(a, b).h == a.h,
        magnitude(resolved_velocity(a, vel, b).x) == magnitude(vel.x),
        magnitude(resolved_velocity(a, vel, b).y) == magnitude(vel.y),
{
    lemma_deflected_keeps_magnitude(vel.x, side_x(a, b));
    lemma_deflected_keeps_magnitude(vel.y, side_y(a, b));
}

/// Resolving a contact moves the body along one axis only, and by no more
/// than its own extent on that axis.
pub proof fn lemma_resolved_stays_near(a: RectView, b: RectView)
    ensures
        resolved_body(a, b).x == a.x || resolved_body(a, b).y == a.y,
        magnitude(resolved_body(a, b).x - a.x) <= magnitude(a.w),
        magnitude(resolved_body(a, b).y - a.y) <= magnitude(a.h),
{
    if a.overlaps(b) {
        assert(0 <= a.overlap_w(b) <= a.w);
        assert(0 <= a.overlap_h(b) <= a.h);
        let sx = side_x(a, b);
        let sy = side_y(a, b);
        assert(sx * a.overlap_w(b) == a.overlap_w(b) || sx * a.overlap_w(b) == -a.overlap_w(b)
            || sx * a.overlap_w(b) == 0) by (nonlinear_arith)
            requires
                -1 <= sx <= 1,
        ;
        assert(sy * a.overlap_h(b) == a.overlap_h(b) || sy * a.overlap_h(b) == -a.overlap_h(b)
            || sy * a.overlap_h(b) == 0) by (nonlinear_arith)
            requires
                -1 <= sy <= 1,
        ;
    }
}

/// A resolved contact never leaves a gap between body and obstacle along the
/// corrected axis. It leaves them touching, with no overlap along that axis,
/// exactly when the common rectangle had no extent on that axis to begin with,
/// or body and obstacle were staggered along it. A body that lies within the
/// obstacle's span on that axis, or spans it, or is centred on it, is moved by
/// the common extent or not at all, and still reaches into the obstacle
/// afterwards.
pub proof fn lemma_resolved_bodies_separate(a: RectView, b: RectView)
    requires
        a.overlaps(b),
    ensures
        bounces_vertically(a, b) ==> {
            let rest = resolved_body(a, b).overlap_h(b);
            &&& rest >= 0
            &&& rest == 0 <==> a.overlap_h(b) == 0 || staggered(a.y, a.h, b.y, b.h)
        },
        !bounces_vertically(a, b) ==> {
            let rest = resolved_body(a, b).overlap_w(b);
            &&& rest >= 0
            &&& rest == 0 <==> a.overlap_w(b) == 0 || staggered(a.x, a.w, b.x, b.w)
        },
{
}

/// A ball that is narrower than a paddle and meets it from the side, with its
/// outer edge still outside the paddle, touches the paddle's edge after the
/// contact is resolved and moves away from it.
pub proof fn lemma_side_hit_separates(a: RectView, vel: Vec2View, b: RectView)
    requires
        a.overlaps(b),
        !bounces_vertically(a, b),
        0 <= a.w < b.w,
        a.x < b.x || a.right() > b.right(),
    ensures
        a.x < b.x ==> resolved_body(a, b).right() == b.x && resolved_velocity(a, vel, b).x <= 0,
        a.right() > b.right() ==> resolved_body(a, b).x == b.right() && resolved_velocity(
            a,
            vel,
            b,
        ).x >= 0,
        resolved_body(a, b).overlap_w(b) == 0,
{
    lemma_deflected_keeps_magnitude(vel.x, side_x(a, b));
}

} // verus!
