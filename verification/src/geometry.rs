//! Axis-aligned rectangles and two-component vectors, with their models.

use vstd::prelude::*;

verus! {

/// The sign of an integer: 1, -1, or 0 for 0.
pub open spec fn sign(v: int) -> int {
    if v > 0 {
        1
    } else if v < 0 {
        -1
    } else {
        0
    }
}

/// The smaller of two integers.
pub open spec fn lesser(a: int, b: int) -> int {
    if a <= b {
        a
    } else {
        b
    }
}

/// The larger of two integers.
pub open spec fn greater(a: int, b: int) -> int {
    if a >= b {
        a
    } else {
        b
    }
}

/// The magnitude of an integer.
pub open spec fn magnitude(v: int) -> int {
    if v >= 0 {
        v
    } else {
        -v
    }
}

/// Half of `v`, rounded down.
pub fn half(v: i64) -> (r: i64)
    ensures
        r == v as int / 2,
{
    if v >= 0 {
        v / 2
    } else {
        let up: i128 = (1 - v as i128) / 2;
        (-up) as i64
    }
}

/// Model of a [`Vec2`]: a pair of unbounded integers.
pub struct Vec2View {
    pub x: int,
    pub y: int,
}

impl Vec2View {
    /// Whether both components can be stored in a [`Vec2`].
    pub open spec fn fits(self) -> bool {
        &&& i32::MIN <= self.x <= i32::MAX
        &&& i32::MIN <= self.y <= i32::MAX
    }
}

/// A direction or velocity. Components are thousandths.
#[derive(Clone, Copy, Debug, PartialEq, Eq, Structural)]
pub struct Vec2 {
    pub x: i32,
    pub y: i32,
}

impl View for Vec2 {
    type V = Vec2View;

    open spec fn view(&self) -> Vec2View {
        Vec2View { x: self.x as int, y: self.y as int }
    }
}

impl Vec2 {
    /// The vector with the given components.
    pub fn new(x: i32, y: i32) -> (v: Vec2)
        ensures
            v == (Vec2 { x, y }),
    {
        Vec2 { x, y }
    }
}

/// Model of a [`Rect`]: corner and extent as unbounded integers.
pub struct RectView {
    pub x: int,
    pub y: int,
    pub w: int,
    pub h: int,
}

impl RectView {
    /// The coordinate of the right edge.
    pub open spec fn right(self) -> int {
        self.x + self.w
    }

    /// The coordinate of the bottom edge.
    pub open spec fn bottom(self) -> int {
        self.y + self.h
    }

    /// Twice the x coordinate of the centre.
    pub open spec fn center_x2(self) -> int {
        2 * self.x + self.w
    }

    /// Twice the y coordinate of the centre.
    pub open spec fn center_y2(self) -> int {
        2 * self.y + self.h
    }

    /// How far the two rectangles reach into each other along x. Zero when
    /// they only touch, negative when there is a gap between them.
    pub open spec fn overlap_w(self, other: RectView) -> int {
        lesser(self.right(), other.right()) - greater(self.x, other.x)
    }

    /// How far the two rectangles reach into each other along y.
    pub open spec fn overlap_h(self, other: RectView) -> int {
        lesser(self.bottom(), other.bottom()) - greater(self.y, other.y)
    }

    /// Whether the two rectangles share a point. Rectangles that only touch
    /// along an edge or at a corner do.
    pub open spec fn overlaps(self, other: RectView) -> bool {
        self.overlap_w(other) >= 0 && self.overlap_h(other) >= 0
    }

    /// The rectangle that both have in common, if they share a point.
    pub open spec fn intersect(self, other: RectView) -> Option<RectView> {
        if self.overlaps(other) {
            Some(
                RectView {
                    x: greater(self.x, other.x),
                    y: greater(self.y, other.y),
                    w: self.overlap_w(other),
                    h: self.overlap_h(other),
                },
            )
        } else {
            None
        }
    }

    /// Whether no coordinate of the corner exceeds `reach` in magnitude and
    /// the extent is neither negative nor beyond `reach`.
    pub open spec fn within(self, reach: int) -> bool {
        &&& -reach <= self.x <= reach
        &&& -reach <= self.y <= reach
        &&& 0 <= self.w <= reach
        &&& 0 <= self.h <= reach
    }

    /// Whether corner and extent can be stored in a [`Rect`].
    pub open spec fn fits(self) -> bool {
        &&& i64::MIN <= self.x <= i64::MAX
        &&& i64::MIN <= self.y <= i64::MAX
        &&& i64::MIN <= self.w <= i64::MAX
        &&& i64::MIN <= self.h <= i64::MAX
    }
}

/// A rectangle with sides parallel to the axes: its top-left corner and its
/// extent, in sub-pixel units. y grows downwards.
#[derive(Clone, Copy, Debug, PartialEq, Eq, Structural)]
pub struct Rect {
    pub x: i64,
    pub y: i64,
    pub w: i64,
    pub h: i64,
}

impl View for Rect {
    type V = RectView;

    open spec fn view(&self) -> RectView {
        RectView { x: self.x as int, y: self.y as int, w: self.w as int, h: self.h as int }
    }
}

impl Rect {
    /// The rectangle with the given corner and extent.
    pub fn new(x: i64, y: i64, w: i64, h: i64) -> (r: Rect)
        ensures
            r == (Rect { x, y, w, h }),
    {
        Rect { x, y, w, h }
    }

    /// Whether no coordinate of the corner exceeds `reach` in magnitude and
    /// the extent is neither negative nor beyond `reach`.
    pub fn within(&self, reach: i64) -> (r: bool)
        ensures
            r == self@.within(reach as int),
    {
        reach >= 0 && -reach <= self.x && self.x <= reach && -reach <= self.y && self.y <= reach
            && 0 <= self.w && self.w <= reach && 0 <= self.h && self.h <= reach
    }

    /// Whether the two rectangles share a point; touching counts.
    pub fn overlaps(&self, other: &Rect) -> (r: bool)
        ensures
            r == self@.overlaps(other@),
    {
        self.intersect(other).is_some()
    }

    /// The rectangle that both have in common, or `None` when there is a gap
    /// between them along either axis.
    pub fn intersect(&self, other: &Rect) -> (r: Option<Rect>)
        ensures
            r.is_some() == self@.overlaps(other@),
            r matches Some(i) ==> Some(i@) == self@.intersect(other@),
    {
        let left: i64 = if self.x >= other.x { self.x } else { other.x };
        let top: i64 = if self.y >= other.y { self.y } else { other.y };
        let self_right: i128 = self.x as i128 + self.w as i128;
        let other_right: i128 = other.x as i128 + other.w as i128;
        let self_bottom: i128 = self.y as i128 + self.h as i128;
        let other_bottom: i128 = other.y as i128 + other.h as i128;
        let right: i128 = if self_right <= other_right { self_right } else { other_right };
        let bottom: i128 = if self_bottom <= other_bottom { self_bottom } else { other_bottom };
        if right < left as i128 || bottom < top as i128 {
            return None;
        }
        let w: i128 = right - left as i128;
        let h: i128 = bottom - top as i128;
        Some(Rect { x: left, y: top, w: w as i64, h: h as i64 })
    }
}

} // verus!
