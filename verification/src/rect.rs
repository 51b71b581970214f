//! Axis-aligned rectangles and the intersection test all collision rules use.

use vstd::prelude::*;

use crate::point::Point;

verus! {

/// An axis-aligned box: a top-left corner plus a width and a height.
#[derive(Clone, Copy, PartialEq, Eq, Structural, Debug)]
pub struct Rect {
    pub position: Point,
    pub width: i16,
    pub height: i16,
}

/// Right edge of a rectangle, as a mathematical integer.
pub open spec fn spec_right(r: Rect) -> int {
    r.position.x + r.width
}

/// Bottom edge of a rectangle, as a mathematical integer.
pub open spec fn spec_bottom(r: Rect) -> int {
    r.position.y + r.height
}

/// Two rectangles overlap when each one starts before the other ends,
/// on both axes. Rectangles that merely touch along an edge do not overlap.
pub open spec fn spec_intersects(a: Rect, b: Rect) -> bool {
    &&& a.position.x < spec_right(b)
    &&& spec_right(a) > b.position.x
    &&& a.position.y < spec_bottom(b)
    &&& spec_bottom(a) > b.position.y
}

/// A rectangle whose edges can be computed in 16-bit arithmetic.
pub open spec fn edges_fit(r: Rect) -> bool {
    &&& i16::MIN <= spec_right(r) <= i16::MAX
    &&& i16::MIN <= spec_bottom(r) <= i16::MAX
}

impl Rect {
    pub fn new(position: Point, width: i16, height: i16) -> (r: Rect)
        ensures
            r == (Rect { position, width, height }),
    {
        Rect { position, width, height }
    }

    pub fn new_from_x_y(x: i16, y: i16, width: i16, height: i16) -> (r: Rect)
        ensures
            r == (Rect { position: Point { x, y }, width, height }),
    {
        let position = Point { x, y };
        Rect { position, width, height }
    }

    pub fn set_x(&mut self, x: i16)
        ensures
            *final(self) == (Rect { position: Point { x, y: old(self).position.y }, ..*old(self) }),
    {
        self.position.x = x;
    }

    pub fn x(&self) -> (r: i16)
        ensures
            r == self.position.x,
    {
        self.position.x
    }

    pub fn y(&self) -> (r: i16)
        ensures
            r == self.position.y,
    {
        self.position.y
    }

    pub fn intersects(&self, other: &Rect) -> (r: bool)
        requires
            edges_fit(*self),
            edges_fit(*other),
        ensures
            r == spec_intersects(*self, *other),
    {
        self.x() < other.right()
            && self.right() > other.x()
            && self.y() < other.bottom()
            && self.bottom() > other.y()
    }

    pub fn right(&self) -> (r: i16)
        requires
            i16::MIN <= spec_right(*self) <= i16::MAX,
        ensures
            r == spec_right(*self),
    {
        self.x() + self.width
    }

    pub fn bottom(&self) -> (r: i16)
        requires
            i16::MIN <= spec_bottom(*self) <= i16::MAX,
        ensures
            r == spec_bottom(*self),
    {
        self.y() + self.height
    }
}

/// Intersection is symmetric: the test never depends on which rectangle asks.
pub proof fn lemma_intersects_symmetric(a: Rect, b: Rect)
    ensures
        spec_intersects(a, b) == spec_intersects(b, a),
{
}

/// Rectangles separated on an axis never intersect: if one ends at or before
/// the other begins, horizontally or vertically, the test is false.
pub proof fn lemma_separated_never_intersect(a: Rect, b: Rect)
    requires
        spec_right(a) <= b.position.x || spec_right(b) <= a.position.x
            || spec_bottom(a) <= b.position.y || spec_bottom(b) <= a.position.y,
    ensures
        !spec_intersects(a, b),
        !spec_intersects(b, a),
{
}

} // verus!
