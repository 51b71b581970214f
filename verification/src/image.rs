//! A positioned image, modeled by its bounding box.
//!
//! The host owns the decoded picture; the simulation only reads and moves
//! the box the picture occupies, so that is all this type holds.

use vstd::prelude::*;

use crate::point::Point;
use crate::rect::{spec_right, Rect};

verus! {

/// A picture placed on screen: the box it covers. Scrolling the world moves
/// the box; the host draws whatever pixels belong to it.
#[derive(Clone, Copy, PartialEq, Eq, Structural, Debug)]
pub struct Image {
    pub bounding_box: Rect,
}

impl Image {
    pub fn new(position: Point, width: i16, height: i16) -> (r: Image)
        ensures
            r == (Image { bounding_box: Rect { position, width, height } }),
    {
        Image { bounding_box: Rect::new(position, width, height) }
    }

    pub fn bounding_box(&self) -> (r: &Rect)
        ensures
            *r == self.bounding_box,
    {
        &self.bounding_box
    }

    pub fn right(&self) -> (r: i16)
        requires
            i16::MIN <= spec_right(self.bounding_box) <= i16::MAX,
        ensures
            r == spec_right(self.bounding_box),
    {
        self.bounding_box.right()
    }

    pub fn move_horizontally(&mut self, dx: i16)
        requires
            i16::MIN <= old(self).bounding_box.position.x + dx <= i16::MAX,
        ensures
            final(self).bounding_box.position.x == old(self).bounding_box.position.x + dx,
            final(self).bounding_box.position.y == old(self).bounding_box.position.y,
            final(self).bounding_box.width == old(self).bounding_box.width,
            final(self).bounding_box.height == old(self).bounding_box.height,
    {
        let x = self.bounding_box.x() + dx;
        self.bounding_box.set_x(x);
    }

    pub fn set_x(&mut self, x: i16)
        ensures
            final(self).bounding_box.position.x == x,
            final(self).bounding_box.position.y == old(self).bounding_box.position.y,
            final(self).bounding_box.width == old(self).bounding_box.width,
            final(self).bounding_box.height == old(self).bounding_box.height,
    {
        self.bounding_box.set_x(x);
    }
}

} // verus!
