//! Screen-space coordinate / velocity vector.

use vstd::prelude::*;

verus! {

/// A screen-space coordinate or a velocity vector, in signed 16-bit units.
#[derive(Clone, Copy, PartialEq, Eq, Structural, Debug)]
pub struct Point {
    pub x: i16,
    pub y: i16,
}

} // verus!
