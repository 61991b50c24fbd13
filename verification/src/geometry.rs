//! Axis-aligned boxes and the overlap test between them.

use vstd::prelude::*;

verus! {

/// A box in the plane: the position of its centre and its full extent along
/// each axis, as mathematical integers.
pub struct Rect {
    pub x: int,
    pub y: int,
    pub width: int,
    pub height: int,
}

/// Whether two intervals, each given by its centre and full length, share
/// more than an end point. Edges are compared at twice their value, so that
/// half of an odd length loses nothing.
pub open spec fn spans_overlap(centre_a: int, length_a: int, centre_b: int, length_b: int) -> bool {
    &&& 2 * centre_a - length_a < 2 * centre_b + length_b
    &&& 2 * centre_b - length_b < 2 * centre_a + length_a
}

impl Rect {
    /// Two boxes overlap when their intervals overlap on both axes. Boxes
    /// that only touch along an edge or at a corner do not overlap.
    pub open spec fn overlaps(self, other: Rect) -> bool {
        &&& spans_overlap(self.x, self.width, other.x, other.width)
        &&& spans_overlap(self.y, self.height, other.y, other.height)
    }
}

/// A box with machine-integer coordinates.
#[derive(Clone, Copy, Debug, PartialEq, Eq)]
pub struct Aabb {
    pub x: i64,
    pub y: i64,
    pub width: i64,
    pub height: i64,
}

impl View for Aabb {
    type V = Rect;

    open spec fn view(&self) -> Rect {
        Rect { x: self.x as int, y: self.y as int, width: self.width as int, height: self.height as int }
    }
}

/// Exact overlap test for two intervals with machine-integer coordinates.
fn spans_collide(centre_a: i64, length_a: i64, centre_b: i64, length_b: i64) -> (hit: bool)
    ensures
        hit == spans_overlap(centre_a as int, length_a as int, centre_b as int, length_b as int),
{
    let low_a: i128 = 2 * (centre_a as i128) - (length_a as i128);
    let high_a: i128 = 2 * (centre_a as i128) + (length_a as i128);
    let low_b: i128 = 2 * (centre_b as i128) - (length_b as i128);
    let high_b: i128 = 2 * (centre_b as i128) + (length_b as i128);
    low_a < high_b && low_b < high_a
}

/// Tells whether two boxes overlap.
pub fn collide(a: &Aabb, b: &Aabb) -> (hit: bool)
    ensures
        hit == a@.overlaps(b@),
{
    spans_collide(a.x, a.width, b.x, b.width) && spans_collide(a.y, a.height, b.y, b.height)
}

} // verus!
