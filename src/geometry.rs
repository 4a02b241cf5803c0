//! Axis-aligned boxes: the overlap test and the clamped vertical offset
//! between two centres.
use vstd::prelude::*;
use crate::arith::{clamp, clamp_i128};

verus! {

/// An axis-aligned box given by its centre and its half extents.
#[derive(Clone, Copy, Debug, PartialEq, Eq)]
pub struct Aabb {
    pub x: i64,
    pub y: i64,
    pub half_width: i64,
    pub half_height: i64,
}

impl Aabb {
    pub open spec fn left(self) -> int {
        self.x - self.half_width
    }

    pub open spec fn right(self) -> int {
        self.x + self.half_width
    }

    pub open spec fn bottom(self) -> int {
        self.y - self.half_height
    }

    pub open spec fn top(self) -> int {
        self.y + self.half_height
    }

    /// The boxes share interior area: edges that merely touch do not count.
    pub open spec fn overlaps_spec(self, o: Aabb) -> bool {
        &&& self.left() < o.right()
        &&& self.right() > o.left()
        &&& self.bottom() < o.top()
        &&& self.top() > o.bottom()
    }
}

/// Strict overlap test of two boxes.
pub fn overlaps(a: &Aabb, b: &Aabb) -> (r: bool)
    ensures
        r == a.overlaps_spec(*b),
{
    let a_left = a.x as i128 - a.half_width as i128;
    let a_right = a.x as i128 + a.half_width as i128;
    let a_bottom = a.y as i128 - a.half_height as i128;
    let a_top = a.y as i128 + a.half_height as i128;
    let b_left = b.x as i128 - b.half_width as i128;
    let b_right = b.x as i128 + b.half_width as i128;
    let b_bottom = b.y as i128 - b.half_height as i128;
    let b_top = b.y as i128 + b.half_height as i128;
    a_left < b_right && a_right > b_left && a_bottom < b_top && a_top > b_bottom
}

/// The vertical distance from `center_y` to `y`, limited to
/// `[-half_height, half_height]`: the impact offset before normalising.
pub fn clamped_offset(y: i64, center_y: i64, half_height: i64) -> (r: i64)
    requires
        half_height > 0,
    ensures
        r == clamp(y - center_y, -half_height, half_height as int),
        -half_height <= r <= half_height,
{
    let d = y as i128 - center_y as i128;
    let c = clamp_i128(d, -(half_height as i128), half_height as i128);
    c as i64
}

} // verus!
