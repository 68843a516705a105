//! Overlap tests between the ball and a straight surface.
//!
//! A surface is a line segment given by its two end points. It lies on one
//! row (a horizontal surface, such as the top edge of the paddle or of a
//! brick) or on one column. The tests are pure: bouncing, scoring and brick
//! removal are decided by the caller.

use vstd::prelude::*;
use crate::geometry::{abs_diff, distance, Point, Vector};

verus! {

/// The direction in which a surface runs.
#[derive(Clone, Copy, Debug, PartialEq, Eq, Structural)]
pub enum Axis {
    /// The surface lies on one row and runs along `x`.
    Horizontal,
    /// The surface lies on one column and runs along `y`.
    Vertical,
}

/// How far from the surface's own row (or column) the item still touches it.
pub const TOLERANCE: u32 = 1;

/// The item touches the surface from `start` to `end`: along the surface's
/// axis it lies strictly between the two end points, and across that axis it
/// is at most [`TOLERANCE`] away from the row (or column) of `start`.
pub open spec fn hits(item: Vector, start: Vector, end: Vector, axis: Axis) -> bool {
    match axis {
        Axis::Horizontal => start.x < item.x < end.x && distance(item.y, start.y) <= TOLERANCE,
        Axis::Vertical => start.y < item.y < end.y && distance(item.x, start.x) <= TOLERANCE,
    }
}

/// The horizontal surface of the given width whose left end is `corner`:
/// the top edge of a paddle or of a brick.
pub open spec fn hits_top_edge(item: Vector, corner: Vector, width: int) -> bool {
    hits(item, corner, corner.plus(Vector { x: width, y: 0 }), Axis::Horizontal)
}

/// Tests whether `item` touches the surface that runs from `surface_start`
/// to `surface_end` along `axis`.
pub fn check_hit(item: Point, surface_start: Point, surface_end: Point, axis: Axis) -> (hit: bool)
    ensures
        hit == hits(item@, surface_start@, surface_end@, axis),
{
    match axis {
        Axis::Horizontal => {
            if item.x > surface_start.x && item.x < surface_end.x {
                abs_diff(item.y, surface_start.y) <= TOLERANCE
            } else {
                false
            }
        },
        Axis::Vertical => {
            if item.y > surface_start.y && item.y < surface_end.y {
                abs_diff(item.x, surface_start.x) <= TOLERANCE
            } else {
                false
            }
        },
    }
}

/// Tests whether `item` touches the top edge of a rectangle whose top-left
/// corner is `corner` and which is `width` cells wide. The right end of the
/// edge is computed in 64 bits, so every corner and width is accepted.
pub fn check_hit_top_edge(item: Point, corner: Point, width: i32) -> (hit: bool)
    ensures
        hit == hits_top_edge(item@, corner@, width as int),
{
    let right: i64 = corner.x as i64 + width as i64;
    if item.x > corner.x && (item.x as i64) < right {
        abs_diff(item.y, corner.y) <= TOLERANCE
    } else {
        false
    }
}

} // verus!
