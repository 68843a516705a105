//! Integer points and vectors of the character grid.
//!
//! The grid's origin is the top-left corner; `y` grows downwards.

use vstd::prelude::*;

verus! {

/// A pair of unbounded integers: what a [`Point`] stands for in contracts.
pub struct Vector {
    pub x: int,
    pub y: int,
}

impl Vector {
    /// Component-wise sum.
    pub open spec fn plus(self, other: Vector) -> Vector {
        Vector { x: self.x + other.x, y: self.y + other.y }
    }

    /// The vector with its horizontal component negated.
    pub open spec fn flipped_x(self) -> Vector {
        Vector { x: -self.x, y: self.y }
    }

    /// The vector with its vertical component negated.
    pub open spec fn flipped_y(self) -> Vector {
        Vector { x: self.x, y: -self.y }
    }

    /// Both components can be stored in an `i32`.
    pub open spec fn fits(self) -> bool {
        &&& i32::MIN <= self.x <= i32::MAX
        &&& i32::MIN <= self.y <= i32::MAX
    }
}

/// Distance between two integers.
pub open spec fn distance(a: int, b: int) -> nat {
    if a >= b {
        (a - b) as nat
    } else {
        (b - a) as nat
    }
}

/// A position or a displacement on the grid.
#[derive(Clone, Copy, Debug, PartialEq, Eq, Structural)]
pub struct Point {
    pub x: i32,
    pub y: i32,
}

impl View for Point {
    type V = Vector;

    open spec fn view(&self) -> Vector {
        Vector { x: self.x as int, y: self.y as int }
    }
}

impl Point {
    /// The point with the given coordinates.
    pub fn xy(x: i32, y: i32) -> (p: Point)
        ensures
            p.x == x,
            p.y == y,
    {
        Point { x, y }
    }

    /// Component-wise sum of two points.
    pub fn plus(self, other: Point) -> (sum: Point)
        requires
            self@.plus(other@).fits(),
        ensures
            sum@ == self@.plus(other@),
    {
        Point { x: self.x + other.x, y: self.y + other.y }
    }

    /// The point with its horizontal component negated.
    pub fn flipped_x(self) -> (flipped: Point)
        requires
            self.x > i32::MIN,
        ensures
            flipped@ == self@.flipped_x(),
    {
        Point { x: -self.x, y: self.y }
    }

    /// The point with its vertical component negated.
    pub fn flipped_y(self) -> (flipped: Point)
        requires
            self.y > i32::MIN,
        ensures
            flipped@ == self@.flipped_y(),
    {
        Point { x: self.x, y: -self.y }
    }
}

/// Distance between two coordinates. The result always fits: the widest gap
/// between two `i32` values is `u32::MAX`.
pub fn abs_diff(a: i32, b: i32) -> (d: u32)
    ensures
        d == distance(a as int, b as int),
{
    if a >= b {
        (a as i64 - b as i64) as u32
    } else {
        (b as i64 - a as i64) as u32
    }
}

} // verus!
