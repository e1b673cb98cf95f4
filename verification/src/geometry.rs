use vstd::prelude::*;

verus! {

/// A 2-D extent in output-surface units, allowing for non-square pixels.
#[derive(Debug, PartialEq, Eq, Clone, Copy, Structural)]
pub struct Size {
    /// Horizontal extent.
    pub width: u32,
    /// Vertical extent.
    pub height: u32,
}

impl Size {
    /// Creates a size from its two components.
    pub fn new(width: u32, height: u32) -> (r: Self)
        ensures
            r == (Size { width, height }),
    {
        Size { width, height }
    }

    /// Creates a size whose width and height are both `value`.
    pub fn new_equal(value: u32) -> (r: Self)
        ensures
            r == (Size { width: value, height: value }),
    {
        Size { width: value, height: value }
    }
}

/// A 2-D integer coordinate on the output surface or the simulated display.
#[derive(Debug, PartialEq, Eq, Clone, Copy, Structural)]
pub struct Point {
    /// Horizontal coordinate.
    pub x: i32,
    /// Vertical coordinate.
    pub y: i32,
}

impl Point {
    /// Creates a point from its two coordinates.
    pub fn new(x: i32, y: i32) -> (r: Self)
        ensures
            r == (Point { x, y }),
    {
        Point { x, y }
    }

    /// Element-wise truncating integer division of `self` by `other`.
    ///
    /// Only non-negative coordinates divided by positive divisors are
    /// specified; for non-negative operands truncating division agrees with
    /// flooring division.
    pub fn component_div(self, other: Point) -> (r: Point)
        requires
            self.x >= 0,
            self.y >= 0,
            other.x > 0,
            other.y > 0,
        ensures
            r.x == self.x as int / other.x as int,
            r.y == self.y as int / other.y as int,
    {
        let x: i32 = ((self.x as u32) / (other.x as u32)) as i32;
        let y: i32 = ((self.y as u32) / (other.y as u32)) as i32;
        Point { x, y }
    }
}

} // verus!
