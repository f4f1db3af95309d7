//! Axis-aligned rectangles in strip coordinates.

use vstd::prelude::*;

verus! {

/// A rectangle given by its top left corner and its extent.
#[derive(Clone, Copy, Debug, PartialEq, Eq, Structural)]
pub struct Rect {
    /// The x value of the top left corner of the rect.
    pub x: i32,
    /// The y value of the top left corner of the rect.
    pub y: i32,
    /// The width of the rect.
    pub width: i32,
    /// The height of the rect.
    pub height: i32,
}

/// The four edges of a rectangle, as window systems take them.
#[derive(Clone, Copy, Debug, PartialEq, Eq, Structural)]
pub struct Edges {
    pub left: i32,
    pub top: i32,
    pub right: i32,
    pub bottom: i32,
}

impl Rect {
    /// The x value of the right edge.
    pub open spec fn spec_x2(&self) -> int {
        self.x + self.width
    }

    /// The y value of the bottom edge.
    pub open spec fn spec_y2(&self) -> int {
        self.y + self.height
    }

    /// Both derived edges are representable.
    pub open spec fn edges_fit(&self) -> bool {
        &&& i32::MIN <= self.spec_x2() <= i32::MAX
        &&& i32::MIN <= self.spec_y2() <= i32::MAX
    }

    /// The point lies strictly inside the rectangle.
    pub open spec fn spec_contains(&self, x: int, y: int) -> bool {
        &&& self.x < x < self.spec_x2()
        &&& self.y < y < self.spec_y2()
    }

    /// Returns x value with the width added.
    pub fn x2(&self) -> (r: i32)
        requires
            i32::MIN <= self.spec_x2() <= i32::MAX,
        ensures
            r == self.spec_x2(),
    {
        self.x + self.width
    }

    /// Returns y value with the height added.
    pub fn y2(&self) -> (r: i32)
        requires
            i32::MIN <= self.spec_y2() <= i32::MAX,
        ensures
            r == self.spec_y2(),
    {
        self.y + self.height
    }

    /// Whether both derived edges can be computed without leaving `i32`.
    pub fn has_edges(&self) -> (r: bool)
        ensures
            r == self.edges_fit(),
    {
        let x2: i64 = self.x as i64 + self.width as i64;
        let y2: i64 = self.y as i64 + self.height as i64;
        -2147483648 <= x2 && x2 <= 2147483647 && -2147483648 <= y2 && y2 <= 2147483647
    }

    /// The rectangle as left, top, right and bottom edges.
    pub fn to_edges(&self) -> (r: Edges)
        requires
            self.edges_fit(),
        ensures
            r.left == self.x,
            r.top == self.y,
            r.right == self.spec_x2(),
            r.bottom == self.spec_y2(),
    {
        Edges { left: self.x, top: self.y, right: self.x2(), bottom: self.y2() }
    }

    /// Whether the point lies strictly inside the rectangle; a point on an
    /// edge is outside.
    pub fn contains(&self, x: i32, y: i32) -> (r: bool)
        ensures
            r == self.spec_contains(x as int, y as int),
    {
        let x2: i64 = self.x as i64 + self.width as i64;
        let y2: i64 = self.y as i64 + self.height as i64;
        x > self.x && (x as i64) < x2 && y > self.y && (y as i64) < y2
    }
}

impl Default for Rect {
    fn default() -> (r: Rect)
        ensures
            r == (Rect { x: 0, y: 0, width: 0, height: 0 }),
    {
        Rect { x: 0, y: 0, width: 0, height: 0 }
    }
}

} // verus!
