use vstd::prelude::*;

verus! {

/// A 2D integer vector, used for positions and velocities.
#[derive(Clone, Copy, Debug, PartialEq, Eq, Structural)]
pub struct Point {
    pub x: i16,
    pub y: i16,
}

/// An axis-aligned rectangle anchored at its top-left corner.
#[derive(Clone, Copy, Debug, PartialEq, Eq, Structural)]
pub struct Rect {
    pub position: Point,
    pub width: i16,
    pub height: i16,
}

/// Rectangles whose edges can be computed without leaving `i16`.
pub open spec fn fits_i16(v: int) -> bool {
    i16::MIN <= v <= i16::MAX
}

impl Rect {
    pub open spec fn spec_right(self) -> int {
        self.position.x + self.width
    }

    pub open spec fn spec_bottom(self) -> int {
        self.position.y + self.height
    }

    /// Both far edges are representable.
    pub open spec fn edges_fit(self) -> bool {
        fits_i16(self.spec_right()) && fits_i16(self.spec_bottom())
    }

    /// Overlap with half-open edges: touching rectangles do not intersect.
    pub open spec fn spec_intersects(self, other: Rect) -> bool {
        &&& self.position.x < other.spec_right()
        &&& self.spec_right() > other.position.x
        &&& self.position.y < other.spec_bottom()
        &&& self.spec_bottom() > other.position.y
    }

    pub fn new(position: Point, width: i16, height: i16) -> (r: Rect)
        ensures
            r == (Rect { position, width, height }),
    {
        Rect { position, width, height }
    }

    pub fn new_from_x_y(x: i16, y: i16, width: i16, height: i16) -> (r: Rect)
        ensures
            r == (Rect { position: Point { x, y }, width, height }),
    {
        Rect { position: Point { x, y }, width, height }
    }

    pub fn x(&self) -> (r: i16)
        ensures
            r == self.position.x,
    {
        self.position.x
    }

    pub fn y(&self) -> (r: i16)
        ensures
            r == self.position.y,
    {
        self.position.y
    }

    pub fn right(&self) -> (r: i16)
        requires
            self.edges_fit(),
        ensures
            r == self.spec_right(),
    {
        self.position.x + self.width
    }

    pub fn bottom(&self) -> (r: i16)
        requires
            self.edges_fit(),
        ensures
            r == self.spec_bottom(),
    {
        self.position.y + self.height
    }

    pub fn set_x(&mut self, x: i16)
        ensures
            *final(self) == (Rect { position: Point { x, y: old(self).position.y }, ..*old(self) }),
    {
        self.position.x = x;
    }

    pub fn intersects(&self, other: &Rect) -> (r: bool)
        requires
            self.edges_fit(),
            other.edges_fit(),
        ensures
            r == self.spec_intersects(*other),
    {
        self.x() < other.right() && self.right() > other.x() && self.y() < other.bottom()
            && self.bottom() > other.y()
    }
}

} // verus!
