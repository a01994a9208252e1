//! The rectangle of the driver's viewport transform, tracked so that
//! the values last handed to the driver can be read back without a
//! driver query.

use vstd::prelude::*;

verus! {

/// A viewport rectangle: an origin and a size, in pixels.
#[derive(Clone, Copy, PartialEq, Eq, Structural, Hash, Debug)]
pub struct Viewport {
    x: i32,
    y: i32,
    width: i32,
    height: i32,
}

impl Viewport {
    /// The horizontal origin.
    pub closed spec fn x_spec(self) -> i32 {
        self.x
    }

    /// The vertical origin.
    pub closed spec fn y_spec(self) -> i32 {
        self.y
    }

    /// The width.
    pub closed spec fn width_spec(self) -> i32 {
        self.width
    }

    /// The height.
    pub closed spec fn height_spec(self) -> i32 {
        self.height
    }

    /// A viewport of the given size with its origin at zero.
    pub fn new(width: i32, height: i32) -> (r: Self)
        ensures
            r.x_spec() == 0,
            r.y_spec() == 0,
            r.width_spec() == width,
            r.height_spec() == height,
    {
        Viewport { x: 0, y: 0, width, height }
    }

    /// A viewport of the given size and origin.
    pub fn with_position(x: i32, y: i32, width: i32, height: i32) -> (r: Self)
        ensures
            r.x_spec() == x,
            r.y_spec() == y,
            r.width_spec() == width,
            r.height_spec() == height,
    {
        Viewport { x, y, width, height }
    }

    /// The horizontal origin.
    pub fn x(&self) -> (r: i32)
        ensures
            r == self.x_spec(),
    {
        self.x
    }

    /// The vertical origin.
    pub fn y(&self) -> (r: i32)
        ensures
            r == self.y_spec(),
    {
        self.y
    }

    /// The width.
    pub fn width(&self) -> (r: i32)
        ensures
            r == self.width_spec(),
    {
        self.width
    }

    /// The height.
    pub fn height(&self) -> (r: i32)
        ensures
            r == self.height_spec(),
    {
        self.height
    }

    /// Moves the origin, keeping the size.
    pub fn set_position(&mut self, x: i32, y: i32)
        ensures
            final(self).x_spec() == x,
            final(self).y_spec() == y,
            final(self).width_spec() == old(self).width_spec(),
            final(self).height_spec() == old(self).height_spec(),
    {
        self.x = x;
        self.y = y;
    }

    /// Resizes the rectangle, keeping the origin.
    pub fn set_size(&mut self, width: i32, height: i32)
        ensures
            final(self).x_spec() == old(self).x_spec(),
            final(self).y_spec() == old(self).y_spec(),
            final(self).width_spec() == width,
            final(self).height_spec() == height,
    {
        self.width = width;
        self.height = height;
    }
}

} // verus!
