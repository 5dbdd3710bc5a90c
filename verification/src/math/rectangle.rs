use vstd::prelude::*;
use vstd::std_specs::convert::FromSpecImpl;

verus! {

/// A rectangle in pixels: its top-left corner, its width and its height.
#[derive(Debug, Clone, Copy, PartialEq, Eq, Structural)]
pub struct Rectangle {
    pub x: i32,
    pub y: i32,
    pub w: i32,
    pub h: i32,
}

/// A width and a height in pixels.
#[derive(Debug, Clone, Copy, PartialEq, Eq, Structural)]
pub struct Size {
    pub w: i32,
    pub h: i32,
}

/// A coordinate in pixels as the sum of two whole numbers: where a
/// rectangle starts, and how far it reaches from there. The sum is formed
/// only where the coordinate becomes a single-precision number, of the two
/// terms converted one by one.
#[derive(Debug, Clone, Copy, PartialEq, Eq, Structural)]
pub struct Pixels {
    pub origin: i32,
    pub extent: i32,
}

impl Pixels {
    /// The coordinate as a whole number.
    pub open spec fn sum(self) -> int {
        self.origin + self.extent
    }

    /// The coordinate as a whole number.
    pub fn total(self) -> (total: i64)
        ensures
            total == self.sum(),
    {
        self.origin as i64 + self.extent as i64
    }
}

impl From<Size> for Rectangle {
    /// The rectangle of that size whose corner is the origin.
    fn from(value: Size) -> (r: Rectangle) {
        Rectangle { x: 0, y: 0, w: value.w, h: value.h }
    }
}

impl FromSpecImpl<Size> for Rectangle {
    open spec fn obeys_from_spec() -> bool {
        true
    }

    open spec fn from_spec(value: Size) -> Rectangle {
        Rectangle { x: 0, y: 0, w: value.w, h: value.h }
    }
}

impl From<Rectangle> for Size {
    /// The size of the rectangle; its corner is forgotten.
    fn from(value: Rectangle) -> (s: Size) {
        Size { w: value.w, h: value.h }
    }
}

impl FromSpecImpl<Rectangle> for Size {
    open spec fn obeys_from_spec() -> bool {
        true
    }

    open spec fn from_spec(value: Rectangle) -> Size {
        Size { w: value.w, h: value.h }
    }
}

impl From<(i32, i32)> for Size {
    /// The size with the given width and height, in that order.
    fn from(value: (i32, i32)) -> (s: Size) {
        Size { w: value.0, h: value.1 }
    }
}

impl FromSpecImpl<(i32, i32)> for Size {
    open spec fn obeys_from_spec() -> bool {
        true
    }

    open spec fn from_spec(value: (i32, i32)) -> Size {
        Size { w: value.0, h: value.1 }
    }
}

} // verus!
