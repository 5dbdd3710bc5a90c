use vstd::prelude::*;
use vstd::std_specs::cmp::PartialEqSpecImpl;
use vstd::std_specs::convert::FromSpecImpl;
use crate::math::scalar::Scalar;

verus! {

/// A pair of scalars.
#[derive(Debug, Clone, Copy)]
pub struct Vector2 {
    pub x: Scalar,
    pub y: Scalar,
}

/// A point or direction in space.
#[derive(Debug, Clone, Copy)]
pub struct Vector3 {
    pub x: Scalar,
    pub y: Scalar,
    pub z: Scalar,
}

/// A homogeneous point, a colour, or a rectangle in texture space.
#[derive(Debug, Clone, Copy)]
pub struct Vector4 {
    pub x: Scalar,
    pub y: Scalar,
    pub z: Scalar,
    pub w: Scalar,
}

impl Vector2 {
    /// Whether the two vectors hold the same numbers, component by component.
    pub open spec fn same_numbers(self, other: Vector2) -> bool {
        self.x.same_number(other.x) && self.y.same_number(other.y)
    }
}

impl PartialEq for Vector2 {
    /// Whether the two vectors hold the same numbers.
    fn eq(&self, other: &Vector2) -> (r: bool) {
        self.x == other.x && self.y == other.y
    }
}

impl PartialEqSpecImpl for Vector2 {
    open spec fn obeys_eq_spec() -> bool {
        true
    }

    open spec fn eq_spec(&self, other: &Vector2) -> bool {
        self.same_numbers(*other)
    }
}

impl Vector3 {
    /// Whether the two vectors hold the same numbers, component by component.
    pub open spec fn same_numbers(self, other: Vector3) -> bool {
        self.x.same_number(other.x) && self.y.same_number(other.y) && self.z.same_number(other.z)
    }
}

impl PartialEq for Vector3 {
    /// Whether the two vectors hold the same numbers.
    fn eq(&self, other: &Vector3) -> (r: bool) {
        self.x == other.x && self.y == other.y && self.z == other.z
    }
}

impl PartialEqSpecImpl for Vector3 {
    open spec fn obeys_eq_spec() -> bool {
        true
    }

    open spec fn eq_spec(&self, other: &Vector3) -> bool {
        self.same_numbers(*other)
    }
}

impl Vector4 {
    /// Whether the two vectors hold the same numbers, component by component.
    pub open spec fn same_numbers(self, other: Vector4) -> bool {
        &&& self.x.same_number(other.x)
        &&& self.y.same_number(other.y)
        &&& self.z.same_number(other.z)
        &&& self.w.same_number(other.w)
    }

    /// Whether every component is a number.
    pub open spec fn all_numbers(self) -> bool {
        &&& !self.x.spec_is_nan()
        &&& !self.y.spec_is_nan()
        &&& !self.z.spec_is_nan()
        &&& !self.w.spec_is_nan()
    }
}

impl PartialEq for Vector4 {
    /// Whether the two vectors hold the same numbers.
    fn eq(&self, other: &Vector4) -> (r: bool) {
        self.x == other.x && self.y == other.y && self.z == other.z && self.w == other.w
    }
}

impl PartialEqSpecImpl for Vector4 {
    open spec fn obeys_eq_spec() -> bool {
        true
    }

    open spec fn eq_spec(&self, other: &Vector4) -> bool {
        self.same_numbers(*other)
    }
}

impl From<Vector3> for Vector4 {
    /// Lifts a point to homogeneous coordinates: the fourth component is one.
    fn from(value: Vector3) -> (v: Vector4) {
        Vector4 { x: value.x, y: value.y, z: value.z, w: Scalar::one() }
    }
}

impl FromSpecImpl<Vector3> for Vector4 {
    open spec fn obeys_from_spec() -> bool {
        true
    }

    open spec fn from_spec(value: Vector3) -> Vector4 {
        Vector4 { x: value.x, y: value.y, z: value.z, w: Scalar::spec_one() }
    }
}

impl From<(Scalar, Scalar, Scalar)> for Vector3 {
    fn from(value: (Scalar, Scalar, Scalar)) -> (v: Vector3) {
        Vector3 { x: value.0, y: value.1, z: value.2 }
    }
}

impl FromSpecImpl<(Scalar, Scalar, Scalar)> for Vector3 {
    open spec fn obeys_from_spec() -> bool {
        true
    }

    open spec fn from_spec(value: (Scalar, Scalar, Scalar)) -> Vector3 {
        Vector3 { x: value.0, y: value.1, z: value.2 }
    }
}

impl From<(Scalar, Scalar, Scalar, Scalar)> for Vector4 {
    fn from(value: (Scalar, Scalar, Scalar, Scalar)) -> (v: Vector4) {
        Vector4 { x: value.0, y: value.1, z: value.2, w: value.3 }
    }
}

impl FromSpecImpl<(Scalar, Scalar, Scalar, Scalar)> for Vector4 {
    open spec fn obeys_from_spec() -> bool {
        true
    }

    open spec fn from_spec(value: (Scalar, Scalar, Scalar, Scalar)) -> Vector4 {
        Vector4 { x: value.0, y: value.1, z: value.2, w: value.3 }
    }
}

} // verus!
