//! A point of three real coordinates.

use crate::basics::binary64::{eq, ZERO};
use crate::basics::vec3::{equal3, Vec3};
use vstd::prelude::*;

verus! {

/// A position in space. Each coordinate is a binary64 bit pattern.
#[derive(Debug, Clone, Copy)]
pub struct Coord3(u64, u64, u64);

impl View for Coord3 {
    type V = (u64, u64, u64);

    /// The coordinates along x, y and z.
    closed spec fn view(&self) -> (u64, u64, u64) {
        (self.0, self.1, self.2)
    }
}

impl Coord3 {
    /// The point of the given coordinates.
    pub closed spec fn at(coordinates: (u64, u64, u64)) -> Self {
        Coord3(coordinates.0, coordinates.1, coordinates.2)
    }

    /// A point is known by its coordinates.
    pub broadcast proof fn at_view(coordinates: (u64, u64, u64))
        ensures
            (#[trigger] Self::at(coordinates))@ == coordinates,
    {
    }

    /// The point whose coordinates are all positive zero.
    pub fn new() -> (r: Self)
        ensures
            r@ == (ZERO, ZERO, ZERO),
    {
        Self(0, 0, 0)
    }

    /// The point of the given coordinates.
    pub fn new_from(x: u64, y: u64, z: u64) -> (r: Self)
        ensures
            r == Self::at((x, y, z)),
            r@ == (x, y, z),
    {
        Self(x, y, z)
    }

    /// The coordinate along x.
    pub fn x(&self) -> (r: u64)
        ensures
            r == self@.0,
    {
        self.0
    }

    /// The coordinate along y.
    pub fn y(&self) -> (r: u64)
        ensures
            r == self@.1,
    {
        self.1
    }

    /// The coordinate along z.
    pub fn z(&self) -> (r: u64)
        ensures
            r == self@.2,
    {
        self.2
    }

}

impl PartialEq for Coord3 {
    /// Equality of the coordinates as numbers: a zero equals the other zero,
    /// and a coordinate that is not a number equals nothing.
    fn eq(&self, other: &Self) -> (r: bool) {
        eq(self.0, other.0) && eq(self.1, other.1) && eq(self.2, other.2)
    }
}

impl vstd::std_specs::cmp::PartialEqSpecImpl for Coord3 {
    open spec fn obeys_eq_spec() -> bool {
        true
    }

    open spec fn eq_spec(&self, other: &Self) -> bool {
        equal3(self@, other@)
    }
}

impl From<Vec3> for Coord3 {
    /// The point that a vector leads to from the origin.
    fn from(value: Vec3) -> (r: Self) {
        Self(value.x(), value.y(), value.z())
    }
}

impl vstd::std_specs::convert::FromSpecImpl<Vec3> for Coord3 {
    open spec fn obeys_from_spec() -> bool {
        true
    }

    open spec fn from_spec(value: Vec3) -> Self {
        Coord3::at(value@)
    }
}

} // verus!
