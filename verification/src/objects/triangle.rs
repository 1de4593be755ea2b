//! The triangle.

use crate::basics::binary64::{above, at_least, below, ge, gt, lt, ONE, ZERO};
use crate::basics::coord3::Coord3;
use crate::basics::ray::{RayIntersectErr, RayIntersectOpaque};
use crate::basics::vec3::{equal3, Vec3};
use vstd::prelude::*;
use vstd::string::*;

verus! {

/// Why a triangle could not be made.
#[derive(Debug, Clone, Copy, PartialEq, Eq, Structural)]
pub enum TriagErr {
    /// The three corners lie on one line.
    InvalidParamErr,
}

impl TriagErr {
    /// The text shown for the error.
    pub open spec fn shown(&self) -> Seq<char> {
        "invalid triangle construction"@
    }

    /// Renders the error as text.
    pub fn message(&self) -> (r: String)
        ensures
            r@ == self.shown(),
    {
        String::from_str("invalid triangle construction")
    }
}

/// An opaque triangle. Its normal, the cross product of the edges that leave
/// the first corner, is not the zero vector.
#[derive(Debug, Clone, Copy)]
pub struct OpaqueTriangle {
    p1: Coord3,
    p2: Coord3,
    p3: Coord3,
    normal: Vec3,
}

/// What the arithmetic of one ray against a triangle yields, with the edges
/// `e1 = p2 - p1` and `e2 = p3 - p1`, `s = origin - p1`,
/// `s1 = direction x e2`, `s2 = s x e1` and `inv = 1 / (s1 . e1)`.
#[derive(Debug, Clone, Copy)]
pub struct TriangleProbe {
    /// The time of flight to the triangle's plane, `(s2 . e2) * inv`.
    pub t: u64,
    /// The weight of the second corner, `(s1 . s) * inv`.
    pub b1: u64,
    /// The weight of the third corner, `(s2 . direction) * inv`.
    pub b2: u64,
    /// The sum of the two weights.
    pub b_sum: u64,
    /// The point of the ray at the time `t`.
    pub hit: Coord3,
}

/// Whether a vector is zero along every axis.
pub open spec fn vanishes(v: Vec3) -> bool {
    equal3(v@, (ZERO, ZERO, ZERO))
}

/// Whether a ray meets the inside of a triangle: the time of flight is not
/// negative, both weights are above zero, and their sum is below one. A point
/// on an edge is not inside, and a value that is not a number fails every
/// test.
pub open spec fn inside(probe: TriangleProbe) -> bool {
    at_least(probe.t, ZERO) && above(probe.b1, ZERO) && above(probe.b2, ZERO) && below(
        probe.b_sum,
        ONE,
    )
}

impl OpaqueTriangle {
    #[verifier::type_invariant]
    spec fn spans(self) -> bool {
        !vanishes(self.normal)
    }

    /// The three corners.
    pub closed spec fn corners(&self) -> (Coord3, Coord3, Coord3) {
        (self.p1, self.p2, self.p3)
    }

    /// The normal that the triangle was made with.
    pub closed spec fn normal(&self) -> Vec3 {
        self.normal
    }

    /// Makes the triangle of three corners. `normal` is the cross product of
    /// `p2 - p1` and `p3 - p1`; where it is zero the corners lie on one line
    /// and no triangle is made.
    pub fn new_from(p1: Coord3, p2: Coord3, p3: Coord3, normal: Vec3) -> (r: Result<
        Self,
        TriagErr,
    >)
        ensures
            match r {
                Ok(t) => !vanishes(normal) && t.corners() == (p1, p2, p3) && t.normal() == normal,
                Err(e) => e == TriagErr::InvalidParamErr && vanishes(normal),
            },
    {
        if normal == Vec3::new() {
            return Err(TriagErr::InvalidParamErr);
        }
        Ok(Self { p1, p2, p3, normal })
    }

    /// The normal, which is not the zero vector.
    pub fn get_normal(&self) -> (r: Vec3)
        ensures
            r == self.normal(),
            !vanishes(r),
    {
        proof {
            use_type_invariant(self);
        }
        self.normal
    }

    /// The three corners.
    pub fn get_corners(&self) -> (r: (Coord3, Coord3, Coord3))
        ensures
            r == self.corners(),
    {
        (self.p1, self.p2, self.p3)
    }
}

impl RayIntersectOpaque for OpaqueTriangle {
    type Probe = TriangleProbe;

    /// The hit is the point on the plane if the ray meets the inside, from
    /// either side.
    open spec fn outcome(&self, probe: &TriangleProbe) -> Result<Option<Coord3>, RayIntersectErr> {
        if inside(*probe) {
            Ok(Some(probe.hit))
        } else {
            Ok(None)
        }
    }

    fn intersection(&self, probe: &TriangleProbe) -> (r: Result<Option<Coord3>, RayIntersectErr>) {
        if ge(probe.t, ZERO) && gt(probe.b1, ZERO) && gt(probe.b2, ZERO) && lt(probe.b_sum, ONE) {
            Ok(Some(probe.hit))
        } else {
            Ok(None)
        }
    }
}

} // verus!
