//! What it means for a shape to be hit by a ray.
//!
//! The arithmetic of a ray against a shape is the caller's: it yields a probe,
//! the handful of numbers that the shape's rule reads. The rule itself, which
//! of them decide a hit and which point is the hit, is the shape's
//! `intersection`.

use crate::basics::coord3::Coord3;
use crate::errors::MainErr;
use vstd::prelude::*;
use vstd::string::*;

verus! {

/// Why no answer could be given about a ray and a shape.
#[derive(Debug)]
pub enum RayIntersectErr {
    /// The ray starts inside the shape.
    InnerRayErr,
    /// A value that is not a number was met.
    RayIntersectNaNErr(MainErr),
    /// A root of the quadratic, a time of flight, is negative.
    NegativeRootErr,
}

impl RayIntersectErr {
    /// The text shown for the error.
    pub open spec fn shown(&self) -> Seq<char> {
        match self {
            Self::InnerRayErr => "ray inside the object"@,
            Self::NegativeRootErr => "quadratic equation has negative root"@,
            Self::RayIntersectNaNErr(e) => e.shown(),
        }
    }

    /// Renders the error as text.
    pub fn message(&self) -> (r: String)
        ensures
            r@ == self.shown(),
    {
        match self {
            Self::InnerRayErr => String::from_str("ray inside the object"),
            Self::NegativeRootErr => String::from_str("quadratic equation has negative root"),
            Self::RayIntersectNaNErr(e) => e.message(),
        }
    }
}

/// An opaque shape that a ray can hit.
pub trait RayIntersectOpaque {
    /// What the arithmetic of one ray against the shape yields.
    type Probe;

    /// The shape's rule: no hit, the first point hit, or why neither can be
    /// said.
    spec fn outcome(&self, probe: &Self::Probe) -> Result<Option<Coord3>, RayIntersectErr>;

    /// Applies the shape's rule to a probe.
    fn intersection(&self, probe: &Self::Probe) -> (r: Result<Option<Coord3>, RayIntersectErr>)
        ensures
            r == self.outcome(probe),
    ;
}

} // verus!
