//! The sphere.

use crate::basics::binary64::{below, lt, size_is_zero_at_zero, total_cmp, total_rank, ZERO};
use crate::basics::coord3::Coord3;
use crate::basics::ray::{RayIntersectErr, RayIntersectOpaque};
use crate::objects::texture::OpaqueTexture;
use std::cmp::Ordering;
use vstd::prelude::*;

verus! {

/// An opaque sphere.
#[derive(Debug, Clone, Copy)]
pub struct OpaqueSphere {
    center: Coord3,
    radius: u64,
    texture: OpaqueTexture,
}

/// What the arithmetic of one ray against a sphere yields. The ray is
/// `origin + t * direction`, and `oc` leads from its origin to the centre.
/// With `a = direction . direction`, `b = 2 * (oc . direction)` and
/// `c = oc . oc - radius * radius`, the times of flight are sought among the
/// roots of `a * t * t + b * t + c`.
#[derive(Debug, Clone, Copy)]
pub struct SphereProbe {
    /// The length of `oc`.
    pub distance: u64,
    /// The discriminant `b * b - 4 * a * c`.
    pub delta: u64,
    /// The point of the ray at the time `-b / (2 * a)`.
    pub tangent: Coord3,
    /// The root `(-b - sqrt(delta)) / (2 * a)`.
    pub root1: u64,
    /// The root `(-b + sqrt(delta)) / (2 * a)`.
    pub root2: u64,
    /// The point of the ray at the time `root1`.
    pub hit1: Coord3,
    /// The point of the ray at the time `root2`.
    pub hit2: Coord3,
}

impl OpaqueSphere {
    /// The centre.
    pub closed spec fn center(&self) -> Coord3 {
        self.center
    }

    /// The radius, as a binary64 bit pattern.
    pub closed spec fn radius(&self) -> u64 {
        self.radius
    }

    /// The surface.
    pub closed spec fn texture(&self) -> OpaqueTexture {
        self.texture
    }

    /// The sphere of the given centre, radius and surface.
    pub fn new_from(center: Coord3, radius: u64, texture: OpaqueTexture) -> (r: Self)
        ensures
            r.center() == center,
            r.radius() == radius,
            r.texture() == texture,
    {
        Self { center, radius, texture }
    }

    /// The centre.
    pub fn get_center(&self) -> (r: &Coord3)
        ensures
            *r == self.center(),
    {
        &self.center
    }

    /// The radius.
    pub fn get_radius(&self) -> (r: u64)
        ensures
            r == self.radius(),
    {
        self.radius
    }
}

impl RayIntersectOpaque for OpaqueSphere {
    type Probe = SphereProbe;

    /// A ray that starts nearer to the centre than the radius is refused.
    /// Otherwise the discriminant decides, by its place in the total order of
    /// patterns: below positive zero there is no hit; at positive zero the
    /// hit is the tangent point; above it both roots must be times that are
    /// not negative, and the hit is the point at the smaller one.
    open spec fn outcome(&self, probe: &SphereProbe) -> Result<Option<Coord3>, RayIntersectErr> {
        if below(probe.distance, self.radius()) {
            Err(RayIntersectErr::InnerRayErr)
        } else if total_rank(probe.delta) < total_rank(ZERO) {
            Ok(None)
        } else if total_rank(probe.delta) == total_rank(ZERO) {
            Ok(Some(probe.tangent))
        } else if below(probe.root1, ZERO) || below(probe.root2, ZERO) {
            Err(RayIntersectErr::NegativeRootErr)
        } else if below(probe.root1, probe.root2) {
            Ok(Some(probe.hit1))
        } else {
            Ok(Some(probe.hit2))
        }
    }

    fn intersection(&self, probe: &SphereProbe) -> (r: Result<Option<Coord3>, RayIntersectErr>) {
        if lt(probe.distance, self.radius) {
            return Err(RayIntersectErr::InnerRayErr);
        }
        match total_cmp(probe.delta, ZERO) {
            Ordering::Less => Ok(None),
            Ordering::Equal => Ok(Some(probe.tangent)),
            Ordering::Greater => {
                if lt(probe.root1, ZERO) || lt(probe.root2, ZERO) {
                    return Err(RayIntersectErr::NegativeRootErr);
                }
                if lt(probe.root1, probe.root2) {
                    Ok(Some(probe.hit1))
                } else {
                    Ok(Some(probe.hit2))
                }
            },
        }
    }
}

/// A ray that starts inside a sphere is refused, whatever its direction and
/// whatever else the probe holds.
pub proof fn inner_ray_is_refused(sphere: OpaqueSphere, probe: SphereProbe)
    requires
        below(probe.distance, sphere.radius()),
    ensures
        sphere.outcome(&probe) == Err::<Option<Coord3>, RayIntersectErr>(
            RayIntersectErr::InnerRayErr,
        ),
{
}

/// A ray that starts outside a sphere and whose discriminant is below zero
/// hits nothing.
pub proof fn rootless_ray_misses(sphere: OpaqueSphere, probe: SphereProbe)
    requires
        !below(probe.distance, sphere.radius()),
        below(probe.delta, ZERO),
    ensures
        sphere.outcome(&probe) == Ok::<Option<Coord3>, RayIntersectErr>(None),
{
    size_is_zero_at_zero(probe.delta);
}

} // verus!
