//! The box whose faces are parallel to the coordinate planes.

use crate::basics::binary64::{above, at_least, below, gt, lt, nan, ZERO};
use crate::basics::coord3::Coord3;
use crate::basics::ray::{RayIntersectErr, RayIntersectOpaque};
use crate::errors::nan::{check, nan_message};
use crate::errors::MainErr;
use vstd::prelude::*;

verus! {

/// A box given by its lower and upper bound along each axis. No bound of a box
/// is a value that is not a number.
#[derive(Debug, Clone, Copy)]
pub struct AlignedBox {
    x_axis_bound: (u64, u64),
    y_axis_bound: (u64, u64),
    z_axis_bound: (u64, u64),
}

/// What the arithmetic of one ray against a box yields: for each axis the
/// time at which the ray crosses the plane of the lower bound and the time at
/// which it crosses the plane of the upper bound, each being the bound less
/// the origin's coordinate, divided by the direction's coordinate.
#[derive(Debug, Clone, Copy)]
pub struct BoxProbe {
    pub x: (u64, u64),
    pub y: (u64, u64),
    pub z: (u64, u64),
}

/// Whether both times of an axis are numbers above zero.
pub open spec fn crossed(times: (u64, u64)) -> bool {
    above(times.0, ZERO) && above(times.1, ZERO)
}

/// The earlier of the two times of an axis.
pub open spec fn earlier(times: (u64, u64)) -> u64 {
    if above(times.0, times.1) {
        times.1
    } else {
        times.0
    }
}

/// The later of the two times of an axis.
pub open spec fn later(times: (u64, u64)) -> u64 {
    if below(times.0, times.1) {
        times.1
    } else {
        times.0
    }
}

/// Where a ray enters and leaves: if the planes of every axis are crossed at
/// times above zero, the earlier times of the three axes and the later ones;
/// otherwise nothing.
pub open spec fn passage(probe: BoxProbe) -> Option<((u64, u64, u64), (u64, u64, u64))> {
    if crossed(probe.x) && crossed(probe.y) && crossed(probe.z) {
        Some(
            (
                (earlier(probe.x), earlier(probe.y), earlier(probe.z)),
                (later(probe.x), later(probe.y), later(probe.z)),
            ),
        )
    } else {
        None
    }
}

fn is_crossed(times: (u64, u64)) -> (r: bool)
    ensures
        r == crossed(times),
{
    gt(times.0, ZERO) && gt(times.1, ZERO)
}

fn min(times: (u64, u64)) -> (r: u64)
    ensures
        r == earlier(times),
{
    if gt(times.0, times.1) {
        times.1
    } else {
        times.0
    }
}

fn max(times: (u64, u64)) -> (r: u64)
    ensures
        r == later(times),
{
    if lt(times.0, times.1) {
        times.1
    } else {
        times.0
    }
}

impl AlignedBox {
    #[verifier::type_invariant]
    spec fn bounded(self) -> bool {
        !nan(self.x_axis_bound.0) && !nan(self.x_axis_bound.1) && !nan(self.y_axis_bound.0)
            && !nan(self.y_axis_bound.1) && !nan(self.z_axis_bound.0) && !nan(
            self.z_axis_bound.1,
        )
    }

    /// The bounds along x, y and z.
    pub closed spec fn bounds(&self) -> ((u64, u64), (u64, u64), (u64, u64)) {
        (self.x_axis_bound, self.y_axis_bound, self.z_axis_bound)
    }

    /// Whether a pair of bounds holds a value that is not a number.
    pub open spec fn unbounded(bound: (u64, u64)) -> bool {
        nan(bound.0) || nan(bound.1)
    }

    /// Makes the box of the given bounds, if each of them is a number.
    pub fn new_from(x_axis_bound: (u64, u64), y_axis_bound: (u64, u64), z_axis_bound: (
        u64,
        u64,
    )) -> (r: Result<Self, MainErr>)
        ensures
            match r {
                Ok(b) => b.bounds() == (x_axis_bound, y_axis_bound, z_axis_bound)
                    && !Self::unbounded(x_axis_bound) && !Self::unbounded(y_axis_bound)
                    && !Self::unbounded(z_axis_bound),
                Err(e) => e@ == nan_message("AlignedBox::new_from"@) && (Self::unbounded(
                    x_axis_bound,
                ) || Self::unbounded(y_axis_bound) || Self::unbounded(z_axis_bound)),
            },
    {
        check::<MainErr>(x_axis_bound.0, "AlignedBox::new_from")?;
        check::<MainErr>(x_axis_bound.1, "AlignedBox::new_from")?;
        check::<MainErr>(y_axis_bound.0, "AlignedBox::new_from")?;
        check::<MainErr>(y_axis_bound.1, "AlignedBox::new_from")?;
        check::<MainErr>(z_axis_bound.0, "AlignedBox::new_from")?;
        check::<MainErr>(z_axis_bound.1, "AlignedBox::new_from")?;
        Ok(Self { x_axis_bound, y_axis_bound, z_axis_bound })
    }

    /// The lower and upper bound along x, both numbers.
    pub fn get_x(&self) -> (r: (u64, u64))
        ensures
            r == self.bounds().0,
            !Self::unbounded(r),
    {
        proof {
            use_type_invariant(self);
        }
        self.x_axis_bound
    }

    /// The lower and upper bound along y, both numbers.
    pub fn get_y(&self) -> (r: (u64, u64))
        ensures
            r == self.bounds().1,
            !Self::unbounded(r),
    {
        proof {
            use_type_invariant(self);
        }
        self.y_axis_bound
    }

    /// The lower and upper bound along z, both numbers.
    pub fn get_z(&self) -> (r: (u64, u64))
        ensures
            r == self.bounds().2,
            !Self::unbounded(r),
    {
        proof {
            use_type_invariant(self);
        }
        self.z_axis_bound
    }

    /// Where a ray enters and where it leaves, if the planes of every axis
    /// are crossed at times above zero.
    pub fn enter_n_exit(&self, probe: &BoxProbe) -> (r: Result<
        Option<(Coord3, Coord3)>,
        RayIntersectErr,
    >)
        ensures
            r == Ok::<Option<(Coord3, Coord3)>, RayIntersectErr>(
                match passage(*probe) {
                    Some((enter, exit)) => Some((Coord3::at(enter), Coord3::at(exit))),
                    None => None,
                },
            ),
    {
        if is_crossed(probe.x) && is_crossed(probe.y) && is_crossed(probe.z) {
            let enter = Coord3::new_from(min(probe.x), min(probe.y), min(probe.z));
            let exit = Coord3::new_from(max(probe.x), max(probe.y), max(probe.z));
            Ok(Some((enter, exit)))
        } else {
            Ok(None)
        }
    }
}

impl RayIntersectOpaque for AlignedBox {
    type Probe = BoxProbe;

    /// The hit is where the ray enters.
    open spec fn outcome(&self, probe: &BoxProbe) -> Result<Option<Coord3>, RayIntersectErr> {
        match passage(*probe) {
            Some((enter, _)) => Ok(Some(Coord3::at(enter))),
            None => Ok(None),
        }
    }

    fn intersection(&self, probe: &BoxProbe) -> (r: Result<Option<Coord3>, RayIntersectErr>) {
        if is_crossed(probe.x) && is_crossed(probe.y) && is_crossed(probe.z) {
            Ok(Some(Coord3::new_from(min(probe.x), min(probe.y), min(probe.z))))
        } else {
            Ok(None)
        }
    }
}

/// Along each axis a ray that passes through enters at a time above zero and
/// leaves no earlier than it enters.
pub proof fn passage_is_ordered(probe: BoxProbe)
    requires
        passage(probe) is Some,
    ensures
        ({
            let (enter, exit) = passage(probe)->Some_0;
            &&& above(enter.0, ZERO) && at_least(exit.0, enter.0)
            &&& above(enter.1, ZERO) && at_least(exit.1, enter.1)
            &&& above(enter.2, ZERO) && at_least(exit.2, enter.2)
        }),
{
}

} // verus!
