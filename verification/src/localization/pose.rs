//! The robot's pose.

use vstd::prelude::*;
use crate::units::{Angle, AngularVelocity, Length, Velocity};

verus! {

/// A snapshot of position, heading and their rates of change.
///
/// The heading accumulates without bound; it is wrapped only where a reader
/// asks for that.
#[derive(Clone, Copy, Debug, PartialEq, Eq, Structural)]
pub struct Pose {
    pub x: Length,
    pub y: Length,
    pub h: Angle,
    pub vf: Velocity,
    pub vs: Velocity,
    pub omega: AngularVelocity,
}

/// The pose at rest at the given position and heading.
pub open spec fn resting(x: Length, y: Length, h: Angle) -> Pose {
    Pose {
        x,
        y,
        h,
        vf: Velocity { um_per_s: 0 },
        vs: Velocity { um_per_s: 0 },
        omega: AngularVelocity { urad_per_s: 0 },
    }
}

impl Pose {
    /// A pose at rest at the given position and heading.
    pub fn new(x: Length, y: Length, h: Angle) -> (pose: Pose)
        ensures
            pose == resting(x, y, h),
    {
        Pose {
            x,
            y,
            h,
            vf: Velocity { um_per_s: 0 },
            vs: Velocity { um_per_s: 0 },
            omega: AngularVelocity { urad_per_s: 0 },
        }
    }

    /// Whether all three velocities are zero.
    pub open spec fn is_at_rest(&self) -> bool {
        self.vf.um_per_s == 0 && self.vs.um_per_s == 0 && self.omega.urad_per_s == 0
    }
}

impl Default for Pose {
    /// The pose at rest at the origin, heading zero.
    fn default() -> (pose: Pose)
        ensures
            pose == resting(Length { um: 0 }, Length { um: 0 }, Angle { urad: 0 }),
    {
        Pose::new(Length { um: 0 }, Length { um: 0 }, Angle { urad: 0 })
    }
}

} // verus!
