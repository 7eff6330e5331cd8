//! The robot's mechanisms.

pub mod drivetrain;
pub mod intake;

use vstd::prelude::*;

verus! {

/// The alliance a robot plays for.
#[derive(Clone, Copy, Debug, PartialEq, Eq, Structural)]
pub enum Color {
    Red,
    Blue,
}

/// Match settings of a robot.
#[derive(Clone, Copy, Debug, PartialEq, Eq, Structural)]
pub struct RobotSettings {
    pub color: Color,
    pub enable_color: bool,
}

} // verus!
