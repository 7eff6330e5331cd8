//! How the driver's sticks are read.

use vstd::prelude::*;

verus! {

/// The driving modes a driver can switch between. Stick positions are
/// fixed-point counts from minus one to one.
#[derive(Clone, Copy, Debug, PartialEq, Eq, Structural)]
pub enum DriveMode {
    /// One stick sets the power, the other the turn.
    Arcade { power: i64, turn: i64 },
    /// Each stick sets one side.
    Tank { left: i64, right: i64 },
}

} // verus!
