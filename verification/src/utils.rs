//! Helpers on angles.

use vstd::prelude::*;
use crate::units::{wrapped_angle, Angle, FULL_TURN, HALF_TURN};

verus! {

/// The same direction as `angle`, expressed in `(-HALF_TURN, HALF_TURN]`.
pub fn wrap(angle: Angle) -> (r: Angle)
    ensures
        r.urad as int == wrapped_angle(angle.urad as int),
        -(HALF_TURN as int) < r.urad as int <= HALF_TURN as int,
        (angle.urad as int - r.urad as int) % (FULL_TURN as int) == 0,
{
    angle.wrap()
}

/// The same direction as an angle of `angle` microradians, expressed in
/// `(-HALF_TURN, HALF_TURN]`.
pub fn wrapped(angle: i64) -> (r: i64)
    ensures
        r as int == wrapped_angle(angle as int),
        -(HALF_TURN as int) < r as int <= HALF_TURN as int,
        (angle as int - r as int) % (FULL_TURN as int) == 0,
{
    Angle { urad: angle }.wrap().urad
}

} // verus!
