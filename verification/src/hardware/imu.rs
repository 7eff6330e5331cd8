//! A group of inertial sensors read as one heading.
//!
//! The sensors count clockwise; the heading counts the other way, so each
//! reading is taken from a full turn before the readings are averaged.

use vstd::prelude::*;
use crate::fixed::{difference, sat_sub};
use crate::hardware::motor_group::{fuse, fused, is_usable};
use crate::units::{Angle, FULL_TURN};

verus! {

/// The group of inertial sensors. It holds the rotation it reported last.
pub struct Imu {
    last: Angle,
}

impl View for Imu {
    type V = Angle;

    closed spec fn view(&self) -> Angle {
        self.last
    }
}

/// The sensors' readings, each taken from a full turn. A reading that
/// cannot be used, because it failed or sits at an end of the range, counts
/// as failed.
pub open spec fn mirrored(readings: Seq<Option<i64>>) -> Seq<Option<i64>> {
    Seq::new(
        readings.len(),
        |i: int|
            if is_usable(readings[i]) {
                Some(difference(FULL_TURN as int, readings[i]->Some_0 as int) as i64)
            } else {
                None
            },
    )
}

/// The angle `a` brought into `[0, FULL_TURN)`.
pub open spec fn normalized(a: int) -> int {
    a % (FULL_TURN as int)
}

/// The sensors' readings, each taken from a full turn.
pub fn mirror(readings: &Vec<Option<i64>>) -> (out: Vec<Option<i64>>)
    ensures
        out@ == mirrored(readings@),
{
    let mut out: Vec<Option<i64>> = Vec::new();
    let mut i: usize = 0;
    while i < readings.len()
        invariant
            0 <= i <= readings.len(),
            out@.len() == i,
            forall|j: int| 0 <= j < i ==> out@[j] == mirrored(readings@)[j],
        decreases readings.len() - i,
    {
        let entry: Option<i64> = match readings[i] {
            Some(r) => if r != i64::MAX && r != i64::MIN {
                Some(sat_sub(FULL_TURN, r))
            } else {
                None
            },
            None => None,
        };
        out.push(entry);
        i = i + 1;
    }
    assert(out@ =~= mirrored(readings@));
    out
}

impl Imu {
    /// A group that has reported `rotation` last.
    pub fn new(rotation: Angle) -> (imu: Imu)
        ensures
            imu@ == rotation,
    {
        Imu { last: rotation }
    }

    /// The rotation: the mean of the mirrored readings that can be used, or
    /// what was reported last where none can. It accumulates without bound.
    pub fn rotation(&mut self, readings: &Vec<Option<i64>>) -> (r: Angle)
        ensures
            r.urad as int == fused(mirrored(readings@), old(self)@.urad as int),
            final(self)@ == r,
    {
        let flipped = mirror(readings);
        let r = Angle { urad: fuse(&flipped, self.last.urad) };
        self.last = r;
        r
    }

    /// The heading: the rotation brought into `[0, FULL_TURN)`.
    pub fn heading(&mut self, readings: &Vec<Option<i64>>) -> (h: Angle)
        ensures
            h.urad as int == normalized(
                fused(mirrored(readings@), old(self)@.urad as int),
            ),
            0 <= h.urad < FULL_TURN,
            final(self)@.urad as int == fused(mirrored(readings@), old(self)@.urad as int),
    {
        let r = self.rotation(readings);
        let m: i64 = r.urad % FULL_TURN;
        if m < 0 {
            Angle { urad: m + FULL_TURN }
        } else {
            Angle { urad: m }
        }
    }
}

} // verus!
