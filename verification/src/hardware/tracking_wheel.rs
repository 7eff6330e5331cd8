//! An unpowered wheel on an encoder, used to measure travel.

use vstd::prelude::*;
use crate::fixed::{difference, fx_mul, mul_div, negation, product, ratio, sat_neg, sat_sub};
use crate::localization::odometry::{is_saturated, saturated, WheelMount};
use crate::localization::vec2::{Rotation, Vec2};
use crate::motion::move_to::Direction;
use crate::units::{Angle, Length, FULL_TURN, HALF_TURN};

verus! {

/// What a [`TrackingWheel`] holds.
#[derive(Clone, Copy, Debug, PartialEq, Eq)]
pub struct TrackingWheelState {
    pub direction: Direction,
    pub wheel_circum: Length,
    pub mount: WheelMount,
    /// The mounting angle, whose cosine and sine are the mount's axis.
    pub angle: Angle,
    /// The position at the previous reading.
    pub prev_position: Angle,
}

/// A tracking wheel.
pub struct TrackingWheel {
    state: TrackingWheelState,
}

impl View for TrackingWheel {
    type V = TrackingWheelState;

    closed spec fn view(&self) -> TrackingWheelState {
        self.state
    }
}

/// An encoder position as the wheel counts it: negated for a wheel that is
/// mounted in reverse.
pub open spec fn directed(direction: Direction, position: int) -> int {
    match direction {
        Direction::Forward => position,
        Direction::Reverse => negation(position),
    }
}

/// Whether the arc of a wheel cannot be told, because a number it is made
/// of sits at an end of the range: the circumference, the previous position,
/// the position as read (`position`) or as the wheel counts it (`now`), or
/// the change between the two.
pub open spec fn arc_is_lost(wheel_circum: int, prev: int, position: int, now: int) -> bool {
    ||| saturated(wheel_circum)
    ||| saturated(prev)
    ||| saturated(position)
    ||| saturated(now)
    ||| saturated(difference(now, prev))
}

/// The arc a wheel of the given circumference rolls while its encoder goes
/// from `prev` to `now`, where `position` is what the encoder read. An arc
/// that cannot be told sits at the end of the range on the side of the
/// change, so that whoever uses it can see that it is no arc.
pub open spec fn arc_of(wheel_circum: int, prev: int, position: int, now: int) -> int {
    if arc_is_lost(wheel_circum, prev, position, now) {
        if difference(now, prev) >= 0 {
            i64::MAX as int
        } else {
            i64::MIN as int
        }
    } else {
        ratio(wheel_circum, difference(now, prev), FULL_TURN as int)
    }
}

/// An arc that cannot be told reads as one: it sits at an end of the range.
pub proof fn lost_arc_is_seen(wheel_circum: int, prev: int, position: int, now: int)
    requires
        arc_is_lost(wheel_circum, prev, position, now),
    ensures
        saturated(arc_of(wheel_circum, prev, position, now)),
{
}

impl TrackingWheel {
    /// A wheel of the given diameter, mounted at `from_center` and rolling
    /// along the direction of `angle`, whose cosine and sine are `axis`.
    /// `position` is the encoder's reading now.
    pub fn new(
        direction: Direction,
        wheel_diameter: Length,
        from_center: Vec2<Length>,
        angle: Angle,
        axis: Rotation,
        position: Angle,
    ) -> (w: TrackingWheel)
        ensures
            w@.direction == direction,
            w@.wheel_circum.um as int == product(wheel_diameter.um as int, HALF_TURN as int),
            w@.mount.offset.x == from_center.x.um,
            w@.mount.offset.y == from_center.y.um,
            w@.mount.axis == axis,
            w@.angle == angle,
            w@.prev_position == position,
    {
        TrackingWheel {
            state: TrackingWheelState {
                direction,
                wheel_circum: Length { um: fx_mul(wheel_diameter.um, HALF_TURN) },
                mount: WheelMount::new(from_center, axis),
                angle,
                prev_position: position,
            },
        }
    }

    /// From the centre of rotation to the wheel.
    pub fn from_center(&self) -> (r: Vec2<Length>)
        ensures
            r.x.um == self@.mount.offset.x,
            r.y.um == self@.mount.offset.y,
    {
        self.state.mount.from_center()
    }

    /// The mounting angle.
    pub fn angle(&self) -> (a: Angle)
        ensures
            a == self@.angle,
    {
        self.state.angle
    }

    /// How the wheel is mounted.
    pub fn mount(&self) -> (m: WheelMount)
        ensures
            m == self@.mount,
    {
        self.state.mount
    }

    /// The arc rolled since the previous reading, given the encoder's
    /// position now. Where the position, or a number made from it, sits at an
    /// end of the range, so does the arc.
    pub fn traveled(&mut self, position: Angle) -> (arc: Length)
        ensures
            arc.um as int == arc_of(
                old(self)@.wheel_circum.um as int,
                old(self)@.prev_position.urad as int,
                position.urad as int,
                directed(old(self)@.direction, position.urad as int),
            ),
            final(self)@ == (TrackingWheelState {
                prev_position: Angle {
                    urad: directed(old(self)@.direction, position.urad as int) as i64,
                },
                ..old(self)@
            }),
    {
        let now: i64 = match self.state.direction {
            Direction::Forward => position.urad,
            Direction::Reverse => sat_neg(position.urad),
        };
        let prev = self.state.prev_position.urad;
        let change = sat_sub(now, prev);
        self.state.prev_position = Angle { urad: now };
        let lost = is_saturated(self.state.wheel_circum.um) || is_saturated(prev) || is_saturated(
            position.urad,
        ) || is_saturated(now) || is_saturated(change);
        if lost {
            if change >= 0 {
                Length { um: i64::MAX }
            } else {
                Length { um: i64::MIN }
            }
        } else {
            Length { um: mul_div(self.state.wheel_circum.um, change, FULL_TURN) }
        }
    }
}

} // verus!
