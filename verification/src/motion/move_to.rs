//! Driving to a point while correcting the heading.
//!
//! Two things in a tick are trigonometric and come from the caller: the
//! bearing of the target, which is the direction of
//! [`MoveTo::position_error`], and the alignment, which is the cosine of
//! [`MoveTo::bearing_error`].

use vstd::prelude::*;
use crate::controllers::pid::{advanced, control_signal, Pid};
use crate::fixed::{
    abs_wide, clamp_symmetric, clamp_to, difference, fx_mul, magnitude, negation, product, sat_neg,
    sum, SCALE,
};
use crate::localization::vec2::{norm, Vec2};
use crate::motion::turn::{error_to, heading_error};
use crate::motion::{judge, status_of, Settle, Status};
use crate::subsystems::drivetrain::{Drivetrain, MAX_VOLTAGE};
use crate::units::{wrapped_angle, Angle, Length, Time, Velocity, FULL_TURN, HALF_TURN};

verus! {

/// Microradians in a quarter of a turn.
pub const QUARTER_TURN: i64 = 1_570_796;

/// The way the robot is to travel.
#[derive(Clone, Copy, Debug, PartialEq, Eq, Structural)]
pub enum Direction {
    Forward,
    Reverse,
}

/// What a [`MoveTo`] holds.
pub struct MoveToState {
    pub linear: Pid,
    pub angular: Pid,
    pub tolerance: Length,
    /// Closer to the target than this, the heading is no longer corrected.
    pub turn_threshold: Length,
    /// The settings the primitive was built with.
    pub defaults: Settle,
    /// The settings of the call in progress.
    pub active: Settle,
    /// How long the call in progress has run.
    pub elapsed: Time,
}

/// The primitive that seeks a point.
pub struct MoveTo {
    state: MoveToState,
}

impl View for MoveTo {
    type V = MoveToState;

    closed spec fn view(&self) -> MoveToState {
        self.state
    }
}

/// The distance from a position to a target.
pub open spec fn distance_to(target: Vec2<Length>, x: int, y: int) -> int {
    norm(difference(target.x.um as int, x), difference(target.y.um as int, y))
}

/// Whether the robot backs up to the target: it was asked to, or the target
/// lies more than a quarter turn off its heading.
pub open spec fn is_flipped(bearing_error: int, direction: Direction) -> bool {
    direction is Reverse || magnitude(bearing_error) > QUARTER_TURN as int
}

/// The heading error that is corrected: the bearing error, turned by half a
/// turn where the robot backs up.
pub open spec fn steering_error(bearing_error: int, direction: Direction) -> int {
    if is_flipped(bearing_error, direction) {
        wrapped_angle(sum(bearing_error, HALF_TURN as int))
    } else {
        bearing_error
    }
}

/// The linear control signal, held to what the motors take.
pub open spec fn linear_output(s: MoveToState, distance: int, dt: int) -> int {
    clamp_to(control_signal(s.linear@, distance, dt), MAX_VOLTAGE as int)
}

/// The power: the linear signal scaled by the alignment, so that the robot
/// slows as it points away from the target and backs up where the target is
/// behind it. The alignment is a cosine and is held to `[-1, 1]`.
pub open spec fn drive_power(s: MoveToState, distance: int, alignment: int, dt: int) -> int {
    product(linear_output(s, distance, dt), clamp_to(alignment, SCALE as int))
}

/// The turn: nothing inside the turn threshold, the negated angular signal
/// outside it.
pub open spec fn drive_turn(
    s: MoveToState,
    distance: int,
    bearing_error: int,
    direction: Direction,
    dt: int,
) -> int {
    if distance < s.turn_threshold.um {
        0
    } else {
        negation(control_signal(s.angular@, steering_error(bearing_error, direction), dt))
    }
}

/// Turning an error of exactly half a turn by another half turn gives no
/// error, and every steering error lies in `(-HALF_TURN, HALF_TURN]`.
pub proof fn steering_error_is_in_range(bearing_error: int, direction: Direction)
    requires
        -(HALF_TURN as int) < bearing_error <= HALF_TURN as int,
    ensures
        -(HALF_TURN as int) < steering_error(bearing_error, direction) <= HALF_TURN as int,
        bearing_error == HALF_TURN as int ==> steering_error(bearing_error, direction) == 0,
        is_flipped(bearing_error, direction) ==> (steering_error(bearing_error, direction)
            - bearing_error - HALF_TURN as int) % (FULL_TURN as int) == 0,
{
    crate::units::wrapped_angle_is_in_range(sum(bearing_error, HALF_TURN as int));
    if bearing_error == HALF_TURN as int {
        assert(wrapped_angle(FULL_TURN as int) == 0) by {
            assert((HALF_TURN as int - FULL_TURN as int) % (FULL_TURN as int) == HALF_TURN as int)
                by (nonlinear_arith);
        }
    }
    if is_flipped(bearing_error, direction) {
        let w = steering_error(bearing_error, direction);
        let shifted = bearing_error + HALF_TURN as int;
        assert((shifted - w) % (FULL_TURN as int) == 0);
        assert((w - shifted) % (FULL_TURN as int) == 0) by (nonlinear_arith)
            requires
                (shifted - w) % 6_283_186 == 0,
                FULL_TURN == 6_283_186,
        ;
    }
}

/// The power never exceeds what the motors take.
pub proof fn drive_power_is_limited(s: MoveToState, distance: int, alignment: int, dt: int)
    ensures
        magnitude(drive_power(s, distance, alignment, dt)) <= MAX_VOLTAGE,
{
    let l = linear_output(s, distance, dt);
    let a = clamp_to(alignment, SCALE as int);
    let one = SCALE as int;
    assert(magnitude(l * a) <= 12_000_000 * one) by (nonlinear_arith)
        requires
            -12_000_000 <= l <= 12_000_000,
            -one <= a <= one,
            one == 1_000_000,
    ;
    assert(magnitude(l * a) / one <= 12_000_000) by (nonlinear_arith)
        requires
            0 <= magnitude(l * a) <= 12_000_000 * one,
            one == 1_000_000,
    ;
}

/// A robot that is not aligned with the target backs up: where the linear
/// signal is not negative and the alignment is not positive, the power is
/// not positive. With the target directly behind, the power is the negated
/// linear signal.
pub proof fn power_backs_up(s: MoveToState, distance: int, alignment: int, dt: int)
    requires
        linear_output(s, distance, dt) >= 0,
        alignment <= 0,
    ensures
        drive_power(s, distance, alignment, dt) <= 0,
        alignment == -(SCALE as int) ==> drive_power(s, distance, alignment, dt)
            == -linear_output(s, distance, dt),
{
    let l = linear_output(s, distance, dt);
    let held = clamp_to(alignment, SCALE as int);
    assert(l * held <= 0) by (nonlinear_arith)
        requires
            l >= 0,
            held <= 0,
    ;
    let m = -(l * held);
    assert(m / (SCALE as int) >= 0) by (nonlinear_arith)
        requires
            m >= 0,
            SCALE == 1_000_000,
    ;
    if alignment == -(SCALE as int) {
        assert(m == l * 1_000_000) by (nonlinear_arith)
            requires
                m == -(l * held),
                held == -1_000_000,
        ;
        assert((l * 1_000_000) / 1_000_000 == l) by (nonlinear_arith);
    }
}

/// In reverse to a target directly behind, inside the turn threshold, the
/// robot does not turn: the steering error and the turn are both zero, so
/// both sides are given the same power.
pub proof fn reverse_approach_does_not_spin(s: MoveToState, distance: int, dt: int)
    ensures
        steering_error(HALF_TURN as int, Direction::Reverse) == 0,
        distance < s.turn_threshold.um ==> drive_turn(
            s,
            distance,
            HALF_TURN as int,
            Direction::Reverse,
            dt,
        ) == 0,
{
    steering_error_is_in_range(HALF_TURN as int, Direction::Reverse);
}

impl Direction {
    /// Whether this is [`Direction::Reverse`].
    pub fn is_reverse(&self) -> (r: bool)
        ensures
            r == (*self is Reverse),
    {
        match self {
            Direction::Reverse => true,
            Direction::Forward => false,
        }
    }
}

impl MoveTo {
    /// A primitive with the given controllers, tolerance, velocity tolerance
    /// and turn threshold, and no deadline.
    pub fn new(
        linear: Pid,
        angular: Pid,
        tolerance: Length,
        velocity_tolerance: Velocity,
        turn_threshold: Length,
    ) -> (m: MoveTo)
        ensures
            m@.linear == linear,
            m@.angular == angular,
            m@.tolerance == tolerance,
            m@.turn_threshold == turn_threshold,
            m@.defaults == (Settle {
                velocity_tolerance: Some(velocity_tolerance.um_per_s),
                timeout: None,
                tolerance_scale: None,
            }),
            m@.active == m@.defaults,
            m@.elapsed.us == 0,
    {
        let defaults = Settle {
            velocity_tolerance: Some(velocity_tolerance.um_per_s),
            timeout: None,
            tolerance_scale: None,
        };
        MoveTo {
            state: MoveToState {
                linear,
                angular,
                tolerance,
                turn_threshold,
                defaults,
                active: defaults,
                elapsed: Time { us: 0 },
            },
        }
    }

    /// For the next call only: the move has not converged while the forward
    /// velocity is at or above `velocity`.
    pub fn settle_velocity(&mut self, velocity: Velocity) -> (r: &mut MoveTo)
        ensures
            r@ == (MoveToState {
                active: Settle {
                    velocity_tolerance: Some(velocity.um_per_s),
                    ..old(self)@.active
                },
                ..old(self)@
            }),
            final(self)@ == final(r)@,
    {
        self.state.active.velocity_tolerance = Some(velocity.um_per_s);
        self
    }

    /// For the next call only: the move is given up once it has run for
    /// longer than `duration`.
    pub fn timeout(&mut self, duration: Time) -> (r: &mut MoveTo)
        ensures
            r@ == (MoveToState {
                active: Settle { timeout: Some(duration), ..old(self)@.active },
                ..old(self)@
            }),
            final(self)@ == final(r)@,
    {
        self.state.active.timeout = Some(duration);
        self
    }

    /// For the next call only: the tolerance is multiplied by `scale`, a
    /// fixed-point factor. A factor above one widens the band, so that the
    /// next move can start before this one has fully settled.
    pub fn chain(&mut self, scale: i64) -> (r: &mut MoveTo)
        ensures
            r@ == (MoveToState {
                active: Settle { tolerance_scale: Some(scale), ..old(self)@.active },
                ..old(self)@
            }),
            final(self)@ == final(r)@,
    {
        self.state.active.tolerance_scale = Some(scale);
        self
    }

    /// The vector from the robot to `target`, in the field's frame. Its
    /// direction is the bearing of the target.
    pub fn position_error(dt: &Drivetrain, target: Vec2<Length>) -> (e: Vec2<i64>)
        ensures
            e.x as int == difference(target.x.um as int, dt@.odometry.pose.x.um as int),
            e.y as int == difference(target.y.um as int, dt@.odometry.pose.y.um as int),
    {
        let pose = dt.pose();
        Vec2 { x: target.x.um, y: target.y.um } - Vec2 { x: pose.x.um, y: pose.y.um }
    }

    /// How far the robot's heading is off the bearing of the target, in
    /// `(-HALF_TURN, HALF_TURN]`. Its cosine is the alignment.
    pub fn bearing_error(dt: &Drivetrain, bearing: Angle) -> (error: Angle)
        ensures
            error.urad as int == heading_error(
                bearing.urad as int,
                dt@.odometry.pose.h.urad as int,
            ),
            -(HALF_TURN as int) < error.urad as int <= HALF_TURN as int,
    {
        error_to(dt, bearing)
    }

    /// Ends the call in progress, if any, as a call ends by itself: both
    /// sides are given zero and the settings of the call go back to what the
    /// primitive was built with. For a caller that gives a move up.
    pub fn stop(&mut self, dt: &mut Drivetrain)
        ensures
            final(self)@.linear == old(self)@.linear,
            final(self)@.angular == old(self)@.angular,
            final(self)@.tolerance == old(self)@.tolerance,
            final(self)@.turn_threshold == old(self)@.turn_threshold,
            final(self)@.defaults == old(self)@.defaults,
            final(self)@.active == final(self)@.defaults,
            final(self)@.elapsed.us == 0,
            final(dt)@ == old(dt)@.with_voltages(0, 0),
    {
        self.state.active = self.state.defaults;
        self.state.elapsed = Time { us: 0 };
        dt.set_voltages(0, 0);
    }

    /// One tick of a call that drives the robot to `target`. `bearing` is the
    /// direction of the target from the robot, `alignment` the cosine of the
    /// bearing error as a fixed-point count, held to `[-1, 1]`, and `elapsed`
    /// the time since the previous tick, or since the call began.
    ///
    /// While the call runs, the power and the turn are mixed as
    /// [`Drivetrain::arcade`] does. When it ends, converged or timed out,
    /// both sides are given zero and the settings of the call go back to what
    /// the primitive was built with.
    pub fn move_to_point(
        &mut self,
        dt: &mut Drivetrain,
        target: Vec2<Length>,
        bearing: Angle,
        alignment: i64,
        direction: Direction,
        elapsed: Time,
    ) -> (status: Status)
        requires
            elapsed.us > 0,
        ensures
            status == status_of(
                distance_to(
                    target,
                    old(dt)@.odometry.pose.x.um as int,
                    old(dt)@.odometry.pose.y.um as int,
                ),
                old(dt)@.odometry.pose.vf.um_per_s as int,
                sum(old(self)@.elapsed.us as int, elapsed.us as int),
                old(self)@.tolerance.um as int,
                old(self)@.active,
            ),
            final(self)@.linear@ == advanced(
                old(self)@.linear@,
                distance_to(
                    target,
                    old(dt)@.odometry.pose.x.um as int,
                    old(dt)@.odometry.pose.y.um as int,
                ),
                elapsed.us as int,
            ),
            final(self)@.tolerance == old(self)@.tolerance,
            final(self)@.turn_threshold == old(self)@.turn_threshold,
            final(self)@.defaults == old(self)@.defaults,
            status is Running ==> ({
                let distance = distance_to(
                    target,
                    old(dt)@.odometry.pose.x.um as int,
                    old(dt)@.odometry.pose.y.um as int,
                );
                let off = heading_error(
                    bearing.urad as int,
                    old(dt)@.odometry.pose.h.urad as int,
                );
                let power = drive_power(old(self)@, distance, alignment as int, elapsed.us as int);
                let turn = drive_turn(old(self)@, distance, off, direction, elapsed.us as int);
                &&& final(self)@.active == old(self)@.active
                &&& final(self)@.elapsed.us as int == sum(
                    old(self)@.elapsed.us as int,
                    elapsed.us as int,
                )
                &&& final(self)@.angular@ == if distance < old(self)@.turn_threshold.um {
                    old(self)@.angular@
                } else {
                    advanced(
                        old(self)@.angular@,
                        steering_error(off, direction),
                        elapsed.us as int,
                    )
                }
                &&& final(dt)@ == old(dt)@.with_voltages(
                    sum(power, turn),
                    difference(power, turn),
                )
            }),
            !(status is Running) ==> {
                &&& final(self)@.angular@ == old(self)@.angular@
                &&& final(self)@.active == final(self)@.defaults
                &&& final(self)@.elapsed.us == 0
                &&& final(dt)@ == old(dt)@.with_voltages(0, 0)
            },
    {
        let time = self.state.elapsed + elapsed;
        let pose = dt.pose();
        let distance = MoveTo::position_error(dt, target).magnitude();
        let linear_output = clamp_symmetric(
            self.state.linear.output(distance, elapsed),
            MAX_VOLTAGE,
        );
        let status = judge(
            distance,
            pose.vf.um_per_s,
            time,
            self.state.tolerance.um,
            &self.state.active,
        );
        match status {
            Status::Running => {
                self.state.elapsed = time;
                let mut herror = MoveTo::bearing_error(dt, bearing);
                if direction.is_reverse() || abs_wide(herror.urad) > QUARTER_TURN as i128 {
                    herror = (herror + Angle { urad: HALF_TURN }).wrap();
                }
                let angular_output = if distance < self.state.turn_threshold.um {
                    0
                } else {
                    sat_neg(self.state.angular.output(herror.urad, elapsed))
                };
                let scaling = clamp_symmetric(alignment, SCALE);
                dt.arcade(fx_mul(linear_output, scaling), angular_output);
            },
            _ => {
                self.state.active = self.state.defaults;
                self.state.elapsed = Time { us: 0 };
                dt.set_voltages(0, 0);
            },
        }
        status
    }
}

} // verus!
