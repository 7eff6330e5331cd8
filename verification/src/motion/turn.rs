//! Turning in place to an absolute heading.

use vstd::prelude::*;
use crate::controllers::pid::{advanced, control_signal, Pid};
use crate::fixed::{difference, negation, sat_neg, sum};
use crate::motion::{judge, status_of, Settle, Status};
use crate::subsystems::drivetrain::Drivetrain;
use crate::units::{wrapped_angle, Angle, AngularVelocity, Time, HALF_TURN};

verus! {

/// What a [`Turn`] holds.
pub struct TurnState {
    pub pid: Pid,
    pub tolerance: Angle,
    /// The settings the primitive was built with.
    pub defaults: Settle,
    /// The settings of the call in progress.
    pub active: Settle,
    /// How long the call in progress has run.
    pub elapsed: Time,
}

/// The primitive that turns the robot in place.
pub struct Turn {
    state: TurnState,
}

impl View for Turn {
    type V = TurnState;

    closed spec fn view(&self) -> TurnState {
        self.state
    }
}

/// The heading error: the way from `heading` to `target`, taken the short
/// way round, in `(-HALF_TURN, HALF_TURN]`.
pub open spec fn heading_error(target: int, heading: int) -> int {
    wrapped_angle(difference(target, heading))
}

/// The control signal of a tick: the controller's answer to the heading
/// error.
pub open spec fn turn_signal(s: TurnState, target: int, heading: int, dt: int) -> int {
    control_signal(s.pid@, heading_error(target, heading), dt)
}

/// Where a call stands after a tick.
pub open spec fn turn_status(
    tolerance: int,
    active: Settle,
    elapsed: int,
    target: int,
    heading: int,
    omega: int,
    dt: int,
) -> Status {
    status_of(heading_error(target, heading), omega, sum(elapsed, dt), tolerance, active)
}

/// The heading error of a drivetrain's pose against `target`.
pub fn error_to(dt: &Drivetrain, target: Angle) -> (error: Angle)
    ensures
        error.urad as int == heading_error(
            target.urad as int,
            dt@.odometry.pose.h.urad as int,
        ),
        -(HALF_TURN as int) < error.urad as int <= HALF_TURN as int,
{
    (target - dt.pose().h).wrap()
}

impl Turn {
    /// A primitive with the given controller, tolerance and velocity
    /// tolerance, and no deadline.
    pub fn new(pid: Pid, tolerance: Angle, velocity_tolerance: AngularVelocity) -> (t: Turn)
        ensures
            t@.pid == pid,
            t@.tolerance == tolerance,
            t@.defaults == (Settle {
                velocity_tolerance: Some(velocity_tolerance.urad_per_s),
                timeout: None,
                tolerance_scale: None,
            }),
            t@.active == t@.defaults,
            t@.elapsed.us == 0,
    {
        let defaults = Settle {
            velocity_tolerance: Some(velocity_tolerance.urad_per_s),
            timeout: None,
            tolerance_scale: None,
        };
        Turn {
            state: TurnState {
                pid,
                tolerance,
                defaults,
                active: defaults,
                elapsed: Time { us: 0 },
            },
        }
    }

    /// For the next call only: the move has not converged while the angular
    /// velocity is at or above `velocity`.
    pub fn settle_velocity(&mut self, velocity: AngularVelocity) -> (r: &mut Turn)
        ensures
            r@ == (TurnState {
                active: Settle {
                    velocity_tolerance: Some(velocity.urad_per_s),
                    ..old(self)@.active
                },
                ..old(self)@
            }),
            final(self)@ == final(r)@,
    {
        self.state.active.velocity_tolerance = Some(velocity.urad_per_s);
        self
    }

    /// For the next call only: the move is given up once it has run for
    /// longer than `duration`.
    pub fn timeout(&mut self, duration: Time) -> (r: &mut Turn)
        ensures
            r@ == (TurnState {
                active: Settle { timeout: Some(duration), ..old(self)@.active },
                ..old(self)@
            }),
            final(self)@ == final(r)@,
    {
        self.state.active.timeout = Some(duration);
        self
    }

    /// For the next call only: the tolerance is multiplied by `scale`, a
    /// fixed-point factor. A factor above one widens the band, so that the
    /// next move can start before this one has fully settled.
    pub fn chain(&mut self, scale: i64) -> (r: &mut Turn)
        ensures
            r@ == (TurnState {
                active: Settle { tolerance_scale: Some(scale), ..old(self)@.active },
                ..old(self)@
            }),
            final(self)@ == final(r)@,
    {
        self.state.active.tolerance_scale = Some(scale);
        self
    }

    /// Ends the call in progress, if any, as a call ends by itself: both
    /// sides are given zero volts and the settings of the call go back to
    /// what the primitive was built with. For a caller that gives a move up.
    pub fn stop(&mut self, dt: &mut Drivetrain)
        ensures
            final(self)@.pid == old(self)@.pid,
            final(self)@.tolerance == old(self)@.tolerance,
            final(self)@.defaults == old(self)@.defaults,
            final(self)@.active == final(self)@.defaults,
            final(self)@.elapsed.us == 0,
            final(dt)@ == old(dt)@.with_voltages(0, 0),
    {
        self.state.active = self.state.defaults;
        self.state.elapsed = Time { us: 0 };
        dt.set_voltages(0, 0);
    }

    /// One tick of a call that turns the robot to the heading `target`.
    /// `elapsed` is the time since the previous tick, or since the call began.
    ///
    /// While the call runs, the right side is given the control signal and
    /// the left side its negation: a positive error, which calls for a turn
    /// toward a larger heading, drives the right side forward and the left
    /// side back. When the call ends, converged or timed out, both sides are
    /// given zero and the settings of the call go back to what the primitive
    /// was built with.
    pub fn turn_to(&mut self, dt: &mut Drivetrain, target: Angle, elapsed: Time) -> (status: Status)
        requires
            elapsed.us > 0,
        ensures
            status == turn_status(
                old(self)@.tolerance.urad as int,
                old(self)@.active,
                old(self)@.elapsed.us as int,
                target.urad as int,
                old(dt)@.odometry.pose.h.urad as int,
                old(dt)@.odometry.pose.omega.urad_per_s as int,
                elapsed.us as int,
            ),
            final(self)@.pid@ == advanced(
                old(self)@.pid@,
                heading_error(target.urad as int, old(dt)@.odometry.pose.h.urad as int),
                elapsed.us as int,
            ),
            final(self)@.tolerance == old(self)@.tolerance,
            final(self)@.defaults == old(self)@.defaults,
            status is Running ==> {
                &&& final(self)@.active == old(self)@.active
                &&& final(self)@.elapsed.us as int == sum(
                    old(self)@.elapsed.us as int,
                    elapsed.us as int,
                )
                &&& final(dt)@ == old(dt)@.with_voltages(
                    negation(
                        turn_signal(
                            old(self)@,
                            target.urad as int,
                            old(dt)@.odometry.pose.h.urad as int,
                            elapsed.us as int,
                        ),
                    ),
                    turn_signal(
                        old(self)@,
                        target.urad as int,
                        old(dt)@.odometry.pose.h.urad as int,
                        elapsed.us as int,
                    ),
                )
            },
            !(status is Running) ==> {
                &&& final(self)@.active == final(self)@.defaults
                &&& final(self)@.elapsed.us == 0
                &&& final(dt)@ == old(dt)@.with_voltages(0, 0)
            },
    {
        let time = self.state.elapsed + elapsed;
        let error = error_to(dt, target);
        let output = self.state.pid.output(error.urad, elapsed);
        let omega = dt.pose().omega;
        let status = judge(
            error.urad,
            omega.urad_per_s,
            time,
            self.state.tolerance.urad,
            &self.state.active,
        );
        match status {
            Status::Running => {
                self.state.elapsed = time;
                dt.set_voltages(sat_neg(output), output);
            },
            _ => {
                self.state.active = self.state.defaults;
                self.state.elapsed = Time { us: 0 };
                dt.set_voltages(0, 0);
            },
        }
        status
    }
}

} // verus!
