//! Turning about a point to one side of the robot.

use vstd::prelude::*;
use crate::controllers::pid::{advanced, control_signal, Pid};
use crate::fixed::{difference, fx_mul, mul_div, product, ratio, sat_add, sat_sub, sum};
use crate::motion::turn::{error_to, heading_error, turn_status};
use crate::motion::{desaturate, desaturated, judge, Settle, Status};
use crate::subsystems::drivetrain::{Drivetrain, MAX_VELOCITY};
use crate::units::{Angle, AngularVelocity, Length, Time};

verus! {

/// What a [`Swing`] holds.
pub struct SwingState {
    pub pid: Pid,
    pub tolerance: Angle,
    /// The settings the primitive was built with.
    pub defaults: Settle,
    /// The settings of the call in progress.
    pub active: Settle,
    /// How long the call in progress has run.
    pub elapsed: Time,
}

/// The primitive that swings the robot about an off-centre point.
pub struct Swing {
    state: SwingState,
}

impl View for Swing {
    type V = SwingState;

    closed spec fn view(&self) -> SwingState {
        self.state
    }
}

/// The control signal of a tick: the controller's answer to the heading
/// error.
pub open spec fn swing_signal(s: SwingState, target: int, heading: int, dt: int) -> int {
    control_signal(s.pid@, heading_error(target, heading), dt)
}

/// The velocities asked of the two sides before desaturation: the control
/// signal times the distance of each side from the centre of the swing.
pub open spec fn swing_sides(signal: int, radius: int, track: int) -> Seq<i64> {
    seq![
        product(signal, difference(radius, ratio(track, 1, 2))) as i64,
        product(signal, sum(radius, ratio(track, 1, 2))) as i64,
    ]
}

/// The velocity of one side, `0` for left and `1` for right, after the pair
/// has been desaturated against the fastest gearing.
pub open spec fn swing_velocity(signal: int, radius: int, track: int, side: int) -> int {
    desaturated(swing_sides(signal, radius, track), MAX_VELOCITY as int, side)
}

impl Swing {
    /// A primitive with the given controller and tolerance, no velocity
    /// tolerance and no deadline.
    pub fn new(pid: Pid, tolerance: Angle) -> (s: Swing)
        ensures
            s@.pid == pid,
            s@.tolerance == tolerance,
            s@.defaults == (Settle {
                velocity_tolerance: None,
                timeout: None,
                tolerance_scale: None,
            }),
            s@.active == s@.defaults,
            s@.elapsed.us == 0,
    {
        let defaults = Settle::none();
        Swing {
            state: SwingState {
                pid,
                tolerance,
                defaults,
                active: defaults,
                elapsed: Time { us: 0 },
            },
        }
    }

    /// For the next call only: the move has not converged while the angular
    /// velocity is at or above `velocity`.
    pub fn settle_velocity(&mut self, velocity: AngularVelocity) -> (r: &mut Swing)
        ensures
            r@ == (SwingState {
                active: Settle {
                    velocity_tolerance: Some(velocity.urad_per_s),
                    ..old(self)@.active
                },
                ..old(self)@
            }),
            final(self)@ == final(r)@,
    {
        self.state.active.velocity_tolerance = Some(velocity.urad_per_s);
        self
    }

    /// For the next call only: the move is given up once it has run for
    /// longer than `duration`.
    pub fn timeout(&mut self, duration: Time) -> (r: &mut Swing)
        ensures
            r@ == (SwingState {
                active: Settle { timeout: Some(duration), ..old(self)@.active },
                ..old(self)@
            }),
            final(self)@ == final(r)@,
    {
        self.state.active.timeout = Some(duration);
        self
    }

    /// For the next call only: the tolerance is multiplied by `scale`, a
    /// fixed-point factor. A factor above one widens the band, so that the
    /// next move can start before this one has fully settled.
    pub fn chain(&mut self, scale: i64) -> (r: &mut Swing)
        ensures
            r@ == (SwingState {
                active: Settle { tolerance_scale: Some(scale), ..old(self)@.active },
                ..old(self)@
            }),
            final(self)@ == final(r)@,
    {
        self.state.active.tolerance_scale = Some(scale);
        self
    }

    /// Ends the call in progress, if any, as a call ends by itself: both
    /// sides are given zero volts and the settings of the call go back to
    /// what the primitive was built with. For a caller that gives a move up.
    pub fn stop(&mut self, dt: &mut Drivetrain)
        ensures
            final(self)@.pid == old(self)@.pid,
            final(self)@.tolerance == old(self)@.tolerance,
            final(self)@.defaults == old(self)@.defaults,
            final(self)@.active == final(self)@.defaults,
            final(self)@.elapsed.us == 0,
            final(dt)@ == old(dt)@.with_voltages(0, 0),
    {
        self.state.active = self.state.defaults;
        self.state.elapsed = Time { us: 0 };
        dt.set_voltages(0, 0);
    }

    /// One tick of a call that swings the robot to the heading `target` about
    /// a point `radius` from its centre along the track axis. `elapsed` is the
    /// time since the previous tick, or since the call began.
    ///
    /// While the call runs, each side is given a velocity in proportion to
    /// its distance from the centre of the swing, the pair scaled down
    /// together where it exceeds what the motors can turn. When the call
    /// ends, converged or timed out, both sides are given zero volts and the
    /// settings of the call go back to what the primitive was built with.
    pub fn swing_to(
        &mut self,
        dt: &mut Drivetrain,
        target: Angle,
        radius: Length,
        elapsed: Time,
    ) -> (status: Status)
        requires
            elapsed.us > 0,
        ensures
            status == turn_status(
                old(self)@.tolerance.urad as int,
                old(self)@.active,
                old(self)@.elapsed.us as int,
                target.urad as int,
                old(dt)@.odometry.pose.h.urad as int,
                old(dt)@.odometry.pose.omega.urad_per_s as int,
                elapsed.us as int,
            ),
            final(self)@.pid@ == advanced(
                old(self)@.pid@,
                heading_error(target.urad as int, old(dt)@.odometry.pose.h.urad as int),
                elapsed.us as int,
            ),
            final(self)@.tolerance == old(self)@.tolerance,
            final(self)@.defaults == old(self)@.defaults,
            status is Running ==> {
                &&& final(self)@.active == old(self)@.active
                &&& final(self)@.elapsed.us as int == sum(
                    old(self)@.elapsed.us as int,
                    elapsed.us as int,
                )
                &&& final(dt)@ == old(dt)@.with_velocities(
                    swing_velocity(
                        swing_signal(
                            old(self)@,
                            target.urad as int,
                            old(dt)@.odometry.pose.h.urad as int,
                            elapsed.us as int,
                        ),
                        radius.um as int,
                        old(dt)@.track.um as int,
                        0,
                    ),
                    swing_velocity(
                        swing_signal(
                            old(self)@,
                            target.urad as int,
                            old(dt)@.odometry.pose.h.urad as int,
                            elapsed.us as int,
                        ),
                        radius.um as int,
                        old(dt)@.track.um as int,
                        1,
                    ),
                )
            },
            !(status is Running) ==> {
                &&& final(self)@.active == final(self)@.defaults
                &&& final(self)@.elapsed.us == 0
                &&& final(dt)@ == old(dt)@.with_voltages(0, 0)
            },
    {
        let time = self.state.elapsed + elapsed;
        let half_track = mul_div(dt.track().um, 1, 2);
        let error = error_to(dt, target);
        let output = self.state.pid.output(error.urad, elapsed);
        let omega = dt.pose().omega;
        let status = judge(
            error.urad,
            omega.urad_per_s,
            time,
            self.state.tolerance.urad,
            &self.state.active,
        );
        match status {
            Status::Running => {
                self.state.elapsed = time;
                let left = fx_mul(output, sat_sub(radius.um, half_track));
                let right = fx_mul(output, sat_add(radius.um, half_track));
                let sides = [left, right];
                assert(sides@ =~= swing_sides(
                    output as int,
                    radius.um as int,
                    old(dt)@.track.um as int,
                ));
                let scaled = desaturate(sides, MAX_VELOCITY);
                assert(scaled@[0] as int == desaturated(sides@, MAX_VELOCITY as int, 0));
                assert(scaled@[1] as int == desaturated(sides@, MAX_VELOCITY as int, 1));
                dt.set_velocity(scaled[0], scaled[1]);
            },
            _ => {
                self.state.active = self.state.defaults;
                self.state.elapsed = Time { us: 0 };
                dt.set_voltages(0, 0);
            },
        }
        status
    }
}

} // verus!
