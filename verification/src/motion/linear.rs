//! Driving a signed distance along the current heading.

use vstd::prelude::*;
use crate::controllers::pid::{advanced, control_signal, Pid};
use crate::fixed::{
    clamp_symmetric, clamp_to, difference, fx_mul, magnitude, product, sat_add, sat_sub, sum,
};
use crate::localization::vec2::{norm, Vec2};
use crate::motion::{judge, status_of, Settle, Status};
use crate::subsystems::drivetrain::{Drivetrain, MAX_VOLTAGE};
use crate::units::{Length, Time, Velocity};

verus! {

/// What a [`Linear`] holds.
pub struct LinearState {
    pub pid: Pid,
    pub tolerance: Length,
    /// The largest voltage a move may ask for unless the call says otherwise.
    pub default_speed_cap: i64,
    /// The largest voltage the call in progress may ask for.
    pub speed_cap: i64,
    /// The settings the primitive was built with.
    pub defaults: Settle,
    /// The settings of the call in progress.
    pub active: Settle,
    /// How long the call in progress has run.
    pub elapsed: Time,
    /// How far the call in progress has come.
    pub traveled: Length,
}

/// The primitive that drives a distance in a straight line.
pub struct Linear {
    state: LinearState,
}

impl View for Linear {
    type V = LinearState;

    closed spec fn view(&self) -> LinearState {
        self.state
    }
}

/// How far a call has come after a tick: the distance before it, plus the
/// forward velocity times the length of the tick.
pub open spec fn traveled_after(traveled: int, forward_velocity: int, dt: int) -> int {
    sum(traveled, product(forward_velocity, dt))
}

/// The distance still to go after a tick.
pub open spec fn linear_error(s: LinearState, forward_velocity: int, target: int, dt: int) -> int {
    difference(target, traveled_after(s.traveled.um as int, forward_velocity, dt))
}

/// Where the call stands after a tick.
pub open spec fn linear_status(
    s: LinearState,
    forward_velocity: int,
    target: int,
    dt: int,
) -> Status {
    status_of(
        linear_error(s, forward_velocity, target, dt),
        forward_velocity,
        sum(s.elapsed.us as int, dt),
        s.tolerance.um as int,
        s.active,
    )
}

/// The voltage for both sides while the call runs: the control signal, held
/// to the speed cap.
pub open spec fn linear_signal(s: LinearState, forward_velocity: int, target: int, dt: int) -> int {
    clamp_to(
        control_signal(s.pid@, linear_error(s, forward_velocity, target, dt), dt),
        s.speed_cap as int,
    )
}

/// The voltage asked for while a call runs never exceeds the speed cap.
pub proof fn linear_signal_is_capped(s: LinearState, forward_velocity: int, target: int, dt: int)
    ensures
        s.speed_cap >= 0 ==> magnitude(linear_signal(s, forward_velocity, target, dt))
            <= s.speed_cap,
        s.speed_cap < 0 ==> linear_signal(s, forward_velocity, target, dt) == 0,
{
}

impl Linear {
    /// A primitive with the given controller, tolerance and velocity
    /// tolerance, no deadline, and the motors' full voltage as its speed cap.
    pub fn new(pid: Pid, tolerance: Length, velocity_tolerance: Velocity) -> (l: Linear)
        ensures
            l@.pid == pid,
            l@.tolerance == tolerance,
            l@.default_speed_cap == MAX_VOLTAGE,
            l@.speed_cap == MAX_VOLTAGE,
            l@.defaults == (Settle {
                velocity_tolerance: Some(velocity_tolerance.um_per_s),
                timeout: None,
                tolerance_scale: None,
            }),
            l@.active == l@.defaults,
            l@.elapsed.us == 0,
            l@.traveled.um == 0,
    {
        let defaults = Settle {
            velocity_tolerance: Some(velocity_tolerance.um_per_s),
            timeout: None,
            tolerance_scale: None,
        };
        Linear {
            state: LinearState {
                pid,
                tolerance,
                default_speed_cap: MAX_VOLTAGE,
                speed_cap: MAX_VOLTAGE,
                defaults,
                active: defaults,
                elapsed: Time { us: 0 },
                traveled: Length { um: 0 },
            },
        }
    }

    /// For the next call only: the voltage asked for is held to `cap`. A
    /// negative cap counts as zero.
    pub fn speed_cap(&mut self, cap: i64) -> (r: &mut Linear)
        ensures
            r@ == (LinearState { speed_cap: cap, ..old(self)@ }),
            final(self)@ == final(r)@,
    {
        self.state.speed_cap = cap;
        self
    }

    /// For the next call only: the move has not converged while the forward
    /// velocity is at or above `velocity`.
    pub fn settle_velocity(&mut self, velocity: Velocity) -> (r: &mut Linear)
        ensures
            r@ == (LinearState {
                active: Settle {
                    velocity_tolerance: Some(velocity.um_per_s),
                    ..old(self)@.active
                },
                ..old(self)@
            }),
            final(self)@ == final(r)@,
    {
        self.state.active.velocity_tolerance = Some(velocity.um_per_s);
        self
    }

    /// For the next call only: the move is given up once it has run for
    /// longer than `duration`.
    pub fn timeout(&mut self, duration: Time) -> (r: &mut Linear)
        ensures
            r@ == (LinearState {
                active: Settle { timeout: Some(duration), ..old(self)@.active },
                ..old(self)@
            }),
            final(self)@ == final(r)@,
    {
        self.state.active.timeout = Some(duration);
        self
    }

    /// For the next call only: the tolerance is multiplied by `scale`, a
    /// fixed-point factor. A factor above one widens the band, so that the
    /// next move can start before this one has fully settled.
    pub fn chain(&mut self, scale: i64) -> (r: &mut Linear)
        ensures
            r@ == (LinearState {
                active: Settle { tolerance_scale: Some(scale), ..old(self)@.active },
                ..old(self)@
            }),
            final(self)@ == final(r)@,
    {
        self.state.active.tolerance_scale = Some(scale);
        self
    }

    /// The distance from the robot to `point`: the target to hand to
    /// [`Linear::drive_distance`] for a call that drives to that point.
    pub fn drive_to_point(dt: &Drivetrain, point: Vec2<Length>) -> (target: Length)
        ensures
            target.um as int == norm(
                difference(point.x.um as int, dt@.odometry.pose.x.um as int),
                difference(point.y.um as int, dt@.odometry.pose.y.um as int),
            ),
            target.um >= 0,
    {
        let pose = dt.pose();
        let here = Vec2 { x: pose.x.um, y: pose.y.um };
        Length { um: Vec2 { x: point.x.um, y: point.y.um }.distance(here) }
    }

    /// Ends the call in progress, if any, as a call ends by itself: both
    /// sides are given zero and the settings of the call go back to what the
    /// primitive was built with. For a caller that gives a move up.
    pub fn stop(&mut self, dt: &mut Drivetrain)
        ensures
            final(self)@.pid == old(self)@.pid,
            final(self)@.tolerance == old(self)@.tolerance,
            final(self)@.default_speed_cap == old(self)@.default_speed_cap,
            final(self)@.defaults == old(self)@.defaults,
            final(self)@.speed_cap == final(self)@.default_speed_cap,
            final(self)@.active == final(self)@.defaults,
            final(self)@.elapsed.us == 0,
            final(self)@.traveled.um == 0,
            final(dt)@ == old(dt)@.with_voltages(0, 0),
    {
        self.state.speed_cap = self.state.default_speed_cap;
        self.state.active = self.state.defaults;
        self.state.elapsed = Time { us: 0 };
        self.state.traveled = Length { um: 0 };
        dt.set_voltages(0, 0);
    }

    /// One tick of a call that drives `target` along the current heading.
    /// `elapsed` is the time since the previous tick, or since the call began.
    ///
    /// While the call runs, both sides are given the control signal, held to
    /// the speed cap. When it ends, converged or timed out, both sides are
    /// given zero and the settings of the call, the speed cap among them, go
    /// back to what the primitive was built with.
    pub fn drive_distance(&mut self, dt: &mut Drivetrain, target: Length, elapsed: Time) -> (status:
        Status)
        requires
            elapsed.us > 0,
        ensures
            status == linear_status(
                old(self)@,
                old(dt)@.odometry.pose.vf.um_per_s as int,
                target.um as int,
                elapsed.us as int,
            ),
            final(self)@.pid@ == advanced(
                old(self)@.pid@,
                linear_error(
                    old(self)@,
                    old(dt)@.odometry.pose.vf.um_per_s as int,
                    target.um as int,
                    elapsed.us as int,
                ),
                elapsed.us as int,
            ),
            final(self)@.tolerance == old(self)@.tolerance,
            final(self)@.default_speed_cap == old(self)@.default_speed_cap,
            final(self)@.defaults == old(self)@.defaults,
            status is Running ==> {
                &&& final(self)@.speed_cap == old(self)@.speed_cap
                &&& final(self)@.active == old(self)@.active
                &&& final(self)@.elapsed.us as int == sum(
                    old(self)@.elapsed.us as int,
                    elapsed.us as int,
                )
                &&& final(self)@.traveled.um as int == traveled_after(
                    old(self)@.traveled.um as int,
                    old(dt)@.odometry.pose.vf.um_per_s as int,
                    elapsed.us as int,
                )
                &&& final(dt)@ == old(dt)@.with_voltages(
                    linear_signal(
                        old(self)@,
                        old(dt)@.odometry.pose.vf.um_per_s as int,
                        target.um as int,
                        elapsed.us as int,
                    ),
                    linear_signal(
                        old(self)@,
                        old(dt)@.odometry.pose.vf.um_per_s as int,
                        target.um as int,
                        elapsed.us as int,
                    ),
                )
            },
            !(status is Running) ==> {
                &&& final(self)@.speed_cap == final(self)@.default_speed_cap
                &&& final(self)@.active == final(self)@.defaults
                &&& final(self)@.elapsed.us == 0
                &&& final(self)@.traveled.um == 0
                &&& final(dt)@ == old(dt)@.with_voltages(0, 0)
            },
    {
        let time = self.state.elapsed + elapsed;
        let pose = dt.pose();
        let traveled = sat_add(self.state.traveled.um, fx_mul(pose.vf.um_per_s, elapsed.us));
        let error = sat_sub(target.um, traveled);
        let output = self.state.pid.output(error, elapsed);
        let status = judge(
            error,
            pose.vf.um_per_s,
            time,
            self.state.tolerance.um,
            &self.state.active,
        );
        match status {
            Status::Running => {
                self.state.elapsed = time;
                self.state.traveled = Length { um: traveled };
                let signal = clamp_symmetric(output, self.state.speed_cap);
                dt.set_voltages(signal, signal);
            },
            _ => {
                self.state.speed_cap = self.state.default_speed_cap;
                self.state.active = self.state.defaults;
                self.state.elapsed = Time { us: 0 };
                self.state.traveled = Length { um: 0 };
                dt.set_voltages(0, 0);
            },
        }
        status
    }
}

} // verus!
