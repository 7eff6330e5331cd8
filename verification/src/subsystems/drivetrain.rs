//! The drivetrain: two motor banks coupled to the pose estimator.
//!
//! Each bank keeps the command that was last given to it. The caller
//! carries the commands to the motors after each tick, and hands in what the
//! motors report.

use vstd::prelude::*;
use crate::fixed::{
    abs_wide, clamp, difference, fx_div, fx_mul, magnitude, mul_div, product, quotient, ratio,
    sat_add, sat_sub, saturate, sum, SCALE,
};
use crate::hardware::motor_group::{fused, MotorCommand, MotorGroup, MotorGroupState};
use crate::localization::odometry::{
    average_heading_of, heading_change, next_pose, Odometry, OdometryState,
};
use crate::localization::pose::Pose;
use crate::localization::vec2::Rotation;
use crate::mappings::DriveMode;
use crate::units::{Angle, Length, Time, HALF_TURN};

verus! {

/// The most a motor can be given, in microvolts.
pub const MAX_VOLTAGE: i64 = 12_000_000;

/// The most a motor with the fastest gearing turns, in millionths of a
/// revolution per minute.
pub const MAX_VELOCITY: i64 = 600_000_000;

/// What a drivetrain holds.
pub struct DrivetrainState {
    pub left: MotorGroupState,
    pub right: MotorGroupState,
    pub odometry: OdometryState,
    pub wheel_circum: Length,
    pub track: Length,
}

/// A differential drivetrain.
pub struct Drivetrain {
    left: MotorGroup,
    right: MotorGroup,
    odometry: Odometry,
    wheel_circum: Length,
    track: Length,
}

impl View for Drivetrain {
    type V = DrivetrainState;

    closed spec fn view(&self) -> DrivetrainState {
        DrivetrainState {
            left: self.left@,
            right: self.right@,
            odometry: self.odometry@,
            wheel_circum: self.wheel_circum,
            track: self.track,
        }
    }
}

impl DrivetrainState {
    /// This drivetrain with a new command for each side and nothing else
    /// changed.
    pub open spec fn commanded(self, left: MotorCommand, right: MotorCommand) -> DrivetrainState {
        DrivetrainState {
            left: MotorGroupState { command: left, ..self.left },
            right: MotorGroupState { command: right, ..self.right },
            ..self
        }
    }

    /// This drivetrain with a voltage asked of each side.
    pub open spec fn with_voltages(self, left: int, right: int) -> DrivetrainState {
        self.commanded(MotorCommand::Voltage(left as i64), MotorCommand::Voltage(right as i64))
    }

    /// This drivetrain with a velocity asked of each side.
    pub open spec fn with_velocities(self, left: int, right: int) -> DrivetrainState {
        self.commanded(MotorCommand::Velocity(left as i64), MotorCommand::Velocity(right as i64))
    }
}

/// The speed over ground of a wheel of the given circumference that turns
/// at `rpm`, a count of millionths of a revolution per minute.
pub open spec fn ground_speed(wheel_circum: int, rpm: int) -> int {
    ratio(product(wheel_circum, rpm), 1, 60)
}

/// A stick position raised to the power `n`, as a fixed-point count.
pub open spec fn power_of(x: int, n: nat) -> int
    decreases n,
{
    if n == 0 {
        SCALE as int
    } else {
        product(power_of(x, (n - 1) as nat), x)
    }
}

/// A stick position passed through the curve of exponent `n`: the magnitude
/// is raised to the power `n` and the sign is kept, for even exponents too.
/// An exponent of one or less leaves the position as it is.
pub open spec fn curved(x: int, n: int) -> int {
    if n <= 1 {
        x
    } else if n % 2 == 0 {
        product(power_of(x, (n - 1) as nat), clamp(magnitude(x)))
    } else {
        product(power_of(x, (n - 1) as nat), x)
    }
}

/// The left and right stick values that a driving mode asks for, before they
/// are turned into voltages. In arcade mode the turn goes through the curve
/// of exponent two.
pub open spec fn mixed(mode: DriveMode) -> (int, int) {
    match mode {
        DriveMode::Arcade { power, turn } => (
            sum(power as int, curved(turn as int, 2)),
            difference(power as int, curved(turn as int, 2)),
        ),
        DriveMode::Tank { left, right } => (left as int, right as int),
    }
}

/// Applies the curve of exponent `acceleration` to a stick position.
pub fn apply_curve(power: i64, acceleration: i32) -> (r: i64)
    ensures
        r as int == curved(power as int, acceleration as int),
{
    if acceleration <= 1 {
        return power;
    }
    let mut raised: i64 = SCALE;
    let mut i: i32 = 0;
    while i < acceleration - 1
        invariant
            0 <= i <= acceleration - 1,
            raised as int == power_of(power as int, i as nat),
        decreases acceleration - 1 - i,
    {
        raised = fx_mul(raised, power);
        i = i + 1;
    }
    if acceleration % 2 == 0 {
        fx_mul(raised, saturate(abs_wide(power)))
    } else {
        fx_mul(raised, power)
    }
}

/// The voltages for the left and right sides that a driving mode asks for.
pub fn differential(drive_mode: &DriveMode) -> (r: (i64, i64))
    ensures
        r.0 as int == product(mixed(*drive_mode).0, MAX_VOLTAGE as int),
        r.1 as int == product(mixed(*drive_mode).1, MAX_VOLTAGE as int),
{
    let (left_val, right_val): (i64, i64) = match drive_mode {
        DriveMode::Arcade { power, turn } => {
            let turn_val = apply_curve(*turn, 2);
            (sat_add(*power, turn_val), sat_sub(*power, turn_val))
        },
        DriveMode::Tank { left, right } => (*left, *right),
    };
    (fx_mul(left_val, MAX_VOLTAGE), fx_mul(right_val, MAX_VOLTAGE))
}

impl Drivetrain {
    /// A drivetrain of two banks and a pose estimator, with wheels of the
    /// given diameter set `track` apart.
    pub fn new(
        left: MotorGroup,
        right: MotorGroup,
        odometry: Odometry,
        wheel_diameter: Length,
        track: Length,
    ) -> (dt: Drivetrain)
        ensures
            dt@.left == left@,
            dt@.right == right@,
            dt@.odometry == odometry@,
            dt@.wheel_circum.um as int == product(wheel_diameter.um as int, HALF_TURN as int),
            dt@.track == track,
    {
        Drivetrain {
            left,
            right,
            odometry,
            wheel_circum: Length { um: fx_mul(wheel_diameter.um, HALF_TURN) },
            track,
        }
    }

    /// Asks for a voltage on each side.
    pub fn set_voltages(&mut self, left: i64, right: i64)
        ensures
            final(self)@ == old(self)@.with_voltages(left as int, right as int),
    {
        self.left.set_voltage(left);
        self.right.set_voltage(right);
    }

    /// Asks for a velocity on each side.
    pub fn set_velocity(&mut self, left: i64, right: i64)
        ensures
            final(self)@ == old(self)@.with_velocities(left as int, right as int),
    {
        self.left.set_velocity(left);
        self.right.set_velocity(right);
    }

    /// Mixes a power and a turn into voltages: the left side gets their sum,
    /// the right side their difference.
    pub fn arcade(&mut self, power: i64, turn: i64)
        ensures
            final(self)@ == old(self)@.with_voltages(
                sum(power as int, turn as int),
                difference(power as int, turn as int),
            ),
    {
        let left = sat_add(power, turn);
        let right = sat_sub(power, turn);
        self.set_voltages(left, right);
    }

    /// Turns the driver's sticks into voltages.
    pub fn drive(&mut self, mode: &DriveMode)
        ensures
            final(self)@ == old(self)@.with_voltages(
                product(mixed(*mode).0, MAX_VOLTAGE as int),
                product(mixed(*mode).1, MAX_VOLTAGE as int),
            ),
    {
        let (left, right) = differential(mode);
        self.set_voltages(left, right);
    }

    /// The commands that were last given, left and right.
    pub fn command(&self) -> (c: (MotorCommand, MotorCommand))
        ensures
            c.0 == self@.left.command,
            c.1 == self@.right.command,
    {
        (self.left.command(), self.right.command())
    }

    /// The voltages of the two sides, left and right: of each, the mean of
    /// the readings that can be used, or what was reported last where none
    /// can.
    pub fn get_voltages(
        &mut self,
        left: &Vec<Option<i64>>,
        right: &Vec<Option<i64>>,
    ) -> (v: [i64; 2])
        ensures
            v@.len() == 2,
            v@[0] as int == fused(left@, old(self)@.left.voltage as int),
            v@[1] as int == fused(right@, old(self)@.right.voltage as int),
            final(self)@ == (DrivetrainState {
                left: MotorGroupState { voltage: v@[0], ..old(self)@.left },
                right: MotorGroupState { voltage: v@[1], ..old(self)@.right },
                ..old(self)@
            }),
    {
        let l = self.left.voltage(left);
        let r = self.right.voltage(right);
        [l, r]
    }

    /// The speed over ground, in micrometres per second, from what the
    /// motors of the two sides report as their rates: the wheel's
    /// circumference times the mean of the two sides' rates.
    pub fn velocity(&mut self, left: &Vec<Option<i64>>, right: &Vec<Option<i64>>) -> (v: i64)
        ensures
            v as int == ground_speed(
                old(self)@.wheel_circum.um as int,
                ratio(
                    sum(
                        fused(left@, old(self)@.left.velocity as int),
                        fused(right@, old(self)@.right.velocity as int),
                    ),
                    1,
                    2,
                ),
            ),
            final(self)@ == (DrivetrainState {
                left: MotorGroupState {
                    velocity: fused(left@, old(self)@.left.velocity as int) as i64,
                    ..old(self)@.left
                },
                right: MotorGroupState {
                    velocity: fused(right@, old(self)@.right.velocity as int) as i64,
                    ..old(self)@.right
                },
                ..old(self)@
            }),
    {
        let l = self.left.velocity(left);
        let r = self.right.velocity(right);
        let rpm = mul_div(sat_add(l, r), 1, 2);
        mul_div(fx_mul(self.wheel_circum.um, rpm), 1, 60)
    }

    /// The rate of turn, in microradians per second, as this drivetrain
    /// reckons it from what the motors of the two sides report as their
    /// rates: the ground speed that goes with the sum of the two sides'
    /// rates, divided by the track. Zero for a drivetrain without a track.
    pub fn angular_velocity(
        &mut self,
        left: &Vec<Option<i64>>,
        right: &Vec<Option<i64>>,
    ) -> (w: i64)
        ensures
            w as int == if old(self)@.track.um == 0 {
                0
            } else {
                quotient(
                    ground_speed(
                        old(self)@.wheel_circum.um as int,
                        sum(
                            fused(left@, old(self)@.left.velocity as int),
                            fused(right@, old(self)@.right.velocity as int),
                        ),
                    ),
                    old(self)@.track.um as int,
                )
            },
            final(self)@ == (DrivetrainState {
                left: MotorGroupState {
                    velocity: fused(left@, old(self)@.left.velocity as int) as i64,
                    ..old(self)@.left
                },
                right: MotorGroupState {
                    velocity: fused(right@, old(self)@.right.velocity as int) as i64,
                    ..old(self)@.right
                },
                ..old(self)@
            }),
    {
        let l = self.left.velocity(left);
        let r = self.right.velocity(right);
        if self.track.um == 0 {
            return 0;
        }
        let vdiff = mul_div(fx_mul(self.wheel_circum.um, sat_add(l, r)), 1, 60);
        fx_div(vdiff, self.track.um)
    }

    /// A copy of the current pose.
    pub fn pose(&self) -> (pose: Pose)
        ensures
            pose == self@.odometry.pose,
    {
        self.odometry.get_pose()
    }

    /// A copy of the current pose.
    pub fn get_pose(&self) -> (pose: Pose)
        ensures
            pose == self@.odometry.pose,
    {
        self.odometry.get_pose()
    }

    /// Replaces the pose.
    pub fn set_pose(&mut self, pose: Pose)
        ensures
            final(self)@ == (DrivetrainState {
                odometry: OdometryState { pose, ..old(self)@.odometry },
                ..old(self)@
            }),
    {
        self.odometry.set_pose(pose);
    }

    /// The distance between the two sides.
    pub fn track(&self) -> (t: Length)
        ensures
            t == self@.track,
    {
        self.track
    }

    /// The heading halfway through a tick that ends with the sensor reading
    /// `heading`.
    pub fn average_heading(&self, heading: Angle) -> (avg: Angle)
        ensures
            avg.urad as int == average_heading_of(
                self@.odometry.pose.h.urad as int,
                heading_change(self@.odometry.prev_heading.urad as int, heading.urad as int),
            ),
    {
        self.odometry.average_heading(heading)
    }

    /// One tick of the pose estimator; see [`Odometry::update`].
    pub fn update_pose(
        &mut self,
        side: Length,
        forward: Length,
        heading: Angle,
        rotation: Rotation,
        elapsed: Time,
    )
        ensures
            final(self)@ == (DrivetrainState {
                odometry: OdometryState {
                    prev_heading: heading,
                    pose: next_pose(
                        old(self)@.odometry.pose,
                        old(self)@.odometry.side,
                        old(self)@.odometry.forward,
                        side.um as int,
                        forward.um as int,
                        heading_change(
                            old(self)@.odometry.prev_heading.urad as int,
                            heading.urad as int,
                        ),
                        rotation,
                        elapsed.us as int,
                    ),
                    ..old(self)@.odometry
                },
                ..old(self)@
            }),
    {
        self.odometry.update(side, forward, heading, rotation, elapsed);
    }
}

} // verus!
