//! Motion control for a two-wheel differential-drive robot.
//!
//! The crate estimates the robot's pose by dead reckoning and drives that
//! estimate to a target with PID-based motion primitives: a straight drive, a
//! turn in place, a swing about an off-centre point, and a seek to a point.
//!
//! # Numbers
//!
//! Every quantity is a fixed-point integer, a count of millionths of its
//! unit (see [`fixed`] and [`units`]). Arithmetic saturates instead of
//! overflowing, so that nothing here can trap. Working in integers is what
//! lets each rule of the controller be stated exactly and proved.
//!
//! A count at either end of the range stands for a value that is no number.
//! What is computed from such a count need not sit there itself, so the
//! sensors and the pose estimator look at every reading and every number they
//! compute where it arises. A reading at an end of the range is left out of an
//! average; a wheel arc or a heading change made from one sits at the end of
//! the range itself; and a tick of the estimator, or a cycle of the tracking
//! sensor, that meets one is discarded. A pose whose position and heading
//! are numbers is therefore followed by a pose whose every field is one.
//!
//! Nothing in the crate evaluates a trigonometric function. Where a rule
//! needs the cosine and sine of an angle, or the direction of a vector, the
//! caller hands them in as counts, and the contracts say what is done with
//! them.
//!
//! # Ticks
//!
//! The crate does not sleep, read a clock or touch a device. The pose
//! estimator and the motion primitives are advanced one tick at a time by
//! their caller, which measures the time that passed, reads the sensors, and
//! carries the commands that a tick leaves with the drivetrain to the motors.
//! A tick of a motion primitive answers with a [`motion::Status`]; the call
//! is over when the status is no longer [`motion::Status::Running`].
//!
//! # Signs
//!
//! A heading error is the way from the heading to the target, taken the
//! short way round. A positive error calls for a turn toward a larger heading,
//! which the right side of the drivetrain leads.

pub mod controllers;
pub mod fixed;
pub mod hardware;
pub mod localization;
pub mod mappings;
pub mod motion;
pub mod subsystems;
pub mod units;
pub mod utils;
