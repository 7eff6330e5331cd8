//! Where the robot is: vectors, poses and the dead-reckoning estimator.

pub mod odometry;
pub mod pose;
pub mod vec2;
