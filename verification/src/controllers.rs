//! Feedback controllers.

pub mod pid;
