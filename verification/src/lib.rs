//! Tilt-responsive indicator control.
//!
//! A board samples a 3-axis accelerometer and lights one of three
//! indicators (left / center / right) according to how far it is tilted
//! along one axis.  The decision pipeline lives here: a linear range
//! mapping from a raw axis reading to a tilt angle, and a dead-zone
//! classifier from that angle to exactly one active indicator.  The
//! sensor and the indicator pins themselves are collaborators that the
//! surrounding program owns; this crate only decides.

pub mod classifier;
pub mod mapper;
pub mod pipeline;
