//! Obstacle-detection feedback logic for a two-channel assistive device.
//!
//! Two rangefinders sense obstacles to the left and to the right of the
//! wearer. Their readings are averaged, smoothed, classified, and turned into
//! a timed plan for two vibration motors and one shared buzzer. Every decision
//! is made here on plain values; driving the lines and sleeping is left to the
//! caller.
//!
//! Distances are fixed-point numbers, counted in thousandths of a centimetre.
//!
//! - [`rangefinder`]: one time-of-flight measurement, as a state machine.
//! - [`estimator`]: the mean of the first readings that succeed.
//! - [`filter`]: exponential smoothing across cycles.
//! - [`classifier`]: danger level and vibration intensity of a distance.
//! - [`feedback`]: the plan of one cycle; [`feedback_laws`] states what holds
//!   of every plan.
//! - [`control`]: one cycle of the control loop.
//! - [`status`]: the texts of the read-only status interface.

pub mod classifier;
pub mod control;
pub mod distance;
pub mod estimator;
pub mod feedback;
pub mod feedback_laws;
pub mod filter;
pub mod rangefinder;
pub mod status;
