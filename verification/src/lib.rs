//! Simulation core for a two-paddle ball game.
//!
//! The crate covers the parts of the game that decide and compute: building
//! physics-body descriptors from level geometry, validating a level, advancing
//! a fixed-timestep accumulator, smoothing player input into a paddle
//! velocity, and classifying body state into draw primitives.  The windowing,
//! rendering and collision engines are outside collaborators: they consume and
//! produce the plain values that these modules speak of.
//!
//! All quantities are integers in level units (positions, extents, velocities
//! in units per second) or microseconds (time).

use vstd::prelude::*;

pub mod factory;
pub mod geometry;
pub mod input;
pub mod num;
pub mod render;
pub mod sim;
pub mod timing;
pub mod world;

verus! {

/// Target paddle speed, in level units per second.
pub const PADDLE_SPEED: i64 = 1000;

/// Initial horizontal ball speed, in level units per second.
pub const BALL_SPEED: i64 = 1000;

/// Length of one fixed physics step, in microseconds (sixty steps per second).
pub const STEP_MICROS: u64 = 16666;

/// Numerator of the per-step smoothing fraction: a rate of ten per second
/// scaled by a one-sixtieth-second step.
pub const SMOOTH_NUM: i64 = 10;

/// Denominator of the per-step smoothing fraction.
pub const SMOOTH_DEN: i64 = 60;

/// Bound on level coordinates and shape extents.
pub const GEOM_LIMIT: i64 = 1_000_000_000;

/// Bound on the velocity a body may be assigned.
pub const VEL_LIMIT: i64 = 1_000_000_000;

} // verus!
