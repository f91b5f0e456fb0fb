//! A two-player arcade ball game: the per-frame simulation.
//!
//! Lengths are measured in micro-units (a millionth of an arena unit), speeds
//! in arena units per second and elapsed time in microseconds, so that a
//! speed multiplied by an elapsed time is a displacement in micro-units,
//! exactly.
use vstd::prelude::*;

pub mod ball;
pub mod config;
pub mod paddle;
pub mod game;
pub mod score;
