//! Simulation core of an asteroids arcade game.
//!
//! All quantities are integers in fixed point:
//! lengths in ticks (`SCALE` ticks to a screen unit), times in microseconds,
//! velocities in ticks per second, angles in milliradians and unit vectors
//! with `ONE` standing for 1. Trigonometry is left to the caller, who hands
//! the core ready-made unit vectors.
use vstd::prelude::*;

pub mod fixed;
pub mod collision;
pub mod motion;
pub mod random;
pub mod asteroid;
pub mod player;
pub mod game;
