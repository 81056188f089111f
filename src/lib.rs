//! Simulation core of a small arcade shooter: a round player avatar dodges and
//! shoots square obstacles that fall from the top of the screen.
//!
//! Lengths are integers in milli-pixels, speeds in milli-pixels per second and
//! times in microseconds, so that every step of the simulation is exact.
pub mod geometry;
pub mod entity;
pub mod game;
pub mod record;
pub mod spawn;
pub mod sweep;
pub mod tally;
