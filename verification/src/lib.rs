//! Per-tick update logic for a small typing game: an enemy sprite and two
//! hand sprites grow each tick, a line buffer accumulates typed characters,
//! and confirming the right target word knocks the sprites back.
//!
//! All geometry is kept in signed fixed-point units of 1/10_000 of a world
//! unit, so every update is exact integer arithmetic.

pub mod buffer;
pub mod game;
pub mod laws;
pub mod params;
pub mod round;
pub mod transform;
