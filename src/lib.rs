//! Kinematics of a single player-controlled ship on a toroidal arena.
//!
//! All quantities are integers in units that the host chooses: lengths in
//! length units, angles in angle units, time in milliseconds. Direction
//! vectors carry the fixed-point scale [`geometry::UNIT`].

pub mod arith;
pub mod geometry;
pub mod ship;
pub mod laws;
