//! A fixed-point simulation engine for a two-ship torpedo duel in a toroidal arena.
//!
//! Positions are integers in micro-units: the arena spans `[-UNIT, UNIT)` on each axis,
//! where `UNIT` stands for one arena unit. Velocities are micro-units per second, time
//! spans are microseconds and angles are micro-radians.
pub mod arena;
pub mod vehicle;
pub mod spatial;
pub mod clock;
pub mod game;
pub mod laws;
