//! A verified core for a small arcade platformer: a player sprite bounces
//! upward across procedurally placed tiles, with gravity, horizontal
//! wraparound, camera-follow scrolling, a score counter and a
//! restart-on-death flow.
//!
//! All world geometry is held in fixed-point integers (`SUBUNIT` subunits per
//! world unit, velocities in subunits per millisecond), so every per-frame
//! formula is exact integer arithmetic with a precise contract.

pub mod frame;
pub mod laws;
pub mod state;
