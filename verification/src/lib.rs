//! Simulation core of a top-down arcade game: a farmer-combine harvests a
//! crop grid while fending off homing enemies with a modal turret.
//!
//! The core consumes sampled input and elapsed time and produces state
//! transitions and events; it performs no I/O and owns no rendering. All
//! world coordinates are fixed-point integers — one grid cell is a
//! thousand units wide — and all times are whole milliseconds.

use vstd::prelude::*;

pub mod clock;
pub mod combine;
pub mod despawn;
pub mod enemy;
pub mod field;
pub mod game;
pub mod movement;
pub mod numeric;
mod rng;
pub mod turret;

verus! {

/// Largest elapsed-time sample (in ms) a single tick accepts.
pub const MAX_TICK_MS: u32 = 1_000_000;

} // verus!
