//! World configuration: grid size, the elevator shaft, and treasure pricing.

use vstd::prelude::*;

verus! {

/// Width of the world grid, in tiles.
pub const MAP_WIDTH: usize = 10;

/// Height of the world grid, in tiles.
pub const MAP_HEIGHT: usize = 20;

/// Rows `0..SKY_HEIGHT` are open sky; the ground surface starts below them.
pub const SKY_HEIGHT: usize = 2;

/// The column the elevator travels in; it is kept clear of dirt.
pub const ELEVATOR_SHAFT_X: usize = 0;

/// How far down the elevator may travel, measured in rows below the sky.
pub const MAX_ELEVATOR_DEPTH: usize = MAP_HEIGHT - SKY_HEIGHT - 1;

/// A treasure of value `v` pays `(1 << v) * TREASURE_BASE_VALUE` when
/// collected.
pub const TREASURE_BASE_VALUE: u64 = 10;

/// Where the player stands when the world starts.
pub const PLAYER_START_X: usize = 5;

/// Where the player stands when the world starts.
pub const PLAYER_START_Y: usize = 1;

} // verus!
