//! A small mining-game simulation core: a tile world that a player digs
//! through, with procedural tile reveal, a dig/move state machine, and an
//! elevator that carries the player down a shaft.
//!
//! The grid ([`map`]), the player ([`player`]) and the elevator
//! ([`elevator`]) each carry a mathematical model; [`step`] resolves one
//! simulation tick against those models, drawing reveal outcomes
//! ([`procgen`]) from the random source when dirt is dug.

pub mod constants;
pub mod elevator;
pub mod map;
pub mod player;
pub mod procgen;
mod rng;
pub mod step;
pub mod tile;
