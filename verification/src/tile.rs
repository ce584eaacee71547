//! The tile variants that make up the world grid.

use vstd::prelude::*;

verus! {

/// Rock hardness and treasure value are derived from depth at generation
/// time and never exceed this bound.
pub const MAX_TILE_LEVEL: u8 = 2;

/// One cell of the world grid.
///
/// `Rock` carries a hardness and `Treasure` a value, both small integers in
/// `0..=MAX_TILE_LEVEL` chosen from the depth at which the tile was revealed.
#[derive(Clone, Copy, Debug, PartialEq, Eq, Structural)]
pub enum TileType {
    Sky,
    Empty,
    Dirt,
    Ladder,
    Water,
    Rock { hardness: u8 },
    Treasure { value: u8 },
}

impl TileType {
    /// A rock's hardness and a treasure's value stay in their declared range.
    pub open spec fn valid(self) -> bool {
        &&& (self is Rock ==> self->hardness <= MAX_TILE_LEVEL)
        &&& (self is Treasure ==> self->value <= MAX_TILE_LEVEL)
    }

    /// The tiles the player may occupy: everything that is not solid.
    pub open spec fn passable(self) -> bool {
        self is Empty || self is Ladder || self is Sky
    }
}

} // verus!
