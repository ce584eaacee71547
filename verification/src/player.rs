//! The player: a position, a pending move target, and a money balance.

use vstd::prelude::*;

verus! {

/// The mathematical model of a player. The target is the cell the player is
/// attempting to occupy this tick; outside the one tick in which a move is
/// resolved it equals the position.
#[verifier::ext_equal]
pub ghost struct PlayerModel {
    pub x: int,
    pub y: int,
    pub target_x: int,
    pub target_y: int,
    pub money: int,
}

/// The player. Fields are public so that input adapters can write a new
/// target and renderers can read the position between ticks.
pub struct Player {
    pub x: usize,
    pub y: usize,
    pub target_x: usize,
    pub target_y: usize,
    pub money: u64,
}

impl View for Player {
    type V = PlayerModel;

    open spec fn view(&self) -> PlayerModel {
        PlayerModel {
            x: self.x as int,
            y: self.y as int,
            target_x: self.target_x as int,
            target_y: self.target_y as int,
            money: self.money as int,
        }
    }
}

impl Player {
    /// A new player standing at `(x, y)`, not moving, with nothing earned.
    pub fn new(x: usize, y: usize) -> (p: Player)
        ensures
            p@ == (PlayerModel { x: x as int, y: y as int, target_x: x as int, target_y: y as int, money: 0 }),
    {
        Player { x, y, target_x: x, target_y: y, money: 0 }
    }

    /// Add `amount` to the player's balance; nothing else changes.
    pub fn receive_money(&mut self, amount: u64)
        requires
            old(self)@.money + amount <= u64::MAX,
        ensures
            final(self)@ == (PlayerModel { money: old(self)@.money + amount, ..old(self)@ }),
    {
        self.money = self.money + amount;
    }
}

} // verus!
