//! Whole ticks of the dig/move state machine.

use digger::constants::{ELEVATOR_SHAFT_X, SKY_HEIGHT};
use digger::elevator::Elevator;
use digger::map::WorldMap;
use digger::player::Player;
use digger::step::{move_player, move_player_with_draws};
use digger::tile::TileType;

/// A 10 x 20 map, the player at (5, 1) over dirt, the draw forced to
/// rock: the dug cell turns to rock of hardness 0 and the player does not
/// move.
#[test]
fn digging_dirt_reveals_rock_and_blocks_the_move() {
    let mut map = WorldMap::new(10, 20);
    let mut player = Player::new(5, 1);
    player.target_x = 5;
    player.target_y = 2;
    assert_eq!(map.tile(5, 2), TileType::Dirt);
    move_player_with_draws(&mut player, &mut map, 0, 0, 0);
    assert_eq!(map.tile(5, 2), TileType::Rock { hardness: 0 });
    assert_eq!((player.x, player.y), (5, 1));
    assert_eq!((player.target_x, player.target_y), (5, 1));
}

/// Digging consumes the tick even when the reveal is passable: with an
/// empty-space draw the dug cell opens up, but the player must wait.
#[test]
fn digging_dirt_blocks_the_move_even_on_an_empty_reveal() {
    let mut map = WorldMap::new(10, 20);
    let mut player = Player::new(5, 1);
    player.target_x = 5;
    player.target_y = 2;
    move_player_with_draws(&mut player, &mut map, 0, 49, 0);
    assert_eq!(map.tile(5, 2), TileType::Empty);
    assert_eq!((player.x, player.y), (5, 1));
    assert_eq!(player.money, 0);
}

/// Collecting a treasure of value 1 pays (1 << 1) * 10 = 20, empties the
/// cell, and moves the player onto it in the same tick.
#[test]
fn collecting_treasure_pays_and_moves() {
    let mut map = WorldMap::new(10, 20);
    let mut player = Player::new(4, 2);
    map.set_tile(4, 3, TileType::Treasure { value: 1 });
    player.target_x = 4;
    player.target_y = 3;
    move_player_with_draws(&mut player, &mut map, 0, 0, 0);
    assert_eq!(player.money, 20);
    assert_eq!((player.x, player.y), (4, 3));
    assert_eq!(map.tile(4, 3), TileType::Empty);
}

/// Rock rejects the move outright: the target snaps back.
#[test]
fn rock_blocks_the_move() {
    let mut map = WorldMap::new(10, 20);
    let mut player = Player::new(4, 2);
    map.set_tile(4, 3, TileType::Rock { hardness: 1 });
    player.target_x = 4;
    player.target_y = 3;
    move_player_with_draws(&mut player, &mut map, 0, 0, 0);
    assert_eq!((player.x, player.y), (4, 2));
    assert_eq!((player.target_x, player.target_y), (4, 2));
    assert_eq!(map.tile(4, 3), TileType::Rock { hardness: 1 });
}

/// Open space underfoot and no ladder: the player falls one row, whatever
/// target was pending.
#[test]
fn gravity_pulls_the_player_down() {
    let mut map = WorldMap::new(10, 20);
    map.set_tile(3, 2, TileType::Empty);
    map.set_tile(3, 3, TileType::Empty);
    let mut player = Player::new(3, 2);
    player.target_x = 2;
    player.target_y = 2;
    move_player_with_draws(&mut player, &mut map, 0, 0, 0);
    assert_eq!((player.x, player.y), (3, 3));
}

/// On a ladder there is no falling.
#[test]
fn a_ladder_holds_the_player_up() {
    let mut map = WorldMap::new(10, 20);
    map.set_tile(3, 2, TileType::Ladder);
    map.set_tile(3, 3, TileType::Empty);
    let mut player = Player::new(3, 2);
    move_player_with_draws(&mut player, &mut map, 0, 0, 0);
    assert_eq!((player.x, player.y), (3, 2));
}

/// A player standing in open air may not climb up: the upward target is
/// cancelled.
#[test]
fn no_climbing_up_through_open_air() {
    let mut map = WorldMap::new(10, 20);
    map.set_tile(3, 3, TileType::Empty);
    map.set_tile(3, 2, TileType::Empty);
    // Dirt right below keeps gravity out of the way.
    let mut player = Player::new(3, 3);
    player.target_x = 3;
    player.target_y = 2;
    move_player_with_draws(&mut player, &mut map, 0, 0, 0);
    assert_eq!((player.x, player.y), (3, 3));
}

/// Riding the elevator, the player's row is pinned: a pending vertical
/// move does nothing; only the elevator's advance moves the player's row.
#[test]
fn the_elevator_pins_the_players_row() {
    let mut map = WorldMap::new(10, 20);
    let mut elevator = Elevator::new(17);
    for _ in 0..3 {
        elevator.advance();
    }
    assert_eq!(elevator.depth(), 3);
    let row = SKY_HEIGHT + 3;
    let mut player = Player::new(ELEVATOR_SHAFT_X, row);
    player.target_x = ELEVATOR_SHAFT_X;
    player.target_y = row - 1;
    move_player(&mut player, &mut map, &elevator);
    assert_eq!(player.y, row);
    assert_eq!(player.x, ELEVATOR_SHAFT_X);
}

/// A whole tick against the live random source: the dirt is gone, replaced
/// by one of the four reveal outcomes, and the player has not moved.
#[test]
fn a_random_dig_reveals_something_and_stays_put() {
    for _ in 0..100 {
        let mut map = WorldMap::new(10, 20);
        let mut player = Player::new(5, 1);
        player.target_x = 5;
        player.target_y = 2;
        let elevator = Elevator::new(17);
        move_player(&mut player, &mut map, &elevator);
        let revealed = map.tile(5, 2);
        assert!(matches!(
            revealed,
            TileType::Rock { .. } | TileType::Treasure { .. } | TileType::Water | TileType::Empty
        ));
        if let TileType::Rock { hardness } = revealed {
            assert!(hardness <= 2);
        }
        if let TileType::Treasure { value } = revealed {
            assert!(value <= 2);
        }
        assert_eq!((player.x, player.y), (5, 1));
        assert_eq!((player.target_x, player.target_y), (5, 1));
    }
}

/// Digging a water tile is a no-op; walking into it is rejected.
#[test]
fn water_is_neither_dug_nor_entered() {
    let mut map = WorldMap::new(10, 20);
    map.set_tile(4, 3, TileType::Water);
    let mut player = Player::new(4, 2);
    player.target_x = 4;
    player.target_y = 3;
    move_player_with_draws(&mut player, &mut map, 0, 0, 0);
    assert_eq!(map.tile(4, 3), TileType::Water);
    assert_eq!((player.x, player.y), (4, 2));
}
