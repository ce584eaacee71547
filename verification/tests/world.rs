//! The world pieces on their own: grid layout, tiles, player, elevator.

use digger::constants::{ELEVATOR_SHAFT_X, MAX_ELEVATOR_DEPTH, SKY_HEIGHT};
use digger::elevator::Elevator;
use digger::map::WorldMap;
use digger::player::Player;
use digger::procgen::revealed_tile;
use digger::tile::TileType;

#[test]
fn new_map_has_sky_shaft_and_dirt() {
    let map = WorldMap::new(10, 20);
    assert_eq!(map.width(), 10);
    assert_eq!(map.height(), 20);
    // Sky above the surface, in every column.
    for x in 0..10 {
        for y in 0..SKY_HEIGHT {
            assert_eq!(map.tile(x, y), TileType::Sky);
        }
    }
    // The shaft column is clear from the surface down to the shaft bottom.
    for d in 0..=MAX_ELEVATOR_DEPTH {
        assert_eq!(map.tile(ELEVATOR_SHAFT_X, SKY_HEIGHT + d), TileType::Empty);
    }
    // Everything else below the surface starts as dirt.
    for x in 1..10 {
        for y in SKY_HEIGHT..20 {
            assert_eq!(map.tile(x, y), TileType::Dirt);
        }
    }
}

#[test]
fn set_tile_writes_one_cell() {
    let mut map = WorldMap::new(10, 20);
    map.set_tile(4, 7, TileType::Ladder);
    assert_eq!(map.tile(4, 7), TileType::Ladder);
    assert_eq!(map.tile(3, 7), TileType::Dirt);
    assert_eq!(map.tile(5, 7), TileType::Dirt);
    assert_eq!(map.tile(4, 6), TileType::Dirt);
    assert_eq!(map.tile(4, 8), TileType::Dirt);
}

#[test]
fn new_player_is_parked_with_no_money() {
    let p = Player::new(5, 1);
    assert_eq!(p.x, 5);
    assert_eq!(p.y, 1);
    assert_eq!(p.target_x, 5);
    assert_eq!(p.target_y, 1);
    assert_eq!(p.money, 0);
}

#[test]
fn receive_money_accumulates() {
    let mut p = Player::new(0, 0);
    p.receive_money(20);
    p.receive_money(15);
    assert_eq!(p.money, 35);
}

#[test]
fn elevator_starts_at_top_and_advances() {
    let mut e = Elevator::new(3);
    assert_eq!(e.depth(), 0);
    assert_eq!(e.max_depth(), 3);
    e.advance();
    assert_eq!(e.depth(), 1);
    e.advance();
    assert_eq!(e.depth(), 2);
}

#[test]
fn elevator_depth_saturates_at_max_depth() {
    let mut e = Elevator::new(MAX_ELEVATOR_DEPTH);
    for _ in 0..200 {
        e.advance();
        assert!(e.depth() <= MAX_ELEVATOR_DEPTH);
    }
    assert_eq!(e.depth(), MAX_ELEVATOR_DEPTH);
    // Advancing at the bottom is a no-op, not an error.
    e.advance();
    assert_eq!(e.depth(), MAX_ELEVATOR_DEPTH);
}

#[test]
fn reveal_draw_picks_the_documented_variant() {
    // Outcome draws 0..=9 give rock; at depth 2 with a zero level draw the
    // hardness is (0 + 2) / 25 = 0.
    assert_eq!(revealed_tile(2, 0, 0), TileType::Rock { hardness: 0 });
    assert_eq!(revealed_tile(2, 9, 0), TileType::Rock { hardness: 0 });
    // A high level draw hardens the rock: (48 + 2) / 25 = 2.
    assert_eq!(revealed_tile(2, 5, 48), TileType::Rock { hardness: 2 });
    // Draws 10..=12 give treasure; (33 + 2) / 35 = 1.
    assert_eq!(revealed_tile(2, 10, 33), TileType::Treasure { value: 1 });
    assert_eq!(revealed_tile(2, 12, 0), TileType::Treasure { value: 0 });
    // Draw 20 gives water; 21 (a cave-in, which collapses to nothing) gives empty.
    assert_eq!(revealed_tile(2, 20, 0), TileType::Water);
    assert_eq!(revealed_tile(2, 21, 0), TileType::Empty);
    assert_eq!(revealed_tile(2, 49, 0), TileType::Empty);
}

#[test]
fn reveal_levels_stay_in_range_at_any_depth() {
    for depth in [0usize, 1, 2, 19, 100, 100_000] {
        for level_draw in 0..50 {
            match revealed_tile(depth, 3, level_draw) {
                TileType::Rock { hardness } => assert!(hardness <= 2),
                other => panic!("outcome draw 3 must give rock, got {:?}", other),
            }
            match revealed_tile(depth, 11, level_draw) {
                TileType::Treasure { value } => assert!(value <= 2),
                other => panic!("outcome draw 11 must give treasure, got {:?}", other),
            }
        }
    }
}

#[test]
fn reveal_frequencies_are_10_3_1_36() {
    let mut rock = 0;
    let mut treasure = 0;
    let mut water = 0;
    let mut empty = 0;
    for outcome_draw in 0..50 {
        match revealed_tile(6, outcome_draw, 17) {
            TileType::Rock { .. } => rock += 1,
            TileType::Treasure { .. } => treasure += 1,
            TileType::Water => water += 1,
            TileType::Empty => empty += 1,
            other => panic!("a reveal never yields {:?}", other),
        }
    }
    assert_eq!(rock, 10);
    assert_eq!(treasure, 3);
    assert_eq!(water, 1);
    assert_eq!(empty, 36);
}
