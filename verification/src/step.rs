//! One tick of the dig/move state machine: elevator override, gravity,
//! dig resolution, the no-climb guard, and the final move.

use vstd::prelude::*;

use crate::constants::{ELEVATOR_SHAFT_X, SKY_HEIGHT, TREASURE_BASE_VALUE};
use crate::elevator::Elevator;
use crate::map::{GridModel, WorldMap};
use crate::player::{Player, PlayerModel};
use crate::procgen::{reveal_spec, revealed_tile, REVEAL_DRAWS};
use crate::rng::random_below;
use crate::tile::TileType;

verus! {

/// What a collected treasure of the given value pays.
pub open spec fn treasure_payout(value: u8) -> int {
    (1u64 << (value as u64)) * (TREASURE_BASE_VALUE as int)
}

/// The player rides the elevator when standing in the shaft column at the
/// row the elevator currently occupies (rows count from under the sky).
pub open spec fn in_elevator(p: PlayerModel, elevator_depth: int) -> bool {
    p.x == ELEVATOR_SHAFT_X as int && p.y == SKY_HEIGHT as int + elevator_depth
}

/// The cell the player tries to occupy this tick, once the elevator
/// override and gravity have had their say: riding the elevator pins the
/// row, open space underfoot (off a ladder) forces a fall one row down,
/// and otherwise the pending target stands.
pub open spec fn resolved_target(p: PlayerModel, m: GridModel, elevator_depth: int) -> (int, int) {
    if in_elevator(p, elevator_depth) {
        (p.target_x, p.y)
    } else if m.tile_at(p.x, p.y + 1) is Empty && !(m.tile_at(p.x, p.y) is Ladder) {
        (p.x, p.y + 1)
    } else {
        (p.target_x, p.target_y)
    }
}

/// What one tick requires of the world: a well-formed grid, the player and
/// the pending target inside it with a row to spare below the player (the
/// machine always inspects the tile underfoot), and an elevator depth that
/// is not negative.
pub open spec fn tick_pre(p: PlayerModel, m: GridModel, elevator_depth: int) -> bool {
    &&& m.wf()
    &&& 0 <= p.x < m.width
    &&& 0 <= p.y
    &&& p.y + 1 < m.height
    &&& 0 <= p.target_x < m.width
    &&& 0 <= p.target_y < m.height
    &&& 0 <= p.money
    &&& 0 <= elevator_depth
}

/// One tick of the state machine, as a function of the two reveal draws:
/// resolve the target, dig or collect there, keep the player from climbing
/// through open air, then commit the move if the target cell is passable.
/// Digging dirt consumes the tick — the dug cell is replaced by its reveal
/// but the player stays put; collecting a treasure pays out and moves the
/// player in the same tick.
pub open spec fn tick_spec(
    p: PlayerModel,
    m: GridModel,
    elevator_depth: int,
    outcome_draw: int,
    level_draw: int,
) -> (PlayerModel, GridModel) {
    let riding = in_elevator(p, elevator_depth);
    let (tx, ty) = resolved_target(p, m, elevator_depth);
    let dug = m.tile_at(tx, ty);
    let m1 = if dug is Dirt {
        m.set_at(tx, ty, reveal_spec(ty, outcome_draw, level_draw))
    } else if dug is Treasure {
        m.set_at(tx, ty, TileType::Empty)
    } else {
        m
    };
    let p1 = if dug is Treasure {
        PlayerModel { x: tx, y: ty, money: p.money + treasure_payout(dug->value), ..p }
    } else {
        p
    };
    let (tx1, ty1) = if dug is Dirt {
        (p1.x, p1.y)
    } else {
        (tx, ty)
    };
    let ty2 = if !riding && m1.tile_at(p1.x, p1.y) is Empty && ty1 < p1.y {
        p1.y
    } else {
        ty1
    };
    if m1.tile_at(tx1, ty2).passable() {
        (PlayerModel { x: tx1, y: ty2, target_x: tx1, target_y: ty2, money: p1.money }, m1)
    } else {
        (PlayerModel { target_x: p1.x, target_y: p1.y, ..p1 }, m1)
    }
}

/// One tick with the two reveal draws supplied by the caller; the whole
/// machine is deterministic in them.
pub fn move_player_with_draws(
    player: &mut Player,
    map: &mut WorldMap,
    elevator_depth: usize,
    outcome_draw: u64,
    level_draw: u64,
)
    requires
        tick_pre(old(player)@, old(map)@, elevator_depth as int),
        outcome_draw < REVEAL_DRAWS,
        level_draw < REVEAL_DRAWS,
        old(player)@.money + 4 * (TREASURE_BASE_VALUE as int) <= u64::MAX,
    ensures
        final(player)@ == tick_spec(
            old(player)@,
            old(map)@,
            elevator_depth as int,
            outcome_draw as int,
            level_draw as int,
        ).0,
        final(map)@ == tick_spec(
            old(player)@,
            old(map)@,
            elevator_depth as int,
            outcome_draw as int,
            level_draw as int,
        ).1,
        final(map)@.wf(),
        final(map)@.width == old(map)@.width,
        final(map)@.height == old(map)@.height,
        final(player)@.target_x == final(player)@.x,
        final(player)@.target_y == final(player)@.y,
{
    let ghost p0 = player@;
    let ghost m0 = map@;
    proof {
        map.lemma_dimensions_fit();
    }
    let riding = player.x == ELEVATOR_SHAFT_X && player.y >= SKY_HEIGHT && player.y - SKY_HEIGHT
        == elevator_depth;
    assert(riding == in_elevator(p0, elevator_depth as int));

    if riding {
        // The elevator drives vertical movement; pin the row.
        player.target_y = player.y;
    } else if map.tile(player.x, player.y + 1) == TileType::Empty && map.tile(player.x, player.y)
        != TileType::Ladder {
        // Fall down.
        player.target_x = player.x;
        player.target_y = player.y + 1;
    }
    assert((player@.target_x, player@.target_y) == resolved_target(p0, m0, elevator_depth as int));

    let tx = player.target_x;
    let ty = player.target_y;
    let mut dug_dirt = false;
    match map.tile(tx, ty) {
        TileType::Dirt => {
            let t = revealed_tile(ty, outcome_draw, level_draw);
            map.set_tile(tx, ty, t);
            dug_dirt = true;
        },
        TileType::Rock { .. } => {
            // Rock cannot be chiselled yet.
        },
        TileType::Treasure { value } => {
            // Collect the treasure and step onto the emptied cell.
            let shift: u64 = value as u64;
            assert(shift <= 2 ==> (1u64 << shift) <= 4) by (bit_vector);
            let amount: u64 = (1u64 << shift) * TREASURE_BASE_VALUE;
            player.receive_money(amount);
            map.set_tile(tx, ty, TileType::Empty);
            player.x = tx;
            player.y = ty;
        },
        _ => {},
    }
    if dug_dirt {
        // Digging consumes the action: the player stays put this tick.
        player.target_x = player.x;
        player.target_y = player.y;
    }

    // You can't climb up in thin air.
    if !riding && map.tile(player.x, player.y) == TileType::Empty && player.target_y < player.y {
        player.target_y = player.y;
    }

    // Move towards the target, if possible.
    match map.tile(player.target_x, player.target_y) {
        TileType::Empty | TileType::Ladder | TileType::Sky => {
            // Allow the move.
            player.x = player.target_x;
            player.y = player.target_y;
        },
        _ => {
            // If we haven't moved there yet, we aren't going to.
            player.target_x = player.x;
            player.target_y = player.y;
        },
    }

    proof {
        let r = tick_spec(p0, m0, elevator_depth as int, outcome_draw as int, level_draw as int);
        assert(player@ =~= r.0);
        assert(map@ =~= r.1);
    }
}

/// Law: digging a dirt tile never moves the player in the tick it is
/// revealed, whatever the draws turn the cell into — the reveal replaces
/// the cell and the dig consumes the action; money is untouched too.
pub proof fn lemma_dig_dirt_blocks_move(
    p: PlayerModel,
    m: GridModel,
    elevator_depth: int,
    outcome_draw: int,
    level_draw: int,
)
    requires
        tick_pre(p, m, elevator_depth),
        m.tile_at(
            resolved_target(p, m, elevator_depth).0,
            resolved_target(p, m, elevator_depth).1,
        ) is Dirt,
    ensures
        tick_spec(p, m, elevator_depth, outcome_draw, level_draw).0.x == p.x,
        tick_spec(p, m, elevator_depth, outcome_draw, level_draw).0.y == p.y,
        tick_spec(p, m, elevator_depth, outcome_draw, level_draw).0.money == p.money,
        tick_spec(p, m, elevator_depth, outcome_draw, level_draw).1.tile_at(
            resolved_target(p, m, elevator_depth).0,
            resolved_target(p, m, elevator_depth).1,
        ) == reveal_spec(resolved_target(p, m, elevator_depth).1, outcome_draw, level_draw),
{
    let (tx, ty) = resolved_target(p, m, elevator_depth);
    crate::map::lemma_grid_index(m.width, m.height, tx, ty);
}

/// Law: collecting a treasure pays `(1 << value) * TREASURE_BASE_VALUE`,
/// empties the cell, and moves the player onto it in the same tick.
pub proof fn lemma_collect_treasure(
    p: PlayerModel,
    m: GridModel,
    elevator_depth: int,
    outcome_draw: int,
    level_draw: int,
)
    requires
        tick_pre(p, m, elevator_depth),
        m.tile_at(
            resolved_target(p, m, elevator_depth).0,
            resolved_target(p, m, elevator_depth).1,
        ) is Treasure,
    ensures
        tick_spec(p, m, elevator_depth, outcome_draw, level_draw).0.x == resolved_target(
            p,
            m,
            elevator_depth,
        ).0,
        tick_spec(p, m, elevator_depth, outcome_draw, level_draw).0.y == resolved_target(
            p,
            m,
            elevator_depth,
        ).1,
        tick_spec(p, m, elevator_depth, outcome_draw, level_draw).0.money == p.money
            + treasure_payout(
            m.tile_at(
                resolved_target(p, m, elevator_depth).0,
                resolved_target(p, m, elevator_depth).1,
            )->value,
        ),
        tick_spec(p, m, elevator_depth, outcome_draw, level_draw).1.tile_at(
            resolved_target(p, m, elevator_depth).0,
            resolved_target(p, m, elevator_depth).1,
        ) is Empty,
{
    let (tx, ty) = resolved_target(p, m, elevator_depth);
    crate::map::lemma_grid_index(m.width, m.height, tx, ty);
}

/// Law: a player standing in open space with open space underfoot and no
/// ladder falls one row, overriding whatever target was pending — as long
/// as the elevator is not carrying the player, which takes priority.
pub proof fn lemma_gravity_overrides_target(
    p: PlayerModel,
    m: GridModel,
    elevator_depth: int,
    outcome_draw: int,
    level_draw: int,
)
    requires
        tick_pre(p, m, elevator_depth),
        !in_elevator(p, elevator_depth),
        m.tile_at(p.x, p.y + 1) is Empty,
        m.tile_at(p.x, p.y) is Empty,
    ensures
        tick_spec(p, m, elevator_depth, outcome_draw, level_draw).0.x == p.x,
        tick_spec(p, m, elevator_depth, outcome_draw, level_draw).0.y == p.y + 1,
{
}

/// Law: a player riding the elevator never moves vertically within a tick;
/// only the elevator's own advance changes the row.
pub proof fn lemma_elevator_pins_row(
    p: PlayerModel,
    m: GridModel,
    elevator_depth: int,
    outcome_draw: int,
    level_draw: int,
)
    requires
        tick_pre(p, m, elevator_depth),
        in_elevator(p, elevator_depth),
    ensures
        tick_spec(p, m, elevator_depth, outcome_draw, level_draw).0.y == p.y,
{
}

/// One simulation tick against the live random source: resolve the
/// player's pending move against the map and the elevator. The outcome is
/// exactly one tick of the state machine for some pair of reveal draws.
pub fn move_player(player: &mut Player, map: &mut WorldMap, elevator: &Elevator)
    requires
        tick_pre(old(player)@, old(map)@, elevator.spec_depth()),
        old(player)@.money + 4 * (TREASURE_BASE_VALUE as int) <= u64::MAX,
    ensures
        exists|outcome_draw: int, level_draw: int|
            0 <= outcome_draw < REVEAL_DRAWS && 0 <= level_draw < REVEAL_DRAWS && final(player)@
                == (#[trigger] tick_spec(
                old(player)@,
                old(map)@,
                elevator.spec_depth(),
                outcome_draw,
                level_draw,
            )).0 && final(map)@ == tick_spec(
                old(player)@,
                old(map)@,
                elevator.spec_depth(),
                outcome_draw,
                level_draw,
            ).1,
        final(map)@.wf(),
        final(map)@.width == old(map)@.width,
        final(map)@.height == old(map)@.height,
        final(player)@.target_x == final(player)@.x,
        final(player)@.target_y == final(player)@.y,
{
    let outcome_draw = random_below(REVEAL_DRAWS);
    let level_draw = random_below(REVEAL_DRAWS);
    let depth = elevator.depth();
    move_player_with_draws(player, map, depth, outcome_draw, level_draw);
    proof {
        assert((outcome_draw as int) < REVEAL_DRAWS && (level_draw as int) < REVEAL_DRAWS
            && player@ == tick_spec(
            old(player)@,
            old(map)@,
            elevator.spec_depth(),
            outcome_draw as int,
            level_draw as int,
        ).0 && map@ == tick_spec(
            old(player)@,
            old(map)@,
            elevator.spec_depth(),
            outcome_draw as int,
            level_draw as int,
        ).1);
    }
}

} // verus!
