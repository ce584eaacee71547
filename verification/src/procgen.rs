//! Procedural tile reveal: what a dug dirt tile turns into.
//!
//! A reveal draws two numbers below [`REVEAL_DRAWS`]: the outcome draw picks
//! the variant, the level draw (together with the depth of the dug cell)
//! sets a rock's hardness or a treasure's value.

use vstd::prelude::*;
use vstd::set_lib::set_int_range;
use vstd::set_lib::lemma_int_range;
use vstd::arithmetic::div_mod::lemma_div_is_ordered;
use vstd::arithmetic::div_mod::lemma_div_multiples_vanish;
use vstd::arithmetic::div_mod::lemma_div_pos_is_pos;

use crate::tile::{TileType, MAX_TILE_LEVEL};

verus! {

/// Each reveal draw is uniform over `0..REVEAL_DRAWS`.
pub const REVEAL_DRAWS: u64 = 50;

/// Divisor turning `level_draw + depth` into rock hardness.
pub const ROCK_HARDNESS_DIVISOR: u64 = 25;

/// Divisor turning `level_draw + depth` into treasure value; coarser than
/// the rock divisor, so high-value treasure is rarer than hard rock.
pub const TREASURE_VALUE_DIVISOR: u64 = 35;

/// `(level_draw + depth) / divisor`, clamped into `0..=MAX_TILE_LEVEL`.
pub open spec fn capped_level(depth: int, level_draw: int, divisor: int) -> u8 {
    if (level_draw + depth) / divisor >= MAX_TILE_LEVEL as int {
        MAX_TILE_LEVEL
    } else {
        ((level_draw + depth) / divisor) as u8
    }
}

/// The tile a dirt cell at `depth` reveals for the given draws. Out of the
/// 50 outcome draws, 0 through 9 yield rock, 10 through 12 treasure, 20
/// water; the rest, draw 21 (a cave-in, which collapses to nothing)
/// among them, yield empty space.
pub open spec fn reveal_spec(depth: int, outcome_draw: int, level_draw: int) -> TileType {
    if 0 <= outcome_draw <= 9 {
        TileType::Rock { hardness: capped_level(depth, level_draw, ROCK_HARDNESS_DIVISOR as int) }
    } else if 10 <= outcome_draw <= 12 {
        TileType::Treasure { value: capped_level(depth, level_draw, TREASURE_VALUE_DIVISOR as int) }
    } else if outcome_draw == 20 {
        TileType::Water
    } else {
        TileType::Empty
    }
}

fn capped_level_exec(depth: usize, level_draw: u64, divisor: u64) -> (r: u8)
    requires
        1 <= divisor <= 1000,
        level_draw < REVEAL_DRAWS,
    ensures
        r == capped_level(depth as int, level_draw as int, divisor as int),
        r <= MAX_TILE_LEVEL,
{
    let sum_bound: u64 = (MAX_TILE_LEVEL as u64) * divisor;
    if depth as u64 >= sum_bound {
        proof {
            let s = level_draw + depth;
            assert(s >= MAX_TILE_LEVEL * divisor);
            lemma_div_is_ordered(MAX_TILE_LEVEL * divisor, s, divisor as int);
            lemma_div_multiples_vanish(MAX_TILE_LEVEL as int, divisor as int);
        }
        MAX_TILE_LEVEL
    } else {
        let sum: u64 = level_draw + (depth as u64);
        let level: u64 = sum / divisor;
        proof {
            lemma_div_pos_is_pos(sum as int, divisor as int);
        }
        if level >= MAX_TILE_LEVEL as u64 {
            MAX_TILE_LEVEL
        } else {
            level as u8
        }
    }
}

/// The revealed replacement for a dirt tile dug at `depth`.
pub fn revealed_tile(depth: usize, outcome_draw: u64, level_draw: u64) -> (t: TileType)
    requires
        outcome_draw < REVEAL_DRAWS,
        level_draw < REVEAL_DRAWS,
    ensures
        t == reveal_spec(depth as int, outcome_draw as int, level_draw as int),
        t.valid(),
{
    if outcome_draw <= 9 {
        TileType::Rock { hardness: capped_level_exec(depth, level_draw, ROCK_HARDNESS_DIVISOR) }
    } else if outcome_draw <= 12 {
        TileType::Treasure { value: capped_level_exec(depth, level_draw, TREASURE_VALUE_DIVISOR) }
    } else if outcome_draw == 20 {
        TileType::Water
    } else {
        TileType::Empty
    }
}

/// Law: revealing dirt never leaves dirt (nor sky or a ladder) behind —
/// every draw yields rock, treasure, water or empty space — and the payload
/// of what it yields is in range for any depth.
pub proof fn lemma_reveal_outcomes(depth: int, outcome_draw: int, level_draw: int)
    requires
        depth >= 0,
        level_draw >= 0,
    ensures
        !(reveal_spec(depth, outcome_draw, level_draw) is Dirt),
        reveal_spec(depth, outcome_draw, level_draw) is Rock || reveal_spec(
            depth,
            outcome_draw,
            level_draw,
        ) is Treasure || reveal_spec(depth, outcome_draw, level_draw) is Water || reveal_spec(
            depth,
            outcome_draw,
            level_draw,
        ) is Empty,
        reveal_spec(depth, outcome_draw, level_draw).valid(),
{
    lemma_capped_level_in_range(depth, level_draw, ROCK_HARDNESS_DIVISOR as int);
    lemma_capped_level_in_range(depth, level_draw, TREASURE_VALUE_DIVISOR as int);
}

/// Law: a clamped level is a small integer for any nonnegative depth.
pub proof fn lemma_capped_level_in_range(depth: int, level_draw: int, divisor: int)
    requires
        depth >= 0,
        level_draw >= 0,
        divisor >= 1,
    ensures
        0 <= capped_level(depth, level_draw, divisor) <= MAX_TILE_LEVEL,
{
    lemma_div_pos_is_pos(level_draw + depth, divisor);
}

/// Law: the reveal distribution is exact. For every depth and level draw,
/// an outcome draw yields rock exactly on 0 through 9, treasure exactly on
/// 10 through 12, water exactly on 20, and empty space on the remaining 36
/// draws — so of 50 equally likely draws, 10 give rock, 3 treasure, 1
/// water and 36 empty.
pub proof fn lemma_reveal_distribution(depth: int, level_draw: int)
    ensures
        forall|d: int|
            0 <= d < REVEAL_DRAWS ==> ((#[trigger] reveal_spec(depth, d, level_draw)) is Rock <==> (
            0 <= d <= 9)),
        forall|d: int|
            0 <= d < REVEAL_DRAWS ==> ((#[trigger] reveal_spec(depth, d, level_draw)) is Treasure
                <==> (10 <= d <= 12)),
        forall|d: int|
            0 <= d < REVEAL_DRAWS ==> ((#[trigger] reveal_spec(depth, d, level_draw)) is Water <==> d
                == 20),
        forall|d: int|
            0 <= d < REVEAL_DRAWS ==> ((#[trigger] reveal_spec(depth, d, level_draw)) is Empty <==> (
            13 <= d <= 19 || 21 <= d <= 49)),
{
}

/// The outcome draws that yield rock.
pub open spec fn rock_draws(depth: int, level_draw: int) -> Set<int> {
    Set::new(|d: int| 0 <= d < REVEAL_DRAWS && reveal_spec(depth, d, level_draw) is Rock)
}

/// The outcome draws that yield treasure.
pub open spec fn treasure_draws(depth: int, level_draw: int) -> Set<int> {
    Set::new(|d: int| 0 <= d < REVEAL_DRAWS && reveal_spec(depth, d, level_draw) is Treasure)
}

/// The outcome draws that yield water.
pub open spec fn water_draws(depth: int, level_draw: int) -> Set<int> {
    Set::new(|d: int| 0 <= d < REVEAL_DRAWS && reveal_spec(depth, d, level_draw) is Water)
}

/// The outcome draws that yield empty space.
pub open spec fn empty_draws(depth: int, level_draw: int) -> Set<int> {
    Set::new(|d: int| 0 <= d < REVEAL_DRAWS && reveal_spec(depth, d, level_draw) is Empty)
}

/// Law: counted over the 50 equally likely outcome draws, 10 yield rock,
/// 3 treasure, 1 water and 36 empty space, at every depth — so a uniform
/// draw reveals rock with probability 20%, treasure 6%, water 2% and empty
/// space 72%.
pub proof fn lemma_reveal_frequencies(depth: int, level_draw: int)
    ensures
        rock_draws(depth, level_draw).len() == 10,
        treasure_draws(depth, level_draw).len() == 3,
        water_draws(depth, level_draw).len() == 1,
        empty_draws(depth, level_draw).len() == 36,
{
    assert(rock_draws(depth, level_draw) =~= set_int_range(0, 10));
    lemma_int_range(0, 10);
    assert(treasure_draws(depth, level_draw) =~= set_int_range(10, 13));
    lemma_int_range(10, 13);
    assert(water_draws(depth, level_draw) =~= set_int_range(20, 21));
    lemma_int_range(20, 21);
    assert(empty_draws(depth, level_draw) =~= set_int_range(13, 50).remove(20));
    lemma_int_range(13, 50);
    assert(set_int_range(13, 50).contains(20));
}

} // verus!
