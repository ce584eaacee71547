//! The world grid: a fixed-size field of tiles that the player digs through.

use vstd::prelude::*;

use crate::constants::{ELEVATOR_SHAFT_X, SKY_HEIGHT};
use crate::tile::TileType;

verus! {

/// The mathematical model of the world grid: `width * height` tiles stored
/// row by row, with `(0, 0)` the top-left corner and `y` growing downward.
#[verifier::ext_equal]
pub ghost struct GridModel {
    pub width: int,
    pub height: int,
    pub tiles: Seq<TileType>,
}

/// The layout the world starts from: sky rows on top, the elevator shaft
/// column kept clear below them, dirt everywhere else under the surface.
pub open spec fn initial_tile(x: int, y: int) -> TileType {
    if y < SKY_HEIGHT as int {
        TileType::Sky
    } else if x == ELEVATOR_SHAFT_X as int {
        TileType::Empty
    } else {
        TileType::Dirt
    }
}

/// Law: the starting layout keeps the elevator shaft column passable all
/// the way down, while every other column below the surface starts solid.
pub proof fn lemma_initial_layout(x: int, y: int)
    requires
        0 <= y,
    ensures
        x == ELEVATOR_SHAFT_X as int ==> initial_tile(x, y).passable(),
        x != ELEVATOR_SHAFT_X as int && y >= SKY_HEIGHT as int ==> initial_tile(x, y)
            == TileType::Dirt,
{
}

impl GridModel {
    /// A grid is well formed when its tile sequence covers the whole
    /// rectangle and every tile's payload is in range.
    pub open spec fn wf(self) -> bool {
        &&& self.width >= 1
        &&& self.height >= 1
        &&& self.tiles.len() == self.width * self.height
        &&& forall|i: int| 0 <= i < self.tiles.len() ==> (#[trigger] self.tiles[i]).valid()
    }

    pub open spec fn in_bounds(self, x: int, y: int) -> bool {
        0 <= x < self.width && 0 <= y < self.height
    }

    pub open spec fn tile_at(self, x: int, y: int) -> TileType {
        self.tiles[y * self.width + x]
    }

    /// The grid with the tile at `(x, y)` replaced by `t`.
    pub open spec fn set_at(self, x: int, y: int, t: TileType) -> GridModel {
        GridModel { tiles: self.tiles.update(y * self.width + x, t), ..self }
    }
}

/// Row-major indices stay inside the grid: the home of the arithmetic that
/// relates `(x, y)` coordinates to positions in the tile sequence.
pub proof fn lemma_grid_index(width: int, height: int, x: int, y: int)
    requires
        0 <= x < width,
        0 <= y < height,
    ensures
        0 <= y * width + x < width * height,
{
    assert(0 <= y * width + x < width * height) by (nonlinear_arith)
        requires
            0 <= x < width,
            0 <= y < height,
    ;
}

/// The world grid, owner of the tiles.
pub struct WorldMap {
    width: usize,
    height: usize,
    tiles: Vec<TileType>,
}

impl View for WorldMap {
    type V = GridModel;

    closed spec fn view(&self) -> GridModel {
        GridModel { width: self.width as int, height: self.height as int, tiles: self.tiles@ }
    }
}

impl WorldMap {
    pub fn width(&self) -> (w: usize)
        ensures
            w == self@.width,
    {
        self.width
    }

    pub fn height(&self) -> (h: usize)
        ensures
            h == self@.height,
    {
        self.height
    }

    /// The grid's extent is machine-representable: both dimensions came
    /// from `usize` values.
    pub proof fn lemma_dimensions_fit(&self)
        ensures
            0 <= self@.width <= usize::MAX,
            0 <= self@.height <= usize::MAX,
    {
    }

    fn initial_tile_for(x: usize, y: usize) -> (t: TileType)
        ensures
            t == initial_tile(x as int, y as int),
            t.valid(),
    {
        if y < SKY_HEIGHT {
            TileType::Sky
        } else if x == ELEVATOR_SHAFT_X {
            TileType::Empty
        } else {
            TileType::Dirt
        }
    }

    /// Build the starting world: every cell holds `initial_tile`.
    pub fn new(width: usize, height: usize) -> (m: WorldMap)
        requires
            1 <= width,
            1 <= height,
            width * height <= usize::MAX,
        ensures
            m@.wf(),
            m@.width == width,
            m@.height == height,
            forall|x: int, y: int|
                m@.in_bounds(x, y) ==> #[trigger] m@.tile_at(x, y) == initial_tile(x, y),
    {
        let mut tiles: Vec<TileType> = Vec::new();
        let mut y: usize = 0;
        while y < height
            invariant
                y <= height,
                1 <= width,
                width * height <= usize::MAX,
                tiles@.len() == y * width,
                forall|i: int| 0 <= i < tiles@.len() ==> (#[trigger] tiles@[i]).valid(),
                forall|yy: int, xx: int|
                    0 <= yy < y && 0 <= xx < width ==> #[trigger] tiles@[yy * width + xx]
                        == initial_tile(xx, yy),
            decreases height - y,
        {
            let mut x: usize = 0;
            while x < width
                invariant
                    x <= width,
                    y < height,
                    1 <= width,
                    width * height <= usize::MAX,
                    tiles@.len() == y * width + x,
                    forall|i: int| 0 <= i < tiles@.len() ==> (#[trigger] tiles@[i]).valid(),
                    forall|yy: int, xx: int|
                        0 <= yy < y && 0 <= xx < width ==> #[trigger] tiles@[yy * width + xx]
                            == initial_tile(xx, yy),
                    forall|xx: int|
                        0 <= xx < x ==> #[trigger] tiles@[y * width + xx] == initial_tile(
                            xx,
                            y as int,
                        ),
                decreases width - x,
            {
                let t = Self::initial_tile_for(x, y);
                proof {
                    lemma_grid_index(width as int, height as int, x as int, y as int);
                }
                tiles.push(t);
                x = x + 1;
                proof {
                    assert forall|yy: int, xx: int|
                        0 <= yy < y && 0 <= xx < width implies #[trigger] tiles@[yy * width + xx]
                        == initial_tile(xx, yy) by {
                        assert(yy * width + xx < y * width) by (nonlinear_arith)
                            requires
                                0 <= xx < width,
                                0 <= yy < y,
                        ;
                    }
                }
            }
            y = y + 1;
            proof {
                assert(y * width == (y - 1) * width + width) by (nonlinear_arith);
                assert forall|yy: int, xx: int|
                    0 <= yy < y && 0 <= xx < width implies #[trigger] tiles@[yy * width + xx]
                    == initial_tile(xx, yy) by {
                    if yy < y - 1 {
                        assert(tiles@[yy * width + xx] == initial_tile(xx, yy));
                    } else {
                        assert(yy == y - 1);
                        assert(tiles@[(y - 1) * width + xx] == initial_tile(xx, y - 1));
                    }
                }
            }
        }
        proof {
            assert(height * width == width * height) by (nonlinear_arith);
        }
        let m = WorldMap { width, height, tiles };
        proof {
            assert forall|x: int, y2: int| m@.in_bounds(x, y2) implies #[trigger] m@.tile_at(x, y2)
                == initial_tile(x, y2) by {
                lemma_grid_index(width as int, height as int, x, y2);
            }
        }
        m
    }

    /// Read the tile at `(x, y)`; no side effects.
    pub fn tile(&self, x: usize, y: usize) -> (t: TileType)
        requires
            self@.wf(),
            self@.in_bounds(x as int, y as int),
        ensures
            t == self@.tile_at(x as int, y as int),
            t.valid(),
    {
        proof {
            assert(self.tiles.len() == self.tiles@.len());
            lemma_grid_index(self@.width, self@.height, x as int, y as int);
        }
        self.tiles[y * self.width + x]
    }

    /// Overwrite the tile at `(x, y)`; every other cell is untouched.
    pub fn set_tile(&mut self, x: usize, y: usize, t: TileType)
        requires
            old(self)@.wf(),
            old(self)@.in_bounds(x as int, y as int),
            t.valid(),
        ensures
            final(self)@ == old(self)@.set_at(x as int, y as int, t),
            final(self)@.wf(),
    {
        proof {
            assert(self.tiles.len() == self.tiles@.len());
            lemma_grid_index(self@.width, self@.height, x as int, y as int);
        }
        let i: usize = y * self.width + x;
        self.tiles[i] = t;
        proof {
            assert(self@ =~= old(self)@.set_at(x as int, y as int, t));
        }
    }
}

} // verus!
