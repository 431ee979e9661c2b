//! The floor that the tank drives on: a square grid of tiles about the origin.

use crate::math::Vec3;
use vstd::prelude::*;

verus! {

/// The length of a tile's side, in thousandths.
pub const TILE_SIZE: i64 = 40_000;

/// How many tiles the floor reaches from the origin in each direction.
pub const REACH: i64 = 20;

/// How many tiles lie in one row of the floor.
pub const ROW: usize = 41;

/// Where the tile lies that is `i` tiles along `x` and `j` tiles along `z` from
/// the origin.
pub open spec fn tile(i: int, j: int) -> Vec3 {
    Vec3 { x: (TILE_SIZE * i) as i64, y: 0, z: (TILE_SIZE * j) as i64 }
}

/// The tiles of the floor, row by row: `REACH` tiles to each side of the
/// origin, along `x` and along `z`.
pub open spec fn floor() -> Seq<Vec3> {
    Seq::new((ROW * ROW) as nat, |k: int| tile(k / (ROW as int) - REACH, k % (ROW as int) - REACH))
}

/// Lays the floor: the place of every tile.
pub fn spawn_floor() -> (tiles: Vec<Vec3>)
    ensures
        tiles@ == floor(),
{
    let mut tiles: Vec<Vec3> = Vec::new();
    let mut i: i64 = -REACH;
    while i <= REACH
        invariant
            -REACH <= i <= REACH + 1,
            tiles@.len() == (i + REACH) * ROW,
            forall|k: int|
                0 <= k < tiles@.len() ==> #[trigger] tiles@[k] == tile(
                    k / (ROW as int) - REACH,
                    k % (ROW as int) - REACH,
                ),
        decreases REACH + 1 - i,
    {
        let mut j: i64 = -REACH;
        while j <= REACH
            invariant
                -REACH <= i <= REACH,
                -REACH <= j <= REACH + 1,
                tiles@.len() == (i + REACH) * ROW + (j + REACH),
                forall|k: int|
                    0 <= k < tiles@.len() ==> #[trigger] tiles@[k] == tile(
                        k / (ROW as int) - REACH,
                        k % (ROW as int) - REACH,
                    ),
            decreases REACH + 1 - j,
        {
            tiles.push(Vec3 { x: TILE_SIZE * i, y: 0, z: TILE_SIZE * j });
            j += 1;
        }
        i += 1;
    }
    assert(tiles@ =~= floor());
    tiles
}

} // verus!
