//! Plain shapes of the world: tiles, the base layer, the deposit layer and a
//! participant's state, with the geometry they share.
use vstd::prelude::*;

verus! {

/// Width and height of the square world.
pub const GRID_SIZE: u8 = 10;

/// Number of tiles in the world (`GRID_SIZE * GRID_SIZE`).
pub const TILE_COUNT: usize = 100;

/// Flat index of the spawn tile (0, 0).
pub const SPAWN_INDEX: usize = 0;

/// What lies on a tile of the base layer; also what an extraction reports.
#[derive(Clone, Copy, Debug, PartialEq, Eq, Structural)]
pub enum TileKind {
    Empty,
    Resource,
    Hazard,
}

/// One tile of the base layer.
#[derive(Clone, Copy, Debug, PartialEq, Eq, Structural)]
pub struct MapTile {
    pub tile_type: TileKind,
    /// Resource amount or hazard damage; zero on an empty tile.
    pub value: u16,
}

/// The base layer: `TILE_COUNT` tiles, row by row.
#[derive(Clone, Copy, Debug)]
pub struct MapMatrix {
    pub tiles: [MapTile; 100],
}

/// The deposit layer: the total amount hidden at each flat tile index.
/// It holds amounts only, never who deposited them.
#[derive(Clone, Copy, Debug)]
pub struct BuriedLayer {
    pub loot: [u16; 100],
}

/// A participant's private state.
#[derive(Clone, Copy, Debug, PartialEq, Eq, Structural)]
pub struct PlayerState {
    pub x: u8,
    pub y: u8,
    pub gold: u16,
    pub health: u16,
}

/// `|a - b|` on integers.
pub open spec fn dist(a: int, b: int) -> int {
    if a >= b { a - b } else { b - a }
}

/// Chebyshev distance between two points.
pub open spec fn chebyshev(px: int, py: int, tx: int, ty: int) -> int {
    if dist(px, tx) >= dist(py, ty) { dist(px, tx) } else { dist(py, ty) }
}

/// The target is one of the eight tiles around the position.
pub open spec fn adjacent(px: int, py: int, tx: int, ty: int) -> bool {
    chebyshev(px, py, tx, ty) == 1
}

/// Both coordinates lie on the grid.
pub open spec fn in_bounds(x: int, y: int) -> bool {
    0 <= x < GRID_SIZE as int && 0 <= y < GRID_SIZE as int
}

/// Flat index of a tile, row by row.
pub open spec fn index_of(x: int, y: int) -> int {
    y * GRID_SIZE as int + x
}

/// Two tiles are adjacent exactly when the larger of the coordinate
/// distances is one.
pub proof fn lemma_adjacent_iff_chebyshev_one(px: int, py: int, tx: int, ty: int)
    ensures
        adjacent(px, py, tx, ty) <==> {
            let dx = if px >= tx { px - tx } else { tx - px };
            let dy = if py >= ty { py - ty } else { ty - py };
            (if dx >= dy { dx } else { dy }) == 1
        },
{
}

/// Absolute difference of two bytes.
pub fn abs_diff(a: u8, b: u8) -> (r: u8)
    ensures
        r as int == dist(a as int, b as int),
{
    if a > b { a - b } else { b - a }
}

/// Whether `(tx, ty)` is one of the eight neighbours of `(px, py)`.
pub fn is_adjacent(px: u8, py: u8, tx: u8, ty: u8) -> (r: bool)
    ensures
        r == adjacent(px as int, py as int, tx as int, ty as int),
{
    let dx = abs_diff(px, tx);
    let dy = abs_diff(py, ty);
    dx <= 1 && dy <= 1 && !(dx == 0 && dy == 0)
}

/// Flat index of an on-grid tile.
pub fn tile_index(x: u8, y: u8) -> (r: usize)
    requires
        in_bounds(x as int, y as int),
    ensures
        r as int == index_of(x as int, y as int),
        r < TILE_COUNT,
{
    (y as usize) * 10 + (x as usize)
}

} // verus!
