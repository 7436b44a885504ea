//! The transition rules on opened values. Each returns `None` when the
//! computation aborts: a violated invariant leaves no result and no new state.
//! An arithmetic overflow of a 16-bit amount aborts in the same way.
use vstd::prelude::*;
use crate::grid::{
    BuriedLayer, MapMatrix, MapTile, PlayerState, TileKind, adjacent, in_bounds, index_of,
    is_adjacent, tile_index,
};

verus! {

/// Target of a move.
#[derive(Clone, Copy, Debug, PartialEq, Eq, Structural)]
pub struct MoveInput {
    pub target_x: u8,
    pub target_y: u8,
}

/// Target of an inspection.
#[derive(Clone, Copy, Debug, PartialEq, Eq, Structural)]
pub struct ExploreInput {
    pub target_x: u8,
    pub target_y: u8,
}

/// Target and amount of a deposit.
#[derive(Clone, Copy, Debug, PartialEq, Eq, Structural)]
pub struct BuryInput {
    pub target_x: u8,
    pub target_y: u8,
    pub amount: u16,
}

/// Target of an extraction.
#[derive(Clone, Copy, Debug, PartialEq, Eq, Structural)]
pub struct DigInput {
    pub target_x: u8,
    pub target_y: u8,
}

/// What an inspection shows the caller.
#[derive(Clone, Copy, Debug, PartialEq, Eq, Structural)]
pub struct ExploreResult {
    pub tile_type: TileKind,
    pub value: u16,
}

/// The merged outcome of an extraction.
#[derive(Clone, Copy, Debug, PartialEq, Eq, Structural)]
pub struct DigResult {
    /// `Resource` when anything was gained, else `Hazard` or `Empty` from the base tile.
    pub found_type: TileKind,
    /// Deposit and base resource together.
    pub total_value: u16,
    /// Hazard damage of the base tile, before flooring vitality at zero.
    pub health_lost: u16,
}

/// Where a successful move left the participant.
#[derive(Clone, Copy, Debug, PartialEq, Eq, Structural)]
pub struct MoveResult {
    pub new_x: u8,
    pub new_y: u8,
}

/// Outcome of a successful deposit.
#[derive(Clone, Copy, Debug, PartialEq, Eq, Structural)]
pub struct BuryResult {
    pub success: bool,
    pub new_gold: u16,
}

/// The target may be acted on from the participant's position.
pub open spec fn reachable(p: PlayerState, tx: int, ty: int) -> bool {
    in_bounds(tx, ty) && adjacent(p.x as int, p.y as int, tx, ty)
}

/// Vitality after a hazard of the given damage, floored at zero.
pub open spec fn hurt(health: int, damage: int) -> int {
    if health > damage { health - damage } else { 0 }
}

/// Resource gained from a base tile.
pub open spec fn tile_gain(t: MapTile) -> int {
    if t.tile_type == TileKind::Resource { t.value as int } else { 0 }
}

/// Vitality lost to a base tile, as reported.
pub open spec fn tile_damage(t: MapTile) -> int {
    if t.tile_type == TileKind::Hazard { t.value as int } else { 0 }
}

/// The state after an inspection or extraction meets a base tile.
pub open spec fn health_after(p: PlayerState, t: MapTile) -> int {
    if t.tile_type == TileKind::Hazard { hurt(p.health as int, t.value as int) } else { p.health as int }
}

/// Kind reported by an extraction that found `buried` in the deposit slot and `t` beneath.
pub open spec fn dig_kind(buried: int, t: MapTile) -> TileKind {
    if buried > 0 || t.tile_type == TileKind::Resource {
        TileKind::Resource
    } else if t.tile_type == TileKind::Hazard {
        TileKind::Hazard
    } else {
        TileKind::Empty
    }
}

/// A move to the input's target may go ahead.
pub open spec fn move_allowed(p: PlayerState, i: MoveInput) -> bool {
    reachable(p, i.target_x as int, i.target_y as int)
}

/// What a successful move returns and leaves.
pub open spec fn move_effect(p: PlayerState, i: MoveInput, res: MoveResult, q: PlayerState) -> bool {
    &&& res == MoveResult { new_x: i.target_x, new_y: i.target_y }
    &&& q == PlayerState { x: i.target_x, y: i.target_y, ..p }
}

/// Base tile at the input's target.
pub open spec fn target_tile(tiles: Seq<MapTile>, tx: u8, ty: u8) -> MapTile {
    tiles[index_of(tx as int, ty as int)]
}

/// An inspection of the input's target may go ahead.
pub open spec fn explore_allowed(p: PlayerState, tiles: Seq<MapTile>, i: ExploreInput) -> bool {
    &&& reachable(p, i.target_x as int, i.target_y as int)
    &&& p.gold as int + tile_gain(target_tile(tiles, i.target_x, i.target_y)) <= u16::MAX
}

/// What a successful inspection returns and leaves.
pub open spec fn explore_effect(p: PlayerState, tiles: Seq<MapTile>, i: ExploreInput, res: ExploreResult, q: PlayerState) -> bool {
    let t = target_tile(tiles, i.target_x, i.target_y);
    &&& res == ExploreResult { tile_type: t.tile_type, value: t.value }
    &&& q.x == p.x && q.y == p.y
    &&& q.gold as int == p.gold as int + tile_gain(t)
    &&& q.health as int == health_after(p, t)
}

/// A deposit of the input's amount at its target may go ahead.
pub open spec fn bury_allowed(p: PlayerState, loot: Seq<u16>, i: BuryInput) -> bool {
    &&& i.amount > 0
    &&& p.gold >= i.amount
    &&& reachable(p, i.target_x as int, i.target_y as int)
    &&& loot[index_of(i.target_x as int, i.target_y as int)] + i.amount <= u16::MAX
}

/// What a successful deposit returns and leaves. The new layer depends on
/// the target and the amount alone.
pub open spec fn bury_effect(p: PlayerState, loot: Seq<u16>, i: BuryInput, res: BuryResult, q: PlayerState, after: Seq<u16>) -> bool {
    &&& res == BuryResult { success: true, new_gold: q.gold }
    &&& q == PlayerState { gold: (p.gold - i.amount) as u16, ..p }
    &&& after == deposit(loot, index_of(i.target_x as int, i.target_y as int), i.amount as int)
}

/// The deposit layer with `amount` added at `idx`.
pub open spec fn deposit(loot: Seq<u16>, idx: int, amount: int) -> Seq<u16> {
    loot.update(idx, (loot[idx] + amount) as u16)
}

/// Total that an extraction at the input's target yields.
pub open spec fn dig_total(tiles: Seq<MapTile>, loot: Seq<u16>, i: DigInput) -> int {
    loot[index_of(i.target_x as int, i.target_y as int)] as int + tile_gain(target_tile(tiles, i.target_x, i.target_y))
}

/// An extraction at the input's target may go ahead.
pub open spec fn dig_allowed(p: PlayerState, tiles: Seq<MapTile>, loot: Seq<u16>, i: DigInput) -> bool {
    &&& reachable(p, i.target_x as int, i.target_y as int)
    &&& dig_total(tiles, loot, i) <= u16::MAX
    &&& p.gold as int + dig_total(tiles, loot, i) <= u16::MAX
}

/// What a successful extraction returns and leaves.
pub open spec fn dig_effect(
    p: PlayerState,
    tiles: Seq<MapTile>,
    loot: Seq<u16>,
    i: DigInput,
    res: DigResult,
    q: PlayerState,
    after: Seq<u16>,
) -> bool {
    let idx = index_of(i.target_x as int, i.target_y as int);
    let t = tiles[idx];
    &&& res.found_type == dig_kind(loot[idx] as int, t)
    &&& res.total_value as int == dig_total(tiles, loot, i)
    &&& res.health_lost as int == tile_damage(t)
    &&& q.x == p.x && q.y == p.y
    &&& q.gold as int == p.gold as int + dig_total(tiles, loot, i)
    &&& q.health as int == health_after(p, t)
    &&& after == loot.update(idx, 0)
}

/// Moves the participant to an adjacent on-grid tile.
pub fn step_move(p: PlayerState, i: MoveInput) -> (r: Option<(MoveResult, PlayerState)>)
    ensures
        r is Some <==> move_allowed(p, i),
        r matches Some((res, q)) ==> move_effect(p, i, res, q),
{
    if !is_adjacent(p.x, p.y, i.target_x, i.target_y) {
        return None;
    }
    if !(i.target_x < 10 && i.target_y < 10) {
        return None;
    }
    let q = PlayerState { x: i.target_x, y: i.target_y, ..p };
    Some((MoveResult { new_x: q.x, new_y: q.y }, q))
}

/// Inspects an adjacent tile of the base layer and applies its effect.
pub fn step_explore(p: PlayerState, m: &MapMatrix, i: ExploreInput) -> (r: Option<(ExploreResult, PlayerState)>)
    ensures
        r is Some <==> explore_allowed(p, m.tiles@, i),
        r matches Some((res, q)) ==> explore_effect(p, m.tiles@, i, res, q),
{
    if !is_adjacent(p.x, p.y, i.target_x, i.target_y) {
        return None;
    }
    if !(i.target_x < 10 && i.target_y < 10) {
        return None;
    }
    let idx = tile_index(i.target_x, i.target_y);
    let tile = m.tiles[idx];
    let mut q = p;
    if tile.tile_type == TileKind::Resource {
        match q.gold.checked_add(tile.value) {
            Some(g) => q.gold = g,
            None => return None,
        }
    } else if tile.tile_type == TileKind::Hazard {
        if q.health > tile.value {
            q.health = q.health - tile.value;
        } else {
            q.health = 0;
        }
    }
    Some((ExploreResult { tile_type: tile.tile_type, value: tile.value }, q))
}

/// Deposits part of the participant's resource on an adjacent tile.
pub fn step_bury(p: PlayerState, b: BuriedLayer, i: BuryInput) -> (r: Option<(BuryResult, PlayerState, BuriedLayer)>)
    ensures
        r is Some <==> bury_allowed(p, b.loot@, i),
        r matches Some((res, q, c)) ==> bury_effect(p, b.loot@, i, res, q, c.loot@),
{
    if !(p.gold >= i.amount) || !(i.amount > 0) || !(i.target_x < 10 && i.target_y < 10) {
        return None;
    }
    if !is_adjacent(p.x, p.y, i.target_x, i.target_y) {
        return None;
    }
    let idx = tile_index(i.target_x, i.target_y);
    let mut c = b;
    match c.loot[idx].checked_add(i.amount) {
        Some(v) => c.loot[idx] = v,
        None => return None,
    }
    let q = PlayerState { gold: p.gold - i.amount, ..p };
    assert(c.loot@ =~= deposit(b.loot@, idx as int, i.amount as int));
    Some((BuryResult { success: true, new_gold: q.gold }, q, c))
}

/// Digs at an adjacent tile: empties its deposit slot and meets the base tile,
/// reporting only the merged outcome.
pub fn step_dig(p: PlayerState, m: &MapMatrix, b: BuriedLayer, i: DigInput) -> (r: Option<(DigResult, PlayerState, BuriedLayer)>)
    ensures
        r is Some <==> dig_allowed(p, m.tiles@, b.loot@, i),
        r matches Some((res, q, c)) ==> dig_effect(p, m.tiles@, b.loot@, i, res, q, c.loot@),
{
    if !is_adjacent(p.x, p.y, i.target_x, i.target_y) {
        return None;
    }
    if !(i.target_x < 10 && i.target_y < 10) {
        return None;
    }
    let idx = tile_index(i.target_x, i.target_y);
    let base_tile = m.tiles[idx];
    let buried_amount = b.loot[idx];
    let mut c = b;
    let mut q = p;

    let mut total_value: u16 = 0;
    let mut health_lost: u16 = 0;
    let mut found_type = TileKind::Empty;

    if buried_amount > 0 {
        total_value = buried_amount;
        c.loot[idx] = 0;
        found_type = TileKind::Resource;
    }
    if base_tile.tile_type == TileKind::Resource {
        match total_value.checked_add(base_tile.value) {
            Some(v) => total_value = v,
            None => return None,
        }
        found_type = TileKind::Resource;
    } else if base_tile.tile_type == TileKind::Hazard {
        health_lost = base_tile.value;
        if q.health > base_tile.value {
            q.health = q.health - base_tile.value;
        } else {
            q.health = 0;
        }
        if found_type == TileKind::Empty {
            found_type = TileKind::Hazard;
        }
    }
    match q.gold.checked_add(total_value) {
        Some(g) => q.gold = g,
        None => return None,
    }
    assert(c.loot@ =~= b.loot@.update(idx as int, 0));
    Some((DigResult { found_type, total_value, health_lost }, q, c))
}

/// After a successful extraction, an immediate second one at the same tile by
/// the same participant finds the deposit slot empty: it yields the base
/// tile's resource alone, reports a hazard or nothing unless the base tile is
/// a resource, and leaves the layer as it was. It goes ahead exactly when the
/// participant's resource can take the base tile's yield.
pub proof fn lemma_dig_twice(
    p: PlayerState,
    tiles: Seq<MapTile>,
    loot: Seq<u16>,
    i: DigInput,
    res: DigResult,
    q: PlayerState,
    after: Seq<u16>,
    res2: DigResult,
    q2: PlayerState,
    after2: Seq<u16>,
)
    requires
        tiles.len() == 100,
        loot.len() == 100,
        dig_allowed(p, tiles, loot, i),
        dig_effect(p, tiles, loot, i, res, q, after),
    ensures
        ({
            let idx = index_of(i.target_x as int, i.target_y as int);
            let t = tiles[idx];
            &&& after[idx] == 0
            &&& dig_allowed(q, tiles, after, i) <==> q.gold as int + tile_gain(t) <= u16::MAX
            &&& dig_effect(q, tiles, after, i, res2, q2, after2) ==> {
                &&& res2.total_value as int == tile_gain(t)
                &&& t.tile_type != TileKind::Resource ==> (res2.found_type == TileKind::Hazard
                    || res2.found_type == TileKind::Empty)
                &&& after2 == after
            }
        }),
{
    let idx = index_of(i.target_x as int, i.target_y as int);
    assert(after.update(idx, 0) =~= after);
}

/// Two participants making the same deposit on the same layer leave the same
/// layer: nothing in it depends on who deposited.
pub proof fn lemma_deposit_ignores_depositor(
    p1: PlayerState,
    p2: PlayerState,
    loot: Seq<u16>,
    i: BuryInput,
    res1: BuryResult,
    q1: PlayerState,
    after1: Seq<u16>,
    res2: BuryResult,
    q2: PlayerState,
    after2: Seq<u16>,
)
    requires
        bury_effect(p1, loot, i, res1, q1, after1),
        bury_effect(p2, loot, i, res2, q2, after2),
    ensures
        after1 == after2,
{
}

/// Sum of the amounts that `ds` deposits at `idx`.
pub open spec fn total_at(ds: Seq<(int, int)>, idx: int) -> int
    decreases ds.len(),
{
    if ds.len() == 0 {
        0
    } else {
        total_at(ds.drop_last(), idx) + if ds.last().0 == idx { ds.last().1 } else { 0 }
    }
}

/// The layer after the deposits `ds`, each a tile index and an amount, in order.
pub open spec fn apply_deposits(loot: Seq<u16>, ds: Seq<(int, int)>) -> Seq<u16>
    decreases ds.len(),
{
    if ds.len() == 0 {
        loot
    } else {
        deposit(apply_deposits(loot, ds.drop_last()), ds.last().0, ds.last().1)
    }
}

/// Whatever the sequence of deposits, and whoever made them, each slot of the
/// layer holds its starting amount plus the sum deposited there: the layer
/// keeps per-tile totals and nothing more.
pub proof fn lemma_deposits_keep_totals_only(loot: Seq<u16>, ds: Seq<(int, int)>)
    requires
        loot.len() == 100,
        forall|j: int| 0 <= j < ds.len() ==> 0 <= (#[trigger] ds[j]).0 < 100 && ds[j].1 >= 0,
        forall|k: int| 0 <= k < 100 ==> loot[k] + total_at(ds, k) <= u16::MAX,
    ensures
        apply_deposits(loot, ds).len() == 100,
        forall|k: int| 0 <= k < 100 ==> #[trigger] apply_deposits(loot, ds)[k] == loot[k] + total_at(ds, k),
    decreases ds.len(),
{
    if ds.len() > 0 {
        let init = ds.drop_last();
        assert forall|k: int| 0 <= k < 100 implies loot[k] + total_at(init, k) <= u16::MAX by {
            lemma_total_at_nonneg(ds, k);
            assert(total_at(init, k) <= total_at(ds, k));
        }
        lemma_deposits_keep_totals_only(loot, init);
    }
}

proof fn lemma_total_at_nonneg(ds: Seq<(int, int)>, idx: int)
    requires
        forall|j: int| 0 <= j < ds.len() ==> (#[trigger] ds[j]).1 >= 0,
    ensures
        total_at(ds, idx) >= 0,
        ds.len() > 0 ==> total_at(ds.drop_last(), idx) <= total_at(ds, idx),
    decreases ds.len(),
{
    if ds.len() > 0 {
        lemma_total_at_nonneg(ds.drop_last(), idx);
        assert(ds.last() == ds[ds.len() - 1]);
    }
}

} // verus!
