//! Building the base layer from a seed: a xorshift stream drives
//! reject-and-resample placement of resources, then hazards.
use vstd::prelude::*;
use crate::grid::{MapMatrix, MapTile, TileKind, SPAWN_INDEX, TILE_COUNT};

verus! {

/// Number of resource tiles the generator places.
pub const RESOURCE_COUNT: u8 = 15;

/// Number of hazard tiles the generator places.
pub const HAZARD_COUNT: u8 = 10;

/// One step of the xorshift stream (shifts 13, 7, 17).
pub open spec fn xorshift(s: u64) -> u64 {
    let a = s ^ (s << 13u64);
    let b = a ^ (a >> 7u64);
    b ^ (b << 17u64)
}

/// Advances the stream and returns its new state.
pub fn prng_next(state: &mut u64) -> (r: u64)
    ensures
        r == xorshift(*old(state)),
        *final(state) == r,
{
    let mut s = *state;
    s ^= s << 13u64;
    s ^= s >> 7u64;
    s ^= s << 17u64;
    *state = s;
    s
}

/// The generator's state between draws, as a mathematical value.
pub struct GenState {
    pub rng: u64,
    pub tiles: Seq<MapTile>,
    pub resources: nat,
    pub hazards: nat,
}

/// An empty tile.
pub open spec fn empty_tile() -> MapTile {
    MapTile { tile_type: TileKind::Empty, value: 0 }
}

/// The state before the first draw.
pub open spec fn gen_start(seed: u64) -> GenState {
    GenState {
        rng: seed,
        tiles: Seq::new(TILE_COUNT as nat, |i: int| empty_tile()),
        resources: 0,
        hazards: 0,
    }
}

/// Both kinds have all their tiles.
pub open spec fn gen_done(s: GenState) -> bool {
    s.resources == RESOURCE_COUNT as nat && s.hazards == HAZARD_COUNT as nat
}

/// One draw: pick a flat index; if it is not the spawn and still empty, draw
/// a value and place a resource (while resources are missing) or a hazard.
/// A finished state stays as it is.
pub open spec fn gen_step(s: GenState) -> GenState {
    let r1 = xorshift(s.rng);
    let idx = (r1 % 100) as int;
    if gen_done(s) {
        s
    } else if idx != SPAWN_INDEX as int && s.tiles[idx].tile_type == TileKind::Empty {
        let r2 = xorshift(r1);
        if s.resources < RESOURCE_COUNT as nat {
            GenState {
                rng: r2,
                tiles: s.tiles.update(idx, MapTile { tile_type: TileKind::Resource, value: (5 + r2 % 46) as u16 }),
                resources: s.resources + 1,
                hazards: s.hazards,
            }
        } else {
            GenState {
                rng: r2,
                tiles: s.tiles.update(idx, MapTile { tile_type: TileKind::Hazard, value: (5 + r2 % 26) as u16 }),
                resources: s.resources,
                hazards: s.hazards + 1,
            }
        }
    } else {
        GenState { rng: r1, ..s }
    }
}

/// The state after `n` draws from `seed`.
pub open spec fn gen_after(seed: u64, n: nat) -> GenState
    decreases n,
{
    if n == 0 { gen_start(seed) } else { gen_step(gen_after(seed, (n - 1) as nat)) }
}

/// The layout `seed` yields when generation finishes after `n` draws.
pub open spec fn generated_in(seed: u64, n: nat) -> bool {
    &&& gen_done(gen_after(seed, n))
    &&& forall|k: nat| k < n ==> !gen_done(#[trigger] gen_after(seed, k))
}

/// Generation from `seed` completes within `u64::MAX` draws.
pub open spec fn finishes(seed: u64) -> bool {
    exists|n: nat| n <= u64::MAX && gen_done(#[trigger] gen_after(seed, n))
}

/// Number of tiles of kind `k`.
pub open spec fn count_kind(tiles: Seq<MapTile>, k: TileKind) -> int
    decreases tiles.len(),
{
    if tiles.len() == 0 {
        0
    } else {
        count_kind(tiles.drop_last(), k) + if tiles.last().tile_type == k { 1int } else { 0int }
    }
}

/// Each tile's value lies in its kind's range: resources 5..=50, hazards
/// 5..=30, empty tiles zero.
pub open spec fn tile_in_range(t: MapTile) -> bool {
    match t.tile_type {
        TileKind::Empty => t.value == 0,
        TileKind::Resource => 5 <= t.value <= 50,
        TileKind::Hazard => 5 <= t.value <= 30,
    }
}

/// A finished base layer: exactly `RESOURCE_COUNT` resources and
/// `HAZARD_COUNT` hazards, each on its own tile, none at the spawn, every
/// value in range.
pub open spec fn valid_world(tiles: Seq<MapTile>) -> bool {
    &&& tiles.len() == TILE_COUNT
    &&& tiles[SPAWN_INDEX as int].tile_type == TileKind::Empty
    &&& forall|i: int| 0 <= i < tiles.len() ==> tile_in_range(#[trigger] tiles[i])
    &&& count_kind(tiles, TileKind::Resource) == RESOURCE_COUNT as int
    &&& count_kind(tiles, TileKind::Hazard) == HAZARD_COUNT as int
}

/// What holds of the generator's state after any number of draws.
pub open spec fn gen_inv(s: GenState) -> bool {
    &&& s.tiles.len() == TILE_COUNT
    &&& s.tiles[SPAWN_INDEX as int].tile_type == TileKind::Empty
    &&& forall|i: int| 0 <= i < s.tiles.len() ==> tile_in_range(#[trigger] s.tiles[i])
    &&& count_kind(s.tiles, TileKind::Resource) == s.resources
    &&& count_kind(s.tiles, TileKind::Hazard) == s.hazards
    &&& s.resources <= RESOURCE_COUNT as nat
    &&& s.hazards <= HAZARD_COUNT as nat
}

proof fn lemma_count_update(s: Seq<MapTile>, i: int, t: MapTile, k: TileKind)
    requires
        0 <= i < s.len(),
    ensures
        count_kind(s.update(i, t), k) == count_kind(s, k)
            - (if s[i].tile_type == k { 1int } else { 0int })
            + (if t.tile_type == k { 1int } else { 0int }),
    decreases s.len(),
{
    if i == s.len() - 1 {
        assert(s.update(i, t).drop_last() =~= s.drop_last());
    } else {
        lemma_count_update(s.drop_last(), i, t, k);
        assert(s.update(i, t).drop_last() =~= s.drop_last().update(i, t));
    }
}

proof fn lemma_count_empty(n: nat, k: TileKind)
    requires
        k != TileKind::Empty,
    ensures
        count_kind(Seq::new(n, |i: int| empty_tile()), k) == 0,
    decreases n,
{
    if n > 0 {
        lemma_count_empty((n - 1) as nat, k);
        assert(Seq::new(n, |i: int| empty_tile()).drop_last() =~= Seq::new((n - 1) as nat, |i: int| empty_tile()));
    }
}

proof fn lemma_gen_inv(seed: u64, n: nat)
    ensures
        gen_inv(gen_after(seed, n)),
    decreases n,
{
    if n == 0 {
        lemma_count_empty(TILE_COUNT as nat, TileKind::Resource);
        lemma_count_empty(TILE_COUNT as nat, TileKind::Hazard);
    } else {
        lemma_gen_inv(seed, (n - 1) as nat);
        let s = gen_after(seed, (n - 1) as nat);
        let r1 = xorshift(s.rng);
        let idx = (r1 % 100) as int;
        if !gen_done(s) && idx != SPAWN_INDEX as int && s.tiles[idx].tile_type == TileKind::Empty {
            let r2 = xorshift(r1);
            let t = gen_step(s).tiles[idx];
            lemma_count_update(s.tiles, idx, t, TileKind::Resource);
            lemma_count_update(s.tiles, idx, t, TileKind::Hazard);
            if s.resources < RESOURCE_COUNT as nat {
                assert(count_kind(s.tiles, TileKind::Resource) < RESOURCE_COUNT as int);
            }
        }
    }
}

/// The seed 0 keeps its stream at zero, so every draw picks the spawn and
/// generation never finishes.
pub proof fn lemma_zero_seed_never_finishes(n: nat)
    ensures
        gen_after(0, n) == gen_start(0),
    decreases n,
{
    assert(xorshift(0) == 0) by (bit_vector);
    if n > 0 {
        lemma_zero_seed_never_finishes((n - 1) as nat);
    }
}

/// Builds the base layer from `seed`. Generation draws until every tile is
/// placed; it gives up (`None`) only once `u64::MAX` draws have not sufficed,
/// which is the case for the seed 0, whose stream never leaves the spawn.
pub fn generate_map(seed: u64) -> (r: Option<MapMatrix>)
    ensures
        r is Some <==> finishes(seed),
        seed == 0 ==> r is None,
        r matches Some(m) ==> valid_world(m.tiles@),
        r matches Some(m) ==> exists|n: nat| #[trigger] generated_in(seed, n) && m.tiles@ == gen_after(seed, n).tiles,
{
    let mut rng: u64 = seed;
    let mut map = MapMatrix { tiles: [MapTile { tile_type: TileKind::Empty, value: 0 }; 100] };
    let mut resources: u8 = 0;
    let mut hazards: u8 = 0;
    let mut draws: u64 = 0;
    assert(map.tiles@ =~= gen_start(seed).tiles);
    while resources < RESOURCE_COUNT || hazards < HAZARD_COUNT
        invariant
            gen_after(seed, draws as nat) == (GenState {
                rng,
                tiles: map.tiles@,
                resources: resources as nat,
                hazards: hazards as nat,
            }),
            forall|k: nat| k < draws ==> !gen_done(#[trigger] gen_after(seed, k)),
        decreases u64::MAX - draws,
    {
        proof {
            lemma_gen_inv(seed, draws as nat);
        }
        if draws == u64::MAX {
            assert forall|n: nat| n <= u64::MAX implies !gen_done(#[trigger] gen_after(seed, n)) by {
                if n < draws {
                }
            }
            return None;
        }
        let ghost before = gen_after(seed, draws as nat);
        let r1 = prng_next(&mut rng);
        let idx = (r1 % 100) as usize;
        if idx != SPAWN_INDEX && map.tiles[idx].tile_type == TileKind::Empty {
            let r2 = prng_next(&mut rng);
            if resources < RESOURCE_COUNT {
                let value = 5 + (r2 % 46) as u16;
                map.tiles[idx] = MapTile { tile_type: TileKind::Resource, value };
                resources = resources + 1;
            } else {
                let value = 5 + (r2 % 26) as u16;
                map.tiles[idx] = MapTile { tile_type: TileKind::Hazard, value };
                hazards = hazards + 1;
            }
        }
        draws = draws + 1;
        assert(map.tiles@ =~= gen_step(before).tiles);
    }
    proof {
        lemma_gen_inv(seed, draws as nat);
        assert(generated_in(seed, draws as nat));
        assert(gen_done(gen_after(seed, draws as nat)));
    }
    proof {
        if seed == 0 {
            lemma_zero_seed_never_finishes(draws as nat);
        }
    }
    Some(map)
}

} // verus!
