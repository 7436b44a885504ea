//! The cluster's instructions: each opens its arguments (caller inputs with
//! the caller's shared key, durable state with the network key), applies a
//! rule, and seals the caller's result to the caller and the new state to the
//! network. A wrong key, like a violated rule, aborts with `None`: no result
//! and no new state. An abort does not say which check failed, since that
//! would disclose a bound on hidden state (a balance, a position).
use vstd::prelude::*;
use crate::grid::{BuriedLayer, MapMatrix, PlayerState};
use crate::rules::{
    BuryInput, BuryResult, DigInput, DigResult, ExploreInput, ExploreResult, MoveInput,
    MoveResult, bury_allowed, bury_effect, dig_allowed, dig_effect, explore_allowed,
    explore_effect, move_allowed, move_effect, step_bury, step_dig, step_explore, step_move,
};
use crate::sealed::{KeyDomain, Sealed, SharedKey, seal};
use crate::world::{finishes, gen_after, generate_map, generated_in, valid_world};

verus! {

/// Starting resource of a new participant.
pub const START_GOLD: u16 = 20;

/// Starting vitality of a new participant.
pub const START_HEALTH: u16 = 100;

/// The seed of a new world.
#[derive(Clone, Copy, Debug, PartialEq, Eq, Structural)]
pub struct InitMapInput {
    pub seed: u64,
}

/// The state every participant starts from: at the spawn, with the starting
/// resource and vitality.
pub open spec fn start_state() -> PlayerState {
    PlayerState { x: 0, y: 0, gold: START_GOLD, health: START_HEALTH }
}

/// Generates the base layer from a seed that `key` opens, sealed to the network.
pub fn init_map(seed_ctxt: Sealed<InitMapInput>, key: KeyDomain) -> (r: Option<Sealed<MapMatrix>>)
    ensures
        r is Some <==> seed_ctxt@.0 == key && finishes(seed_ctxt@.1.seed),
        r matches Some(m) ==> {
            &&& m@.0 == KeyDomain::Network
            &&& valid_world(m@.1.tiles@)
            &&& exists|n: nat| #[trigger] generated_in(seed_ctxt@.1.seed, n)
                && m@.1.tiles@ == gen_after(seed_ctxt@.1.seed, n).tiles
        },
{
    let seed_input = match seed_ctxt.open(key) {
        Some(v) => v,
        None => return None,
    };
    match generate_map(seed_input.seed) {
        Some(map) => Some(seal(map, KeyDomain::Network)),
        None => None,
    }
}

/// An empty deposit layer, sealed to the network.
pub fn init_buried_layer() -> (r: Sealed<BuriedLayer>)
    ensures
        r@.0 == KeyDomain::Network,
        forall|i: int| 0 <= i < 100 ==> r@.1.loot@[i] == 0,
{
    let layer = BuriedLayer { loot: [0u16; 100] };
    seal(layer, KeyDomain::Network)
}

/// A new participant's state, sealed to the network.
pub fn register_player() -> (r: Sealed<PlayerState>)
    ensures
        r@ == (KeyDomain::Network, start_state()),
{
    let player = PlayerState { x: 0, y: 0, gold: START_GOLD, health: START_HEALTH };
    seal(player, KeyDomain::Network)
}

/// Moves the participant to an adjacent tile.
pub fn move_player(input: Sealed<MoveInput>, player_state: Sealed<PlayerState>, requester: SharedKey) -> (r: Option<
    (Sealed<MoveResult>, Sealed<PlayerState>),
>)
    ensures
        r is Some <==> {
            &&& input@.0 == KeyDomain::Caller(requester)
            &&& player_state@.0 == KeyDomain::Network
            &&& move_allowed(player_state@.1, input@.1)
        },
        r matches Some((res, st)) ==> {
            &&& res@.0 == KeyDomain::Caller(requester)
            &&& st@.0 == KeyDomain::Network
            &&& move_effect(player_state@.1, input@.1, res@.1, st@.1)
        },
{
    let caller = KeyDomain::Caller(requester);
    let i = match input.open(caller) {
        Some(v) => v,
        None => return None,
    };
    let p = match player_state.open(KeyDomain::Network) {
        Some(v) => v,
        None => return None,
    };
    match step_move(p, i) {
        Some((result, q)) => Some((seal(result, caller), seal(q, KeyDomain::Network))),
        None => None,
    }
}

/// Inspects an adjacent tile; only the caller learns what lies there.
pub fn explore(
    input: Sealed<ExploreInput>,
    player_state: Sealed<PlayerState>,
    map: &Sealed<MapMatrix>,
    requester: SharedKey,
) -> (r: Option<(Sealed<ExploreResult>, Sealed<PlayerState>)>)
    ensures
        r is Some <==> {
            &&& input@.0 == KeyDomain::Caller(requester)
            &&& player_state@.0 == KeyDomain::Network
            &&& map@.0 == KeyDomain::Network
            &&& explore_allowed(player_state@.1, map@.1.tiles@, input@.1)
        },
        r matches Some((res, st)) ==> {
            &&& res@.0 == KeyDomain::Caller(requester)
            &&& st@.0 == KeyDomain::Network
            &&& explore_effect(player_state@.1, map@.1.tiles@, input@.1, res@.1, st@.1)
        },
{
    let caller = KeyDomain::Caller(requester);
    let i = match input.open(caller) {
        Some(v) => v,
        None => return None,
    };
    let p = match player_state.open(KeyDomain::Network) {
        Some(v) => v,
        None => return None,
    };
    let m = match map.open(KeyDomain::Network) {
        Some(v) => v,
        None => return None,
    };
    match step_explore(p, &m, i) {
        Some((result, q)) => Some((seal(result, caller), seal(q, KeyDomain::Network))),
        None => None,
    }
}

/// Deposits resource at an adjacent tile. The new layer records the amount
/// at the tile and nothing of who put it there.
pub fn bury(
    input: Sealed<BuryInput>,
    player_state: Sealed<PlayerState>,
    buried_layer: Sealed<BuriedLayer>,
    requester: SharedKey,
) -> (r: Option<(Sealed<BuryResult>, Sealed<PlayerState>, Sealed<BuriedLayer>)>)
    ensures
        r is Some <==> {
            &&& input@.0 == KeyDomain::Caller(requester)
            &&& player_state@.0 == KeyDomain::Network
            &&& buried_layer@.0 == KeyDomain::Network
            &&& bury_allowed(player_state@.1, buried_layer@.1.loot@, input@.1)
        },
        r matches Some((res, st, layer)) ==> {
            &&& res@.0 == KeyDomain::Caller(requester)
            &&& st@.0 == KeyDomain::Network
            &&& layer@.0 == KeyDomain::Network
            &&& bury_effect(player_state@.1, buried_layer@.1.loot@, input@.1, res@.1, st@.1, layer@.1.loot@)
        },
{
    let caller = KeyDomain::Caller(requester);
    let i = match input.open(caller) {
        Some(v) => v,
        None => return None,
    };
    let p = match player_state.open(KeyDomain::Network) {
        Some(v) => v,
        None => return None,
    };
    let b = match buried_layer.open(KeyDomain::Network) {
        Some(v) => v,
        None => return None,
    };
    match step_bury(p, b, i) {
        Some((result, q, c)) => Some((seal(result, caller), seal(q, KeyDomain::Network), seal(c, KeyDomain::Network))),
        None => None,
    }
}

/// Digs at an adjacent tile, combining the deposit layer and the base layer
/// into one outcome that only the caller reads.
pub fn dig(
    input: Sealed<DigInput>,
    player_state: Sealed<PlayerState>,
    map: &Sealed<MapMatrix>,
    buried_layer: Sealed<BuriedLayer>,
    requester: SharedKey,
) -> (r: Option<(Sealed<DigResult>, Sealed<PlayerState>, Sealed<BuriedLayer>)>)
    ensures
        r is Some <==> {
            &&& input@.0 == KeyDomain::Caller(requester)
            &&& player_state@.0 == KeyDomain::Network
            &&& map@.0 == KeyDomain::Network
            &&& buried_layer@.0 == KeyDomain::Network
            &&& dig_allowed(player_state@.1, map@.1.tiles@, buried_layer@.1.loot@, input@.1)
        },
        r matches Some((res, st, layer)) ==> {
            &&& res@.0 == KeyDomain::Caller(requester)
            &&& st@.0 == KeyDomain::Network
            &&& layer@.0 == KeyDomain::Network
            &&& dig_effect(
                player_state@.1,
                map@.1.tiles@,
                buried_layer@.1.loot@,
                input@.1,
                res@.1,
                st@.1,
                layer@.1.loot@,
            )
        },
{
    let caller = KeyDomain::Caller(requester);
    let i = match input.open(caller) {
        Some(v) => v,
        None => return None,
    };
    let p = match player_state.open(KeyDomain::Network) {
        Some(v) => v,
        None => return None,
    };
    let m = match map.open(KeyDomain::Network) {
        Some(v) => v,
        None => return None,
    };
    let b = match buried_layer.open(KeyDomain::Network) {
        Some(v) => v,
        None => return None,
    };
    match step_dig(p, &m, b, i) {
        Some((result, q, c)) => Some((seal(result, caller), seal(q, KeyDomain::Network), seal(c, KeyDomain::Network))),
        None => None,
    }
}

} // verus!
