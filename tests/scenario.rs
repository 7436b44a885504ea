use buried_treasure::circuits::{
    InitMapInput, bury, dig, explore, init_buried_layer, init_map, move_player, register_player,
};
use buried_treasure::grid::{PlayerState, TileKind};
use buried_treasure::rules::{BuryInput, DigInput, ExploreInput, MoveInput};
use buried_treasure::sealed::{KeyDomain, SharedKey, seal};

#[test]
fn register_starts_at_spawn() {
    let s = register_player();
    assert_eq!(s.domain(), KeyDomain::Network);
    assert_eq!(s.open(KeyDomain::Network), Some(PlayerState { x: 0, y: 0, gold: 20, health: 100 }));
}

#[test]
fn empty_deposit_layer() {
    let b = init_buried_layer().open(KeyDomain::Network).unwrap();
    assert!(b.loot.iter().all(|v| *v == 0));
}

#[test]
fn init_map_needs_the_seed_key() {
    let k = SharedKey { id: 1 };
    let seed = seal(InitMapInput { seed: 42 }, KeyDomain::Caller(k));
    assert!(init_map(seed, KeyDomain::Caller(SharedKey { id: 2 })).is_none());
    let m = init_map(seed, KeyDomain::Caller(k)).unwrap();
    assert_eq!(m.domain(), KeyDomain::Network);
    assert_eq!(m.open(KeyDomain::Network).unwrap().tiles[5].value, 15);
}

#[test]
fn wrong_keys_abort_actions() {
    let k = SharedKey { id: 1 };
    let p = register_player();
    let mv = seal(MoveInput { target_x: 1, target_y: 0 }, KeyDomain::Caller(k));
    assert!(move_player(mv, p, SharedKey { id: 9 }).is_none());
    let leaked = seal(PlayerState { x: 0, y: 0, gold: 20, health: 100 }, KeyDomain::Caller(k));
    assert!(move_player(mv, leaked, k).is_none());
    let plain = seal(MoveInput { target_x: 1, target_y: 0 }, KeyDomain::Network);
    assert!(move_player(plain, p, k).is_none());
}

#[test]
fn seed_42_game_round() {
    let alice = SharedKey { id: 100 };
    let bob = SharedKey { id: 200 };
    let map = init_map(seal(InitMapInput { seed: 42 }, KeyDomain::Caller(alice)), KeyDomain::Caller(alice)).unwrap();
    let layer = init_buried_layer();
    let a = register_player();

    let (res, a) = move_player(seal(MoveInput { target_x: 1, target_y: 1 }, KeyDomain::Caller(alice)), a, alice).unwrap();
    let r = res.open(KeyDomain::Caller(alice)).unwrap();
    assert_eq!((r.new_x, r.new_y), (1, 1));
    assert!(res.open(KeyDomain::Network).is_none());

    assert!(move_player(seal(MoveInput { target_x: 5, target_y: 5 }, KeyDomain::Caller(alice)), a, alice).is_none());

    let (res, a, layer) = bury(seal(BuryInput { target_x: 1, target_y: 2, amount: 10 }, KeyDomain::Caller(alice)), a, layer, alice).unwrap();
    let r = res.open(KeyDomain::Caller(alice)).unwrap();
    assert!(r.success);
    assert_eq!(r.new_gold, 10);
    assert_eq!(a.open(KeyDomain::Network).unwrap().gold, 10);
    assert_eq!(layer.open(KeyDomain::Network).unwrap().loot[21], 10);

    let b = register_player();
    let (_, b) = move_player(seal(MoveInput { target_x: 1, target_y: 1 }, KeyDomain::Caller(bob)), b, bob).unwrap();
    let (res, b, layer) = dig(seal(DigInput { target_x: 1, target_y: 2 }, KeyDomain::Caller(bob)), b, &map, layer, bob).unwrap();
    assert!(res.open(KeyDomain::Caller(alice)).is_none());
    let r = res.open(KeyDomain::Caller(bob)).unwrap();
    assert!(r.total_value >= 10);
    assert_eq!(r.found_type, TileKind::Resource);
    assert_eq!(layer.open(KeyDomain::Network).unwrap().loot[21], 0);
    assert!(b.open(KeyDomain::Network).unwrap().gold >= 30);

    let (res, _) = explore(seal(ExploreInput { target_x: 2, target_y: 1 }, KeyDomain::Caller(bob)), b, &map, bob).unwrap();
    let r = res.open(KeyDomain::Caller(bob)).unwrap();
    assert_eq!(r.tile_type, TileKind::Empty);
    assert!(explore(seal(ExploreInput { target_x: 10, target_y: 1 }, KeyDomain::Caller(bob)), b, &map, bob).is_none());
}
