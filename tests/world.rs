use buried_treasure::grid::{MapMatrix, TileKind};
use buried_treasure::world::{generate_map, prng_next};

fn count(m: &MapMatrix, k: TileKind) -> usize {
    m.tiles.iter().filter(|t| t.tile_type == k).count()
}

#[test]
fn prng_follows_xorshift() {
    let mut s: u64 = 1;
    assert_eq!(prng_next(&mut s), 1082269761);
    assert_eq!(s, 1082269761);
    assert_eq!(prng_next(&mut s), 1152992998833853505);
    let mut t: u64 = 42;
    assert_eq!(prng_next(&mut t), 45454805674);
}

#[test]
fn prng_keeps_zero() {
    let mut s: u64 = 0;
    assert_eq!(prng_next(&mut s), 0);
}

#[test]
fn seed_42_places_exact_counts() {
    let m = generate_map(42).unwrap();
    assert_eq!(count(&m, TileKind::Resource), 15);
    assert_eq!(count(&m, TileKind::Hazard), 10);
    assert_eq!(count(&m, TileKind::Empty), 75);
    assert_eq!(m.tiles[0].tile_type, TileKind::Empty);
}

#[test]
fn seed_42_layout() {
    let m = generate_map(42).unwrap();
    assert_eq!(m.tiles[5].tile_type, TileKind::Resource);
    assert_eq!(m.tiles[5].value, 15);
    assert_eq!(m.tiles[4].tile_type, TileKind::Hazard);
    assert_eq!(m.tiles[4].value, 8);
    assert_eq!(m.tiles[56].value, 49);
    assert_eq!(m.tiles[69].value, 27);
    assert_eq!(m.tiles[11].tile_type, TileKind::Empty);
    assert_eq!(m.tiles[11].value, 0);
}

#[test]
fn generation_is_deterministic() {
    let a = generate_map(42).unwrap();
    let b = generate_map(42).unwrap();
    assert_eq!(a.tiles, b.tiles);
    let c = generate_map(7).unwrap();
    assert_ne!(a.tiles, c.tiles);
}

#[test]
fn values_in_range_for_many_seeds() {
    for seed in 1u64..200 {
        let m = generate_map(seed).unwrap();
        assert_eq!(count(&m, TileKind::Resource), 15);
        assert_eq!(count(&m, TileKind::Hazard), 10);
        assert_eq!(m.tiles[0].tile_type, TileKind::Empty);
        for t in m.tiles.iter() {
            match t.tile_type {
                TileKind::Empty => assert_eq!(t.value, 0),
                TileKind::Resource => assert!(t.value >= 5 && t.value <= 50),
                TileKind::Hazard => assert!(t.value >= 5 && t.value <= 30),
            }
        }
    }
}
