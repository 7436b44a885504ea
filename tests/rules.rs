use buried_treasure::grid::{
    BuriedLayer, MapMatrix, MapTile, PlayerState, TileKind, abs_diff, is_adjacent, tile_index,
};
use buried_treasure::rules::{
    BuryInput, DigInput, ExploreInput, MoveInput, step_bury, step_dig, step_explore, step_move,
};

fn empty_map() -> MapMatrix {
    MapMatrix { tiles: [MapTile { tile_type: TileKind::Empty, value: 0 }; 100] }
}

fn empty_layer() -> BuriedLayer {
    BuriedLayer { loot: [0u16; 100] }
}

fn at(x: u8, y: u8, gold: u16, health: u16) -> PlayerState {
    PlayerState { x, y, gold, health }
}

#[test]
fn geometry_helpers() {
    assert_eq!(abs_diff(3, 7), 4);
    assert_eq!(abs_diff(7, 3), 4);
    assert_eq!(tile_index(0, 0), 0);
    assert_eq!(tile_index(1, 1), 11);
    assert_eq!(tile_index(9, 9), 99);
    assert_eq!(tile_index(3, 2), 23);
}

#[test]
fn adjacency_is_chebyshev_one() {
    for px in 0u8..12 {
        for py in 0u8..12 {
            for tx in 0u8..12 {
                for ty in 0u8..12 {
                    let dx = (px as i32 - tx as i32).abs();
                    let dy = (py as i32 - ty as i32).abs();
                    assert_eq!(is_adjacent(px, py, tx, ty), dx.max(dy) == 1);
                }
            }
        }
    }
}

#[test]
fn move_to_neighbour_succeeds() {
    let (res, q) = step_move(at(0, 0, 20, 100), MoveInput { target_x: 1, target_y: 1 }).unwrap();
    assert_eq!((res.new_x, res.new_y), (1, 1));
    assert_eq!(q, at(1, 1, 20, 100));
}

#[test]
fn move_far_or_in_place_aborts() {
    assert!(step_move(at(1, 1, 20, 100), MoveInput { target_x: 5, target_y: 5 }).is_none());
    assert!(step_move(at(1, 1, 20, 100), MoveInput { target_x: 1, target_y: 1 }).is_none());
    assert!(step_move(at(1, 1, 20, 100), MoveInput { target_x: 3, target_y: 1 }).is_none());
}

#[test]
fn move_or_inspect_off_grid_aborts() {
    assert!(step_move(at(9, 9, 20, 100), MoveInput { target_x: 10, target_y: 9 }).is_none());
    assert!(step_move(at(9, 9, 20, 100), MoveInput { target_x: 9, target_y: 10 }).is_none());
    let m = empty_map();
    assert!(step_explore(at(9, 5, 20, 100), &m, ExploreInput { target_x: 10, target_y: 5 }).is_none());
    assert!(step_move(at(9, 9, 20, 100), MoveInput { target_x: 8, target_y: 9 }).is_some());
}

#[test]
fn explore_resource_adds_gold() {
    let mut m = empty_map();
    m.tiles[11] = MapTile { tile_type: TileKind::Resource, value: 30 };
    let (res, q) = step_explore(at(0, 0, 20, 100), &m, ExploreInput { target_x: 1, target_y: 1 }).unwrap();
    assert_eq!(res.tile_type, TileKind::Resource);
    assert_eq!(res.value, 30);
    assert_eq!(q, at(0, 0, 50, 100));
}

#[test]
fn explore_hazard_floors_health_at_zero() {
    let mut m = empty_map();
    m.tiles[1] = MapTile { tile_type: TileKind::Hazard, value: 25 };
    let (res, q) = step_explore(at(0, 0, 20, 100), &m, ExploreInput { target_x: 1, target_y: 0 }).unwrap();
    assert_eq!(res.tile_type, TileKind::Hazard);
    assert_eq!(q.health, 75);
    let (_, q2) = step_explore(at(0, 0, 20, 10), &m, ExploreInput { target_x: 1, target_y: 0 }).unwrap();
    assert_eq!(q2.health, 0);
}

#[test]
fn explore_empty_changes_nothing() {
    let m = empty_map();
    let (res, q) = step_explore(at(4, 4, 20, 100), &m, ExploreInput { target_x: 5, target_y: 3 }).unwrap();
    assert_eq!(res.tile_type, TileKind::Empty);
    assert_eq!(res.value, 0);
    assert_eq!(q, at(4, 4, 20, 100));
}

#[test]
fn explore_gold_overflow_aborts() {
    let mut m = empty_map();
    m.tiles[11] = MapTile { tile_type: TileKind::Resource, value: 30 };
    assert!(step_explore(at(0, 0, u16::MAX - 10, 100), &m, ExploreInput { target_x: 1, target_y: 1 }).is_none());
}

#[test]
fn bury_moves_gold_to_layer() {
    let (res, q, b) = step_bury(at(0, 0, 20, 100), empty_layer(), BuryInput { target_x: 1, target_y: 1, amount: 10 }).unwrap();
    assert!(res.success);
    assert_eq!(res.new_gold, 10);
    assert_eq!(q, at(0, 0, 10, 100));
    assert_eq!(b.loot[11], 10);
    assert_eq!(b.loot.iter().map(|v| *v as u32).sum::<u32>(), 10);
}

#[test]
fn bury_rejections() {
    let p = at(0, 0, 20, 100);
    assert!(step_bury(p, empty_layer(), BuryInput { target_x: 1, target_y: 1, amount: 0 }).is_none());
    assert!(step_bury(p, empty_layer(), BuryInput { target_x: 1, target_y: 1, amount: 21 }).is_none());
    assert!(step_bury(p, empty_layer(), BuryInput { target_x: 2, target_y: 2, amount: 5 }).is_none());
    assert!(step_bury(at(9, 9, 20, 100), empty_layer(), BuryInput { target_x: 10, target_y: 10, amount: 5 }).is_none());
    let mut full = empty_layer();
    full.loot[11] = u16::MAX - 2;
    assert!(step_bury(p, full, BuryInput { target_x: 1, target_y: 1, amount: 5 }).is_none());
    assert!(step_bury(p, empty_layer(), BuryInput { target_x: 1, target_y: 1, amount: 20 }).is_some());
}

#[test]
fn deposits_aggregate_without_depositor() {
    let layer = empty_layer();
    let (_, _, l1) = step_bury(at(0, 0, 20, 100), layer, BuryInput { target_x: 1, target_y: 1, amount: 7 }).unwrap();
    let (_, _, l2) = step_bury(at(2, 2, 50, 40), l1, BuryInput { target_x: 1, target_y: 1, amount: 5 }).unwrap();
    let (_, _, m1) = step_bury(at(2, 2, 50, 40), layer, BuryInput { target_x: 1, target_y: 1, amount: 5 }).unwrap();
    let (_, _, m2) = step_bury(at(0, 0, 20, 100), m1, BuryInput { target_x: 1, target_y: 1, amount: 7 }).unwrap();
    assert_eq!(l2.loot, m2.loot);
    assert_eq!(l2.loot[11], 12);
}

#[test]
fn dig_combines_deposit_and_resource() {
    let mut m = empty_map();
    m.tiles[11] = MapTile { tile_type: TileKind::Resource, value: 30 };
    let mut b = empty_layer();
    b.loot[11] = 10;
    let (res, q, c) = step_dig(at(0, 0, 20, 100), &m, b, DigInput { target_x: 1, target_y: 1 }).unwrap();
    assert_eq!(res.found_type, TileKind::Resource);
    assert_eq!(res.total_value, 40);
    assert_eq!(res.health_lost, 0);
    assert_eq!(q, at(0, 0, 60, 100));
    assert_eq!(c.loot[11], 0);
}

#[test]
fn dig_deposit_over_hazard_reports_resource() {
    let mut m = empty_map();
    m.tiles[11] = MapTile { tile_type: TileKind::Hazard, value: 12 };
    let mut b = empty_layer();
    b.loot[11] = 10;
    let (res, q, c) = step_dig(at(0, 0, 20, 100), &m, b, DigInput { target_x: 1, target_y: 1 }).unwrap();
    assert_eq!(res.found_type, TileKind::Resource);
    assert_eq!(res.total_value, 10);
    assert_eq!(res.health_lost, 12);
    assert_eq!(q, at(0, 0, 30, 88));
    assert_eq!(c.loot[11], 0);
}

#[test]
fn dig_hazard_alone_and_nothing() {
    let mut m = empty_map();
    m.tiles[11] = MapTile { tile_type: TileKind::Hazard, value: 30 };
    let (res, q, _) = step_dig(at(0, 0, 20, 20), &m, empty_layer(), DigInput { target_x: 1, target_y: 1 }).unwrap();
    assert_eq!(res.found_type, TileKind::Hazard);
    assert_eq!(res.total_value, 0);
    assert_eq!(res.health_lost, 30);
    assert_eq!(q.health, 0);
    let (res2, q2, _) = step_dig(at(0, 0, 20, 20), &m, empty_layer(), DigInput { target_x: 1, target_y: 0 }).unwrap();
    assert_eq!(res2.found_type, TileKind::Empty);
    assert_eq!(res2.total_value, 0);
    assert_eq!(q2, at(0, 0, 20, 20));
}

#[test]
fn dig_twice_finds_no_deposit() {
    let mut m = empty_map();
    m.tiles[11] = MapTile { tile_type: TileKind::Hazard, value: 5 };
    m.tiles[1] = MapTile { tile_type: TileKind::Resource, value: 8 };
    let mut b = empty_layer();
    b.loot[11] = 10;
    b.loot[1] = 4;
    let (r1, q1, c1) = step_dig(at(0, 0, 20, 100), &m, b, DigInput { target_x: 1, target_y: 1 }).unwrap();
    assert_eq!(r1.total_value, 10);
    let (r2, _, c2) = step_dig(q1, &m, c1, DigInput { target_x: 1, target_y: 1 }).unwrap();
    assert_eq!(r2.found_type, TileKind::Hazard);
    assert_eq!(r2.total_value, 0);
    assert_eq!(c2.loot, c1.loot);
    let (_, q3, c3) = step_dig(q1, &m, c1, DigInput { target_x: 1, target_y: 0 }).unwrap();
    let (r4, _, _) = step_dig(q3, &m, c3, DigInput { target_x: 1, target_y: 0 }).unwrap();
    assert_eq!(r4.total_value, 8);
}

#[test]
fn dig_rejections() {
    let mut m = empty_map();
    m.tiles[11] = MapTile { tile_type: TileKind::Resource, value: 30 };
    assert!(step_dig(at(0, 0, 20, 100), &m, empty_layer(), DigInput { target_x: 2, target_y: 2 }).is_none());
    assert!(step_dig(at(9, 9, 20, 100), &m, empty_layer(), DigInput { target_x: 10, target_y: 9 }).is_none());
    assert!(step_dig(at(0, 0, u16::MAX, 100), &m, empty_layer(), DigInput { target_x: 1, target_y: 1 }).is_none());
    let mut b = empty_layer();
    b.loot[11] = u16::MAX - 5;
    assert!(step_dig(at(0, 0, 0, 100), &m, b, DigInput { target_x: 1, target_y: 1 }).is_none());
}
