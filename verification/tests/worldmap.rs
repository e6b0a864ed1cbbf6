use gamesync::components::{apply_damage, despawn_dead_enemies, health_bar_scale, Enemy, Health};
use gamesync::worldmap::{biome_from_field, is_between, read_map, Biome, WorldMap, MAPSIZE};

#[test]
fn fresh_map_is_all_free() {
    let m = WorldMap::new_free();
    assert_eq!(m.map_size, MAPSIZE);
    assert_eq!(m.biome_map.len(), MAPSIZE);
    for row in &m.biome_map {
        for b in row {
            assert_eq!(*b, Biome::Free);
        }
    }
}

#[test]
fn field_letters_map_to_biomes() {
    assert_eq!(biome_from_field(&b"F".to_vec()), Some(Biome::Free));
    assert_eq!(biome_from_field(&b"W".to_vec()), Some(Biome::Wall));
    assert_eq!(biome_from_field(&b"G".to_vec()), Some(Biome::Grass));
    assert_eq!(biome_from_field(&b"C".to_vec()), Some(Biome::Camp));
    assert_eq!(biome_from_field(&b"X".to_vec()), None);
    assert_eq!(biome_from_field(&b"".to_vec()), None);
    assert_eq!(biome_from_field(&b"FF".to_vec()), None);
}

#[test]
fn read_map_writes_known_fields_and_skips_unknown() {
    let mut m = WorldMap::new_free();
    let records: Vec<Vec<Vec<u8>>> = vec![
        vec![b"W".to_vec(), b"G".to_vec(), b"X".to_vec()],
        vec![b"C".to_vec()],
    ];
    read_map(&mut m, &records);
    assert_eq!(m.biome_map[0][0], Biome::Wall);
    assert_eq!(m.biome_map[0][1], Biome::Grass);
    // the unknown field leaves the tile as it was
    assert_eq!(m.biome_map[0][2], Biome::Free);
    assert_eq!(m.biome_map[1][0], Biome::Camp);
    // untouched tiles stay free
    assert_eq!(m.biome_map[1][1], Biome::Free);
    assert_eq!(m.biome_map[63][63], Biome::Free);
}

#[test]
fn is_between_bounds_are_inclusive() {
    assert!(is_between(&5, 5, 10));
    assert!(is_between(&10, 5, 10));
    assert!(is_between(&7, 5, 10));
    assert!(!is_between(&4, 5, 10));
    assert!(!is_between(&11, 5, 10));
}

#[test]
fn apply_damage_saturates_at_zero() {
    let mut h = Health { current: 25, max: 100 };
    apply_damage(&mut h, 10);
    assert_eq!(h.current, 15);
    apply_damage(&mut h, 20);
    assert_eq!(h.current, 0);
    assert_eq!(h.max, 100);
}

#[test]
fn despawn_keeps_only_living_enemies() {
    let mut enemies = vec![
        (Enemy(0), Health { current: 10, max: 10 }),
        (Enemy(1), Health { current: 0, max: 10 }),
        (Enemy(2), Health { current: 1, max: 10 }),
    ];
    despawn_dead_enemies(&mut enemies);
    assert_eq!(enemies.len(), 2);
    assert_eq!(enemies[0].0, Enemy(0));
    assert_eq!(enemies[1].0, Enemy(2));
}

#[test]
fn health_bar_scale_is_whole_units() {
    assert_eq!(health_bar_scale(&Health { current: 100, max: 100 }), 1);
    assert_eq!(health_bar_scale(&Health { current: 99, max: 100 }), 0);
    assert_eq!(health_bar_scale(&Health { current: 0, max: 100 }), 0);
}
