use gamesync::worldgen::{
    generate_world, get_prefab_data, get_spawn_vec, EncounterNode, World, CAMP_ENEMIES,
    LOOT_RANGE, LOOT_SLOTS,
};
use gamesync::lifecycle::CampStatus;

fn worlds_equal(w1: &World, w2: &World) -> bool {
    if w1.camps.len() != w2.camps.len() || w1.chests.len() != w2.chests.len() {
        return false;
    }
    for (c1, c2) in w1.camps.iter().zip(w2.camps.iter()) {
        if c1.id != c2.id
            || c1.grade != c2.grade
            || c1.pos != c2.pos
            || c1.max_enemies != c2.max_enemies
            || c1.current_enemies != c2.current_enemies
            || c1.status != c2.status
            || c1.decorations != c2.decorations
            || c1.enemies != c2.enemies
        {
            return false;
        }
    }
    for (c1, c2) in w1.chests.iter().zip(w2.chests.iter()) {
        if c1.id != c2.id || c1.pos != c2.pos || c1.contents != c2.contents
            || c1.health != c2.health
        {
            return false;
        }
    }
    true
}

#[test]
fn generation_is_deterministic() {
    let nodes = vec![
        EncounterNode { row: 10, col: 10 },
        EncounterNode { row: 3, col: 40 },
        EncounterNode { row: 55, col: 20 },
    ];
    let chests = vec![
        EncounterNode { row: 8, col: 8 },
        EncounterNode { row: 30, col: 31 },
    ];
    let w1 = generate_world(1234567890123456789, &nodes, &chests);
    let w2 = generate_world(1234567890123456789, &nodes, &chests);
    assert!(worlds_equal(&w1, &w2));
}

#[test]
fn different_seeds_may_differ_but_stay_well_formed() {
    let nodes = vec![EncounterNode { row: 1, col: 2 }, EncounterNode { row: 20, col: 30 }];
    let chests = vec![EncounterNode { row: 5, col: 5 }];
    for seed in [0u64, 1, 42, u64::MAX] {
        let w = generate_world(seed, &nodes, &chests);
        assert_eq!(w.camps.len(), 2);
        assert_eq!(w.chests.len(), 1);
        for camp in &w.camps {
            assert!(1 <= camp.grade && camp.grade <= 5);
            assert_eq!(camp.decorations.len(), 3);
            assert_eq!(camp.enemies.len(), CAMP_ENEMIES as usize);
            assert_eq!(camp.max_enemies, CAMP_ENEMIES);
            assert_eq!(camp.current_enemies, CAMP_ENEMIES);
            assert_eq!(camp.status, CampStatus::Active);
        }
    }
}

#[test]
fn special_enemy_unique_and_forced_drop() {
    let nodes: Vec<EncounterNode> =
        (0..8).map(|i| EncounterNode { row: i * 7 % 60, col: i * 13 % 60 }).collect();
    let w = generate_world(987654321, &nodes, &vec![]);
    for camp in &w.camps {
        let specials: Vec<_> = camp.enemies.iter().filter(|e| e.special).collect();
        // exactly one enemy per camp carries the special flag
        assert_eq!(specials.len(), 1);
        // and the special enemy always drops a powerup
        assert!(specials[0].drops_powerup);
        for e in &camp.enemies {
            assert_eq!(e.camp_id, camp.id);
            assert_eq!(e.grade, camp.grade);
        }
    }
}

#[test]
fn empty_inputs_yield_empty_world() {
    let w = generate_world(42, &vec![], &vec![]);
    assert_eq!(w.camps.len(), 0);
    assert_eq!(w.chests.len(), 0);
}

#[test]
fn spawn_vec_exact_values() {
    // x = 32 * (row - 32.5), y = 32 * (31.5 - col) in whole world units
    let p = get_spawn_vec(10, 10);
    assert_eq!(p.x, -720);
    assert_eq!(p.y, 688);
    let origin = get_spawn_vec(0, 0);
    assert_eq!(origin.x, -1040);
    assert_eq!(origin.y, 1008);
}

#[test]
fn prefab_rows_match_table() {
    assert_eq!(
        get_prefab_data(1),
        vec![0, 7, -5, -3, 3, -2, -3, 4, -2, -1, 3, 2, 6, 1, 0, -5]
    );
    assert_eq!(
        get_prefab_data(3),
        vec![-1, 5, -3, -2, 3, -2, -4, 5, -2, 1, -6, 0, 4, 0, -4, -4]
    );
    assert_eq!(
        get_prefab_data(5),
        vec![3, 3, 2, -2, -5, -4, 4, 6, -3, 4, 5, 0, -6, -2, -1, -4]
    );
    assert_eq!(get_prefab_data(1).len(), 16);
}

#[test]
fn scenario_seed_42_single_node() {
    // Seed 42, one node at (10, 10): the camp sits at (-720, 688); the grade
    // draw yields 5, so the grade-5 prefab row applies, decorations at
    // position + 16 * offset for its first three pairs, enemies at the
    // remaining five; the chest pass continues on the same stream and yields
    // five loot indices each in [0, 5).
    let nodes = vec![EncounterNode { row: 10, col: 10 }];
    let chests = vec![EncounterNode { row: 12, col: 12 }];
    let w = generate_world(42, &nodes, &chests);

    assert_eq!(w.camps.len(), 1);
    let camp = &w.camps[0];
    assert_eq!(camp.id, 0);
    assert_eq!(camp.pos.x, -720);
    assert_eq!(camp.pos.y, 688);
    assert_eq!(camp.grade, 5);

    let dec_offsets = [(3i64, 3i64), (2, -2), (-5, -4)];
    assert_eq!(camp.decorations.len(), 3);
    for (d, (ox, oy)) in camp.decorations.iter().zip(dec_offsets.iter()) {
        assert_eq!(d.pos.x, camp.pos.x + 16 * ox);
        assert_eq!(d.pos.y, camp.pos.y + 16 * oy);
    }

    let enemy_offsets = [(4i64, 6i64), (-3, 4), (5, 0), (-6, -2), (-1, -4)];
    assert_eq!(camp.enemies.len(), 5);
    for (j, (e, (ox, oy))) in camp.enemies.iter().zip(enemy_offsets.iter()).enumerate() {
        assert_eq!(e.pos.x, camp.pos.x + 16 * ox);
        assert_eq!(e.pos.y, camp.pos.y + 16 * oy);
        assert_eq!(e.id, j);
        assert_eq!(e.camp_id, 0);
        // the grade-5 powerup identity
        assert_eq!(e.powerup, gamesync::components::PowerUpType::MovementSpeedUp);
    }
    // the special index drawn for this seed, with its forced drop
    assert_eq!(camp.enemies.iter().position(|e| e.special), Some(2));
    let drops: Vec<bool> = camp.enemies.iter().map(|e| e.drops_powerup).collect();
    assert_eq!(drops, vec![false, true, true, true, false]);

    assert_eq!(w.chests.len(), 1);
    let chest = &w.chests[0];
    assert_eq!(chest.contents.len(), LOOT_SLOTS);
    for &slot in chest.contents.iter() {
        assert!(slot < LOOT_RANGE);
    }
    // the exact loot drawn when the chest pass shares the camp pass's stream
    assert_eq!(chest.contents, vec![0, 3, 0, 4, 1]);
    assert_eq!(chest.health.current, 1);
    assert_eq!(chest.health.max, 1);
    // the chest's history buffer replicates its own position
    assert_eq!(chest.pos_history.get(0), chest.pos);
    assert_eq!(chest.pos_history.get(999), chest.pos);
}

#[test]
fn scenario_grade_3_row_applied_when_drawn() {
    // When the grade draw yields 3 (seed 44 with one node at (10, 10)), the
    // grade-3 prefab row is applied: decorations at position + 16 * offset
    // for the offsets (-1,5), (-3,-2), (3,-2), and the five enemies at the
    // remaining five offset pairs.
    let nodes = vec![EncounterNode { row: 10, col: 10 }];
    let w = generate_world(44, &nodes, &vec![]);
    let camp = &w.camps[0];
    assert_eq!(camp.grade, 3);

    let dec_offsets = [(-1i64, 5i64), (-3, -2), (3, -2)];
    for (d, (ox, oy)) in camp.decorations.iter().zip(dec_offsets.iter()) {
        assert_eq!(d.pos.x, camp.pos.x + 16 * ox);
        assert_eq!(d.pos.y, camp.pos.y + 16 * oy);
    }
    let enemy_offsets = [(-4i64, 5i64), (-2, 1), (-6, 0), (4, 0), (-4, -4)];
    for (e, (ox, oy)) in camp.enemies.iter().zip(enemy_offsets.iter()) {
        assert_eq!(e.pos.x, camp.pos.x + 16 * ox);
        assert_eq!(e.pos.y, camp.pos.y + 16 * oy);
    }
}

#[test]
fn loot_indices_always_in_range() {
    let coords: Vec<EncounterNode> =
        (0..10).map(|i| EncounterNode { row: i, col: 63 - i }).collect();
    let w = generate_world(7, &vec![], &coords);
    assert_eq!(w.chests.len(), 10);
    for (i, chest) in w.chests.iter().enumerate() {
        assert_eq!(chest.id, i);
        assert_eq!(chest.contents.len(), 5);
        for &slot in chest.contents.iter() {
            assert!(slot < 5);
        }
    }
}
