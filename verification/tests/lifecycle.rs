use gamesync::lifecycle::{handle_camp_clear, set_current_enemies, step_camp, CampStatus};
use gamesync::worldgen::{generate_world, EncounterNode};

fn one_camp_world() -> gamesync::worldgen::World {
    generate_world(42, &vec![EncounterNode { row: 10, col: 10 }], &vec![])
}

#[test]
fn active_camp_with_enemies_stays_active() {
    let mut w = one_camp_world();
    handle_camp_clear(&mut w.camps);
    assert_eq!(w.camps[0].status, CampStatus::Active);
}

#[test]
fn camp_clears_when_enemy_count_reaches_zero() {
    let mut w = one_camp_world();
    set_current_enemies(&mut w.camps[0], 0);
    handle_camp_clear(&mut w.camps);
    assert_eq!(w.camps[0].status, CampStatus::Cleared);
}

#[test]
fn cleared_is_terminal_even_after_enemy_reset() {
    let mut w = one_camp_world();
    set_current_enemies(&mut w.camps[0], 0);
    handle_camp_clear(&mut w.camps);
    assert_eq!(w.camps[0].status, CampStatus::Cleared);
    // an external collaborator resets the enemy count to a nonzero value
    set_current_enemies(&mut w.camps[0], 5);
    handle_camp_clear(&mut w.camps);
    assert_eq!(w.camps[0].status, CampStatus::Cleared);
    handle_camp_clear(&mut w.camps);
    assert_eq!(w.camps[0].status, CampStatus::Cleared);
}

#[test]
fn step_camp_touches_only_status() {
    let mut w = one_camp_world();
    let id = w.camps[0].id;
    let grade = w.camps[0].grade;
    let n_enemies = w.camps[0].enemies.len();
    set_current_enemies(&mut w.camps[0], 0);
    step_camp(&mut w.camps[0]);
    assert_eq!(w.camps[0].status, CampStatus::Cleared);
    assert_eq!(w.camps[0].id, id);
    assert_eq!(w.camps[0].grade, grade);
    assert_eq!(w.camps[0].enemies.len(), n_enemies);
}

#[test]
fn sweep_steps_every_camp_independently() {
    let nodes = vec![
        EncounterNode { row: 1, col: 1 },
        EncounterNode { row: 2, col: 2 },
        EncounterNode { row: 3, col: 3 },
    ];
    let mut w = generate_world(7, &nodes, &vec![]);
    set_current_enemies(&mut w.camps[1], 0);
    handle_camp_clear(&mut w.camps);
    assert_eq!(w.camps[0].status, CampStatus::Active);
    assert_eq!(w.camps[1].status, CampStatus::Cleared);
    assert_eq!(w.camps[2].status, CampStatus::Active);
}
