//! Deterministic procedural generation of camps, decorations, enemies and
//! loot chests.
//!
//! One ChaCha stream is seeded from the shared session seed and consumed in a
//! pinned order: first the camp pass over the encounter nodes in input order,
//! then the chest pass over the chest coordinates in input order, both on the
//! same stream. Per node the draws are: grade, special-enemy index, then one
//! drop roll per non-special enemy in index order (the special enemy's drop
//! is forced true and consumes no draw). Per chest five loot indices are
//! drawn. Any deviation in draw order or draw count desynchronizes peers
//! silently, so the order here is a hard contract: every produced field is
//! pinned in the specifications as a function of the seed and the input
//! lists alone.

use vstd::prelude::*;
use crate::buffer::{BUFFER_CAPACITY, CircularBuffer};
use crate::components::{Health, PowerUpType};
use crate::lifecycle::CampStatus;
use crate::rng::{
    gen_range_u32, gen_range_u8, gen_range_u8_inclusive, rest_u32, rest_u8, rest_u8_incl,
    rng_stream, seed_stream, stream_from_seed, take_u32, take_u8, take_u8_incl,
};
use crate::worldmap::{MAPSIZE, TILESIZE};

verus! {

/// Enemies spawned with every camp.
pub const CAMP_ENEMIES: u8 = 5;

/// Number of camp grades; grades run from 1 to this bound.
pub const NUM_GRADES: u8 = 5;

/// A non-special enemy drops a powerup when its roll out of `DROP_ROLL_MAX`
/// falls below this bound.
pub const POWERUP_DROP_CHANCE: u32 = 50;

/// Exclusive bound of the drop roll.
pub const DROP_ROLL_MAX: u32 = 100;

/// Decorations spawned with every camp.
pub const CAMP_DECORATIONS: usize = 3;

/// World units per prefab offset unit.
pub const OFFSET_SCALE: i64 = 16;

/// Loot slots per chest.
pub const LOOT_SLOTS: usize = 5;

/// Exclusive bound of one loot slot index.
pub const LOOT_RANGE: u8 = 5;

/// Offset subtracted when turning a node row into a world x coordinate.
pub const X_SHIFT: usize = TILESIZE * MAPSIZE / 2 + TILESIZE / 2;

/// Offset a node column is subtracted from when turning it into a world y
/// coordinate.
pub const Y_SHIFT: usize = TILESIZE * MAPSIZE / 2 - TILESIZE / 2;

/// One encounter location: integer grid coordinates produced by the external
/// map collaborator. The order of the node list is significant and fixed
/// before generation begins.
#[derive(Clone, Copy, PartialEq, Eq, Structural, Debug)]
pub struct EncounterNode {
    pub row: i32,
    pub col: i32,
}

/// An exact world position.
#[derive(Clone, Copy, PartialEq, Eq, Structural, Debug)]
pub struct Vec2i {
    pub x: i64,
    pub y: i64,
}

/// A decoration spawned around a camp.
#[derive(Clone, Copy, PartialEq, Eq, Structural, Debug)]
pub struct Decoration {
    pub pos: Vec2i,
}

/// One enemy spawned with a camp.
#[derive(Clone, Copy, PartialEq, Eq, Structural, Debug)]
pub struct EnemySpawn {
    pub id: usize,
    pub camp_id: usize,
    pub grade: u8,
    pub pos: Vec2i,
    pub powerup: PowerUpType,
    pub drops_powerup: bool,
    pub special: bool,
}

/// One camp: its identity, grade, position, enemy roster summary, lifecycle
/// status, and the decorations and enemies spawned with it.
pub struct Camp {
    pub id: usize,
    pub grade: u8,
    pub pos: Vec2i,
    pub max_enemies: u8,
    pub current_enemies: u8,
    pub status: CampStatus,
    pub decorations: Vec<Decoration>,
    pub enemies: Vec<EnemySpawn>,
}

/// One loot chest: five loot slot indices, one-hit-destructible, with its
/// own position history buffer.
pub struct ItemChest {
    pub id: usize,
    pub pos: Vec2i,
    pub contents: Vec<u8>,
    pub health: Health,
    pub pos_history: CircularBuffer<Vec2i>,
}

/// The generated world: the camp entities and the chest entities.
pub struct World {
    pub camps: Vec<Camp>,
    pub chests: Vec<ItemChest>,
}

/// World x coordinate of a node row: the row is shifted by half the map plus
/// half a tile and scaled to world units.
pub open spec fn world_x(row: int) -> int {
    (TILESIZE as int) * row - (X_SHIFT as int)
}

/// World y coordinate of a node column: the column is subtracted from half
/// the map less half a tile and scaled to world units.
pub open spec fn world_y(col: int) -> int {
    (Y_SHIFT as int) - (TILESIZE as int) * col
}

/// Converts node grid coordinates into the world position of a spawn.
pub fn get_spawn_vec(row: i32, col: i32) -> (p: Vec2i)
    ensures
        p.x == world_x(row as int),
        p.y == world_y(col as int),
{
    proof {
        assert(TILESIZE == 32 && X_SHIFT == 1040 && Y_SHIFT == 1008);
        assert((TILESIZE as int) * (row as int) == 32 * (row as int)) by (nonlinear_arith)
            requires
                TILESIZE == 32,
        ;
        assert((TILESIZE as int) * (col as int) == 32 * (col as int)) by (nonlinear_arith)
            requires
                TILESIZE == 32,
        ;
    }
    let x = (TILESIZE as i64) * (row as i64) - (X_SHIFT as i64);
    let y = (Y_SHIFT as i64) - (TILESIZE as i64) * (col as i64);
    Vec2i { x, y }
}

/// The prefab row of a grade: sixteen signed offsets, three decoration
/// `(x, y)` pairs followed by five enemy `(x, y)` pairs, applied relative to
/// the camp position scaled by `OFFSET_SCALE`. Grades outside 1 to 5 share
/// the last row, though no generated camp carries one.
pub open spec fn prefab_row(grade: u8) -> Seq<i32> {
    if grade == 1 {
        seq![0i32, 7i32, -5i32, -3i32, 3i32, -2i32, -3i32, 4i32, -2i32, -1i32, 3i32, 2i32, 6i32, 1i32, 0i32, -5i32]
    } else if grade == 2 {
        seq![-5i32, 4i32, 0i32, 1i32, 3i32, -4i32, -2i32, 7i32, -6i32, -3i32, -3i32, -6i32, 2i32, -3i32, 4i32, 3i32]
    } else if grade == 3 {
        seq![-1i32, 5i32, -3i32, -2i32, 3i32, -2i32, -4i32, 5i32, -2i32, 1i32, -6i32, 0i32, 4i32, 0i32, -4i32, -4i32]
    } else if grade == 4 {
        seq![-3i32, 4i32, 3i32, 2i32, 5i32, -1i32, 2i32, 6i32, -5i32, 1i32, -2i32, 1i32, -4i32, -3i32, 1i32, -6i32]
    } else {
        seq![3i32, 3i32, 2i32, -2i32, -5i32, -4i32, 4i32, 6i32, -3i32, 4i32, 5i32, 0i32, -6i32, -2i32, -1i32, -4i32]
    }
}

/// Returns the prefab row of `grade` as a vector of offsets.
pub fn get_prefab_data(grade: u8) -> (pd: Vec<i32>)
    ensures
        pd@ == prefab_row(grade),
        pd@.len() == 16,
{
    let pd: Vec<i32> = if grade == 1 {
        vec![0, 7, -5, -3, 3, -2, -3, 4, -2, -1, 3, 2, 6, 1, 0, -5]
    } else if grade == 2 {
        vec![-5, 4, 0, 1, 3, -4, -2, 7, -6, -3, -3, -6, 2, -3, 4, 3]
    } else if grade == 3 {
        vec![-1, 5, -3, -2, 3, -2, -4, 5, -2, 1, -6, 0, 4, 0, -4, -4]
    } else if grade == 4 {
        vec![-3, 4, 3, 2, 5, -1, 2, 6, -5, 1, -2, 1, -4, -3, 1, -6]
    } else {
        vec![3, 3, 2, -2, -5, -4, 4, 6, -3, 4, 5, 0, -6, -2, -1, -4]
    };
    proof {
        assert(pd@ =~= prefab_row(grade));
    }
    pd
}

/// The powerup identity enemies of a grade carry: one fixed type per grade.
pub open spec fn powerup_for_grade(grade: u8) -> PowerUpType {
    if grade == 1 {
        PowerUpType::MaxHPUp
    } else if grade == 2 {
        PowerUpType::DamageDealtUp
    } else if grade == 3 {
        PowerUpType::DamageReductionUp
    } else if grade == 4 {
        PowerUpType::AttackSpeedUp
    } else {
        PowerUpType::MovementSpeedUp
    }
}

/// Returns the powerup identity of a grade.
pub fn get_powerup(grade: u8) -> (p: PowerUpType)
    ensures
        p == powerup_for_grade(grade),
{
    if grade == 1 {
        PowerUpType::MaxHPUp
    } else if grade == 2 {
        PowerUpType::DamageDealtUp
    } else if grade == 3 {
        PowerUpType::DamageReductionUp
    } else if grade == 4 {
        PowerUpType::AttackSpeedUp
    } else {
        PowerUpType::MovementSpeedUp
    }
}

/// Stream state before the drop decision of enemy `j`, counting from the
/// state `s` at the start of a camp's enemy loop with special index `k`:
/// every earlier non-special enemy consumed one roll, the special one none.
pub open spec fn drop_state(s: Seq<u64>, k: int, j: int) -> Seq<u64>
    decreases j,
{
    if j <= 0 {
        s
    } else {
        let prev = drop_state(s, k, j - 1);
        if j - 1 == k {
            prev
        } else {
            rest_u32(prev, 0, DROP_ROLL_MAX)
        }
    }
}

/// Whether enemy `j` drops a powerup: forced for the special enemy, and
/// otherwise exactly when its own independent roll falls below the drop
/// chance.
pub open spec fn enemy_drops(s: Seq<u64>, k: int, j: int) -> bool {
    if j == k {
        true
    } else {
        take_u32(drop_state(s, k, j), 0, DROP_ROLL_MAX) < POWERUP_DROP_CHANCE
    }
}

/// The grade drawn first for a camp generated from stream state `s`.
pub open spec fn camp_grade_at(s: Seq<u64>) -> u8 {
    take_u8_incl(s, 1, NUM_GRADES)
}

/// The special-enemy index drawn second.
pub open spec fn camp_special_at(s: Seq<u64>) -> u8 {
    take_u8(rest_u8_incl(s, 1, NUM_GRADES), 0, CAMP_ENEMIES)
}

/// The stream state a camp's enemy drop loop starts from.
pub open spec fn camp_body_state(s: Seq<u64>) -> Seq<u64> {
    rest_u8(rest_u8_incl(s, 1, NUM_GRADES), 0, CAMP_ENEMIES)
}

/// The stream state one whole camp leaves behind.
pub open spec fn camp_end_state(s: Seq<u64>) -> Seq<u64> {
    drop_state(camp_body_state(s), camp_special_at(s) as int, CAMP_ENEMIES as int)
}

/// The stream state before camp `i` of a pass that started from `s0`.
pub open spec fn stream_at_camp(s0: Seq<u64>, i: int) -> Seq<u64>
    decreases i,
{
    if i <= 0 {
        s0
    } else {
        camp_end_state(stream_at_camp(s0, i - 1))
    }
}

/// Stream state before loot slot `j` of a chest whose draws start at `s`.
pub open spec fn loot_state(s: Seq<u64>, j: int) -> Seq<u64>
    decreases j,
{
    if j <= 0 {
        s
    } else {
        rest_u8(loot_state(s, j - 1), 0, LOOT_RANGE)
    }
}

/// The loot index drawn for slot `j` of a chest whose draws start at `s`.
pub open spec fn loot_at(s: Seq<u64>, j: int) -> u8 {
    take_u8(loot_state(s, j), 0, LOOT_RANGE)
}

/// The stream state one whole chest leaves behind.
pub open spec fn chest_end_state(s: Seq<u64>) -> Seq<u64> {
    loot_state(s, LOOT_SLOTS as int)
}

/// The stream state before chest `i` of a pass that started from `s0`.
pub open spec fn stream_at_chest(s0: Seq<u64>, i: int) -> Seq<u64>
    decreases i,
{
    if i <= 0 {
        s0
    } else {
        chest_end_state(stream_at_chest(s0, i - 1))
    }
}

/// Decoration `j` of a camp at `(cx, cy)` with grade `g` sits at the camp
/// position plus the scaled `j`th offset pair of the grade's prefab row.
pub open spec fn decoration_matches(cx: int, cy: int, g: u8, d: Decoration, j: int) -> bool {
    &&& d.pos.x == cx + (OFFSET_SCALE as int) * prefab_row(g)[2 * j]
    &&& d.pos.y == cy + (OFFSET_SCALE as int) * prefab_row(g)[2 * j + 1]
}

/// Enemy `j` of camp `i`, generated from camp stream state `s` at position
/// `(cx, cy)`: its identity, position from the prefab row past the
/// decoration pairs, grade-fixed powerup, special flag, and drop flag.
pub open spec fn enemy_matches(s: Seq<u64>, i: int, cx: int, cy: int, e: EnemySpawn, j: int) -> bool {
    let g = camp_grade_at(s);
    let k = camp_special_at(s) as int;
    &&& e.id == (CAMP_ENEMIES as int) * i + j
    &&& e.camp_id == i
    &&& e.grade == g
    &&& e.pos.x == cx + (OFFSET_SCALE as int) * prefab_row(g)[2 * (CAMP_DECORATIONS as int) + 2
        * j]
    &&& e.pos.y == cy + (OFFSET_SCALE as int) * prefab_row(g)[2 * (CAMP_DECORATIONS as int) + 2
        * j + 1]
    &&& e.powerup == powerup_for_grade(g)
    &&& e.special == (j == k)
    &&& e.drops_powerup == enemy_drops(camp_body_state(s), k, j)
}

/// Camp `i` exactly as generated from its stream state `s` at node `node`:
/// every field is a function of `s`, the node and the index alone.
pub open spec fn camp_matches(s: Seq<u64>, node: EncounterNode, i: int, c: Camp) -> bool {
    let g = camp_grade_at(s);
    let cx = world_x(node.row as int);
    let cy = world_y(node.col as int);
    &&& 1 <= g <= NUM_GRADES
    &&& 0 <= camp_special_at(s) < CAMP_ENEMIES
    &&& c.id == i
    &&& c.grade == g
    &&& c.pos.x == cx
    &&& c.pos.y == cy
    &&& c.max_enemies == CAMP_ENEMIES
    &&& c.current_enemies == CAMP_ENEMIES
    &&& c.status is Active
    &&& c.decorations@.len() == CAMP_DECORATIONS
    &&& forall|j: int|
        0 <= j < CAMP_DECORATIONS ==> decoration_matches(
            cx,
            cy,
            g,
            #[trigger] c.decorations@[j],
            j,
        )
    &&& c.enemies@.len() == CAMP_ENEMIES
    &&& forall|j: int|
        0 <= j < CAMP_ENEMIES ==> enemy_matches(s, i, cx, cy, #[trigger] c.enemies@[j], j)
}

/// The whole camp pass: camp `i` is generated from the stream state all
/// earlier camps left behind.
pub open spec fn camps_match(s0: Seq<u64>, nodes: Seq<EncounterNode>, camps: Seq<Camp>) -> bool {
    &&& camps.len() == nodes.len()
    &&& forall|i: int|
        0 <= i < nodes.len() ==> camp_matches(
            stream_at_camp(s0, i),
            nodes[i],
            i,
            #[trigger] camps[i],
        )
}

/// Chest `i` exactly as generated from its stream state `s` at `coord`: its
/// position, five in-range loot indices, one hit point, and a position
/// history replicating its own position.
pub open spec fn chest_matches(s: Seq<u64>, coord: EncounterNode, i: int, c: ItemChest) -> bool {
    let cx = world_x(coord.row as int);
    let cy = world_y(coord.col as int);
    &&& c.id == i
    &&& c.pos.x == cx
    &&& c.pos.y == cy
    &&& c.contents@.len() == LOOT_SLOTS
    &&& forall|j: int|
        0 <= j < LOOT_SLOTS ==> #[trigger] c.contents@[j] == loot_at(s, j) && c.contents@[j]
            < LOOT_RANGE
    &&& c.health.current == 1
    &&& c.health.max == 1
    &&& c.pos_history.wf()
    &&& c.pos_history@ == Seq::new(BUFFER_CAPACITY as nat, |t: int| c.pos)
}

/// The whole chest pass: chest `i` is generated from the stream state all
/// earlier chests left behind.
pub open spec fn chests_match(s0: Seq<u64>, coords: Seq<EncounterNode>, chests: Seq<ItemChest>) -> bool {
    &&& chests.len() == coords.len()
    &&& forall|i: int|
        0 <= i < coords.len() ==> chest_matches(
            stream_at_chest(s0, i),
            coords[i],
            i,
            #[trigger] chests[i],
        )
}

/// Generates one camp at `node` with id `i`, consuming this camp's draws in
/// the pinned order: grade, special index, then one roll per non-special
/// enemy.
fn generate_one_camp(rng: &mut rand_chacha::ChaCha20Rng, node: EncounterNode, i: usize) -> (c:
    Camp)
    requires
        (i as int + 1) * (CAMP_ENEMIES as int) <= usize::MAX as int,
    ensures
        camp_matches(rng_stream(*old(rng)), node, i as int, c),
        rng_stream(*final(rng)) == camp_end_state(rng_stream(*old(rng))),
{
    let ghost s = rng_stream(*rng);
    let camp_pos = get_spawn_vec(node.row, node.col);
    let camp_grade = gen_range_u8_inclusive(rng, 1, NUM_GRADES);
    let prefab_data = get_prefab_data(camp_grade);
    let special_enemy_index = gen_range_u8(rng, 0, CAMP_ENEMIES);
    let ghost body_s = rng_stream(*rng);
    let ghost k = special_enemy_index as int;

    let mut decorations: Vec<Decoration> = Vec::new();
    let mut d: usize = 0;
    while d < CAMP_DECORATIONS
        invariant
            d <= CAMP_DECORATIONS,
            decorations@.len() == d,
            prefab_data@ == prefab_row(camp_grade),
            camp_pos.x == world_x(node.row as int),
            camp_pos.y == world_y(node.col as int),
            forall|t: int|
                0 <= t < d ==> decoration_matches(
                    camp_pos.x as int,
                    camp_pos.y as int,
                    camp_grade,
                    #[trigger] decorations@[t],
                    t,
                ),
        decreases CAMP_DECORATIONS - d,
    {
        let ox = prefab_data[2 * d];
        let oy = prefab_data[2 * d + 1];
        let dec = Decoration {
            pos: Vec2i {
                x: camp_pos.x + OFFSET_SCALE * (ox as i64),
                y: camp_pos.y + OFFSET_SCALE * (oy as i64),
            },
        };
        decorations.push(dec);
        d = d + 1;
    }

    let mut enemies: Vec<EnemySpawn> = Vec::new();
    let mut j: u8 = 0;
    while j < CAMP_ENEMIES
        invariant
            j <= CAMP_ENEMIES,
            enemies@.len() == j as int,
            (i as int + 1) * (CAMP_ENEMIES as int) <= usize::MAX as int,
            prefab_data@ == prefab_row(camp_grade),
            camp_grade == camp_grade_at(s),
            1 <= camp_grade <= NUM_GRADES,
            special_enemy_index == camp_special_at(s),
            k == special_enemy_index as int,
            0 <= k < CAMP_ENEMIES,
            body_s == camp_body_state(s),
            camp_pos.x == world_x(node.row as int),
            camp_pos.y == world_y(node.col as int),
            rng_stream(*rng) == drop_state(body_s, k, j as int),
            forall|t: int|
                0 <= t < j ==> enemy_matches(
                    s,
                    i as int,
                    camp_pos.x as int,
                    camp_pos.y as int,
                    #[trigger] enemies@[t],
                    t,
                ),
        decreases CAMP_ENEMIES - j,
    {
        let is_special = j == special_enemy_index;
        let power_up_to_drop = get_powerup(camp_grade);
        let drops_powerup: bool;
        if is_special {
            // forced drop; no roll is consumed for the special enemy
            drops_powerup = true;
        } else {
            let roll = gen_range_u32(rng, 0, DROP_ROLL_MAX);
            drops_powerup = roll < POWERUP_DROP_CHANCE;
        }
        let ju = j as usize;
        let ox = prefab_data[2 * CAMP_DECORATIONS + 2 * ju];
        let oy = prefab_data[2 * CAMP_DECORATIONS + 2 * ju + 1];
        let e = EnemySpawn {
            id: i * (CAMP_ENEMIES as usize) + ju,
            camp_id: i,
            grade: camp_grade,
            pos: Vec2i {
                x: camp_pos.x + OFFSET_SCALE * (ox as i64),
                y: camp_pos.y + OFFSET_SCALE * (oy as i64),
            },
            powerup: power_up_to_drop,
            drops_powerup,
            special: is_special,
        };
        enemies.push(e);
        j = j + 1;
    }

    Camp {
        id: i,
        grade: camp_grade,
        pos: camp_pos,
        max_enemies: CAMP_ENEMIES,
        current_enemies: CAMP_ENEMIES,
        status: CampStatus::Active,
        decorations,
        enemies,
    }
}

/// The camp pass: iterates the encounter nodes strictly in input order and
/// generates one camp per node, consuming the stream in the pinned order.
/// Total for any node list whose enemy ids fit a `usize`; an empty list
/// yields no camps.
pub fn setup_camps(rng: &mut rand_chacha::ChaCha20Rng, camp_nodes: &Vec<EncounterNode>) -> (camps:
    Vec<Camp>)
    requires
        camp_nodes@.len() * (CAMP_ENEMIES as int) <= usize::MAX as int,
    ensures
        camps_match(rng_stream(*old(rng)), camp_nodes@, camps@),
        rng_stream(*final(rng)) == stream_at_camp(
            rng_stream(*old(rng)),
            camp_nodes@.len() as int,
        ),
{
    let ghost s0 = rng_stream(*rng);
    let mut camps: Vec<Camp> = Vec::new();
    let n = camp_nodes.len();
    let mut i: usize = 0;
    while i < n
        invariant
            i <= n,
            n == camp_nodes@.len(),
            (n as int) * (CAMP_ENEMIES as int) <= usize::MAX as int,
            camps@.len() == i,
            rng_stream(*rng) == stream_at_camp(s0, i as int),
            forall|t: int|
                0 <= t < i ==> camp_matches(
                    stream_at_camp(s0, t),
                    camp_nodes@[t],
                    t,
                    #[trigger] camps@[t],
                ),
        decreases n - i,
    {
        let node = camp_nodes[i];
        let c = generate_one_camp(rng, node, i);
        camps.push(c);
        i = i + 1;
    }
    camps
}

/// Generates one chest at `coord` with id `i`, drawing its five loot indices
/// in slot order.
fn generate_one_chest(rng: &mut rand_chacha::ChaCha20Rng, coord: EncounterNode, i: usize) -> (c:
    ItemChest)
    ensures
        chest_matches(rng_stream(*old(rng)), coord, i as int, c),
        rng_stream(*final(rng)) == chest_end_state(rng_stream(*old(rng))),
{
    let ghost s = rng_stream(*rng);
    let chest_pos = get_spawn_vec(coord.row, coord.col);
    let mut contents: Vec<u8> = Vec::new();
    let mut j: usize = 0;
    while j < LOOT_SLOTS
        invariant
            j <= LOOT_SLOTS,
            contents@.len() == j,
            rng_stream(*rng) == loot_state(s, j as int),
            forall|t: int|
                0 <= t < j ==> #[trigger] contents@[t] == loot_at(s, t) && contents@[t]
                    < LOOT_RANGE,
        decreases LOOT_SLOTS - j,
    {
        let v = gen_range_u8(rng, 0, LOOT_RANGE);
        contents.push(v);
        j = j + 1;
    }
    let pos_history = CircularBuffer::new_from(chest_pos);
    let c = ItemChest {
        id: i,
        pos: chest_pos,
        contents,
        health: Health { current: 1, max: 1 },
        pos_history,
    };
    proof {
        assert(c.pos_history@ =~= Seq::new(BUFFER_CAPACITY as nat, |t: int| c.pos));
    }
    c
}

/// The chest pass: iterates the chest coordinates strictly in input order
/// and generates one chest per coordinate. Runs on the same stream the camp
/// pass consumed, directly after it: that shared single stream is the pinned
/// design choice every peer must follow.
pub fn setup_chests(rng: &mut rand_chacha::ChaCha20Rng, chest_coords: &Vec<EncounterNode>) -> (
    chests: Vec<ItemChest>)
    ensures
        chests_match(rng_stream(*old(rng)), chest_coords@, chests@),
        rng_stream(*final(rng)) == stream_at_chest(
            rng_stream(*old(rng)),
            chest_coords@.len() as int,
        ),
{
    let ghost s0 = rng_stream(*rng);
    let mut chests: Vec<ItemChest> = Vec::new();
    let n = chest_coords.len();
    let mut i: usize = 0;
    while i < n
        invariant
            i <= n,
            n == chest_coords@.len(),
            chests@.len() == i,
            rng_stream(*rng) == stream_at_chest(s0, i as int),
            forall|t: int|
                0 <= t < i ==> chest_matches(
                    stream_at_chest(s0, t),
                    chest_coords@[t],
                    t,
                    #[trigger] chests@[t],
                ),
        decreases n - i,
    {
        let coord = chest_coords[i];
        let c = generate_one_chest(rng, coord, i);
        chests.push(c);
        i = i + 1;
    }
    chests
}

/// The generated world is exactly the two passes run in order from the
/// seeded stream: the camp pass from the seed state, the chest pass from the
/// state the camp pass left.
pub open spec fn world_matches(
    seed: u64,
    nodes: Seq<EncounterNode>,
    chest_coords: Seq<EncounterNode>,
    w: World,
) -> bool {
    &&& camps_match(seed_stream(seed), nodes, w.camps@)
    &&& chests_match(
        stream_at_camp(seed_stream(seed), nodes.len() as int),
        chest_coords,
        w.chests@,
    )
}

/// Generates the whole world from the session seed: one stream is seeded
/// once, the camp pass consumes it first, then the chest pass continues on
/// the same stream. Total for any inputs within the id bound; empty lists
/// yield an empty world.
pub fn generate_world(
    seed: u64,
    camp_nodes: &Vec<EncounterNode>,
    chest_coords: &Vec<EncounterNode>,
) -> (w: World)
    requires
        camp_nodes@.len() * (CAMP_ENEMIES as int) <= usize::MAX as int,
    ensures
        world_matches(seed, camp_nodes@, chest_coords@, w),
{
    let mut rng = stream_from_seed(seed);
    let camps = setup_camps(&mut rng, camp_nodes);
    let chests = setup_chests(&mut rng, chest_coords);
    World { camps, chests }
}

/// Two camps agree on every observable field.
pub open spec fn camps_agree(c1: Camp, c2: Camp) -> bool {
    &&& c1.id == c2.id
    &&& c1.grade == c2.grade
    &&& c1.pos == c2.pos
    &&& c1.max_enemies == c2.max_enemies
    &&& c1.current_enemies == c2.current_enemies
    &&& c1.status == c2.status
    &&& c1.decorations@ == c2.decorations@
    &&& c1.enemies@ == c2.enemies@
}

/// Two chests agree on every observable field.
pub open spec fn chests_agree(c1: ItemChest, c2: ItemChest) -> bool {
    &&& c1.id == c2.id
    &&& c1.pos == c2.pos
    &&& c1.contents@ == c2.contents@
    &&& c1.health == c2.health
    &&& c1.pos_history@ == c2.pos_history@
}

/// Two camps generated from the same stream state, node and index are
/// observably identical.
proof fn lemma_camp_deterministic(s: Seq<u64>, node: EncounterNode, i: int, c1: Camp, c2: Camp)
    requires
        camp_matches(s, node, i, c1),
        camp_matches(s, node, i, c2),
    ensures
        camps_agree(c1, c2),
{
    assert forall|j: int|
        0 <= j < CAMP_DECORATIONS implies c1.decorations@[j] == c2.decorations@[j] by {
        assert(c1.decorations@[j].pos.x == c2.decorations@[j].pos.x);
        assert(c1.decorations@[j].pos.y == c2.decorations@[j].pos.y);
    }
    assert(c1.decorations@ =~= c2.decorations@);
    assert forall|j: int| 0 <= j < CAMP_ENEMIES implies c1.enemies@[j] == c2.enemies@[j] by {
        assert(enemy_matches(
            s,
            i,
            world_x(node.row as int),
            world_y(node.col as int),
            c1.enemies@[j],
            j,
        ));
    }
    assert(c1.enemies@ =~= c2.enemies@);
}

/// Two chests generated from the same stream state, coordinate and index are
/// observably identical.
proof fn lemma_chest_deterministic(
    s: Seq<u64>,
    coord: EncounterNode,
    i: int,
    c1: ItemChest,
    c2: ItemChest,
)
    requires
        chest_matches(s, coord, i, c1),
        chest_matches(s, coord, i, c2),
    ensures
        chests_agree(c1, c2),
{
    assert(c1.contents@ =~= c2.contents@);
    assert(c1.pos_history@ =~= c2.pos_history@);
}

/// Determinism law: two worlds generated from one seed and the same node and
/// chest lists agree camp for camp and chest for chest, with identical
/// grades, positions, special indices, drop flags and loot contents. Two
/// independent generation runs therefore reproduce the same world.
pub proof fn lemma_generation_deterministic(
    seed: u64,
    nodes: Seq<EncounterNode>,
    chest_coords: Seq<EncounterNode>,
    w1: World,
    w2: World,
)
    requires
        world_matches(seed, nodes, chest_coords, w1),
        world_matches(seed, nodes, chest_coords, w2),
    ensures
        w1.camps@.len() == w2.camps@.len(),
        w1.chests@.len() == w2.chests@.len(),
        forall|i: int|
            0 <= i < w1.camps@.len() ==> camps_agree(#[trigger] w1.camps@[i], w2.camps@[i]),
        forall|i: int|
            0 <= i < w1.chests@.len() ==> chests_agree(#[trigger] w1.chests@[i], w2.chests@[i]),
{
    assert forall|i: int|
        0 <= i < w1.camps@.len() implies camps_agree(#[trigger] w1.camps@[i], w2.camps@[i]) by {
        lemma_camp_deterministic(
            stream_at_camp(seed_stream(seed), i),
            nodes[i],
            i,
            w1.camps@[i],
            w2.camps@[i],
        );
    }
    let cs = stream_at_camp(seed_stream(seed), nodes.len() as int);
    assert forall|i: int|
        0 <= i < w1.chests@.len() implies chests_agree(
        #[trigger] w1.chests@[i],
        w2.chests@[i],
    ) by {
        lemma_chest_deterministic(
            stream_at_chest(cs, i),
            chest_coords[i],
            i,
            w1.chests@[i],
            w2.chests@[i],
        );
    }
}

/// Special-enemy uniqueness law: in any generated camp exactly one enemy
/// carries the special flag; that enemy's drop flag is forced true, and
/// every other enemy's drop flag is the outcome of its own independent roll.
pub proof fn lemma_special_enemy_unique(s: Seq<u64>, node: EncounterNode, i: int, c: Camp)
    requires
        camp_matches(s, node, i, c),
    ensures
        exists|k: int| 0 <= k < c.enemies@.len() && (#[trigger] c.enemies@[k]).special,
        forall|a: int, b: int|
            0 <= a < c.enemies@.len() && 0 <= b < c.enemies@.len() && (
            #[trigger] c.enemies@[a]).special && (#[trigger] c.enemies@[b]).special ==> a == b,
        forall|a: int|
            0 <= a < c.enemies@.len() && (#[trigger] c.enemies@[a]).special
                ==> c.enemies@[a].drops_powerup,
        forall|a: int|
            0 <= a < c.enemies@.len() && !(#[trigger] c.enemies@[a]).special
                ==> c.enemies@[a].drops_powerup == (take_u32(
                drop_state(camp_body_state(s), camp_special_at(s) as int, a),
                0,
                DROP_ROLL_MAX,
            ) < POWERUP_DROP_CHANCE),
{
    let k = camp_special_at(s) as int;
    assert(enemy_matches(
        s,
        i,
        world_x(node.row as int),
        world_y(node.col as int),
        c.enemies@[k],
        k,
    ));
    assert(0 <= k < c.enemies@.len() && (c.enemies@[k]).special);
}

} // verus!
