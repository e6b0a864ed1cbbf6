//! State synchronization: the event flow feeding authoritative and
//! predicted positions into per-entity ring buffers.
//!
//! Two message kinds arrive as discrete events and are processed in arrival
//! order with no reordering: authoritative ticks from the host and intents
//! from a client. On receipt, every registered player whose id matches the
//! event receives `set(sequence, position)` into its buffer; an event naming
//! no registered player is a silent no-op. Independently, once per fixed
//! simulation step, the locally controlled entity writes its just-computed
//! position into its own buffer at the current tick, unconditionally: an
//! authoritative message about a past tick simply overwrites the slot, with
//! no reconciliation or replay — that accept-and-overwrite behaviour is the
//! documented baseline. Duplicate or out-of-order messages for one sequence
//! are tolerated only in that the last one processed wins.
//!
//! Positions are an opaque payload here: the buffers are generic in them.

use vstd::prelude::*;
use crate::buffer::{BUFFER_CAPACITY, CircularBuffer, slot_of};
use crate::components::{Health, Player};
use crate::worldgen::Vec2i;

verus! {

/// Number of player entities registered at session start.
pub const MAX_PLAYERS: usize = 4;

/// Hit points every player starts with.
pub const PLAYER_DEFAULT_HP: u8 = 100;

/// Spacing of the default player spawn positions.
pub const PLAYER_SPAWN_STEP: i64 = 100;

/// The information the host produces about one entity on each tick.
#[derive(Clone, Copy, Debug)]
pub struct PlayerTick<T> {
    pub pos: T,
    pub hp: u8,
}

/// An authoritative tick from the host, addressed to one entity.
#[derive(Clone, Copy, Debug)]
pub struct PlayerTickEvent<T> {
    pub seq_num: u16,
    pub id: u8,
    pub tick: PlayerTick<T>,
}

/// The intent a client produces on each tick. The direction angle travels
/// as its raw bit pattern; callers convert at the wire.
#[derive(Clone, Copy, Debug)]
pub struct UserCmd<T> {
    pub pos: T,
    pub dir: u32,
}

/// A client intent, addressed to one entity.
#[derive(Clone, Copy, Debug)]
pub struct UserCmdEvent<T> {
    pub seq_num: u16,
    pub id: u8,
    pub tick: UserCmd<T>,
}

/// One registered player entity: its id and its position history.
pub struct PlayerEntity<T> {
    pub player: Player,
    pub buf: CircularBuffer<T>,
}

/// Every registered buffer has the shared capacity.
pub open spec fn entities_wf<T>(es: Seq<PlayerEntity<T>>) -> bool {
    forall|i: int| 0 <= i < es.len() ==> (#[trigger] es[i]).buf.wf()
}

/// How one registered entity relates to its state before an event `(id,
/// seq_num, pos)` was applied: a matching id had the position written at the
/// sequence's slot, any other entity is untouched.
pub open spec fn event_applied<T>(
    before: PlayerEntity<T>,
    after: PlayerEntity<T>,
    id: u8,
    seq_num: u16,
    pos: T,
) -> bool {
    &&& after.player == before.player
    &&& after.buf@ == if before.player.0 == id {
        before.buf@.update(slot_of(seq_num), pos)
    } else {
        before.buf@
    }
}

/// Applies one event's write to every matching registered player.
fn apply_event<T: Copy>(players: &mut Vec<PlayerEntity<T>>, id: u8, seq_num: u16, pos: T)
    requires
        entities_wf(old(players)@),
    ensures
        entities_wf(final(players)@),
        final(players)@.len() == old(players)@.len(),
        forall|i: int|
            0 <= i < old(players)@.len() ==> event_applied(
                old(players)@[i],
                #[trigger] final(players)@[i],
                id,
                seq_num,
                pos,
            ),
{
    let n = players.len();
    let mut i: usize = 0;
    while i < n
        invariant
            i <= n,
            n == players@.len(),
            players@.len() == old(players)@.len(),
            entities_wf(players@),
            forall|t: int|
                0 <= t < i ==> event_applied(
                    old(players)@[t],
                    #[trigger] players@[t],
                    id,
                    seq_num,
                    pos,
                ),
            forall|t: int| i <= t < n ==> players@[t] == old(players)@[t],
        decreases n - i,
    {
        if players[i].player.0 == id {
            players[i].buf.set(seq_num, pos);
        }
        i = i + 1;
    }
}

/// Drains one authoritative host tick: the referenced entity's buffer
/// receives `set(sequence, position)`; an event whose id matches no
/// registered player changes nothing (a silent no-op).
pub fn packet<T: Copy>(players: &mut Vec<PlayerEntity<T>>, ev: &PlayerTickEvent<T>)
    requires
        entities_wf(old(players)@),
    ensures
        entities_wf(final(players)@),
        final(players)@.len() == old(players)@.len(),
        forall|i: int|
            0 <= i < old(players)@.len() ==> event_applied(
                old(players)@[i],
                #[trigger] final(players)@[i],
                ev.id,
                ev.seq_num,
                ev.tick.pos,
            ),
{
    apply_event(players, ev.id, ev.seq_num, ev.tick.pos);
}

/// Drains one client intent: the referenced entity's buffer receives
/// `set(sequence, position)`; an unknown id changes nothing (a silent
/// no-op).
pub fn usercmd<T: Copy>(players: &mut Vec<PlayerEntity<T>>, ev: &UserCmdEvent<T>)
    requires
        entities_wf(old(players)@),
    ensures
        entities_wf(final(players)@),
        final(players)@.len() == old(players)@.len(),
        forall|i: int|
            0 <= i < old(players)@.len() ==> event_applied(
                old(players)@[i],
                #[trigger] final(players)@[i],
                ev.id,
                ev.seq_num,
                ev.tick.pos,
            ),
{
    apply_event(players, ev.id, ev.seq_num, ev.tick.pos);
}

/// Local prediction: every fixed simulation step the locally controlled
/// entity writes its just-computed position into its own buffer at the
/// current tick, unconditionally — a concurrent authoritative write for the
/// same slot is simply overwritten by whichever runs last.
pub fn fixed<T: Copy>(tick: u16, buf: &mut CircularBuffer<T>, current_pos: T)
    requires
        old(buf).wf(),
    ensures
        final(buf).wf(),
        final(buf)@ == old(buf)@.update(slot_of(tick), current_pos),
{
    buf.set(tick, current_pos);
}

/// One player entity as created at session start, before any movement.
pub struct PlayerSpawn {
    pub player: Player,
    pub health: Health,
    pub buf: CircularBuffer<Vec2i>,
    pub is_local: bool,
}

/// The default spawn position of player `i`.
pub open spec fn player_spawn_pos(i: int) -> Vec2i {
    Vec2i { x: ((PLAYER_SPAWN_STEP as int) * i) as i64, y: ((PLAYER_SPAWN_STEP as int) * i) as i64 }
}

/// Player `i` exactly as spawned: its id, full default health, a position
/// history replicating its spawn position, and the local-control mark on
/// player 0 for the host and player 1 for a client.
pub open spec fn player_spawn_matches(p: PlayerSpawn, i: int, is_host: bool) -> bool {
    &&& p.player.0 == i
    &&& p.health.current == PLAYER_DEFAULT_HP
    &&& p.health.max == PLAYER_DEFAULT_HP
    &&& p.buf.wf()
    &&& p.buf@ == Seq::new(BUFFER_CAPACITY as nat, |t: int| player_spawn_pos(i))
    &&& p.is_local == if is_host {
        i == 0
    } else {
        i == 1
    }
}

/// Registers the session's players: `MAX_PLAYERS` entities with ids in
/// registration order, default health, and position histories seeded with
/// their spawn positions. Exactly one is marked locally controlled: player 0
/// on the host, player 1 on a client.
pub fn spawn_players(is_host: bool) -> (ps: Vec<PlayerSpawn>)
    ensures
        ps@.len() == MAX_PLAYERS,
        forall|i: int|
            0 <= i < MAX_PLAYERS ==> player_spawn_matches(#[trigger] ps@[i], i, is_host),
{
    let mut ps: Vec<PlayerSpawn> = Vec::new();
    let mut i: usize = 0;
    while i < MAX_PLAYERS
        invariant
            i <= MAX_PLAYERS,
            ps@.len() == i,
            forall|t: int| 0 <= t < i ==> player_spawn_matches(#[trigger] ps@[t], t, is_host),
        decreases MAX_PLAYERS - i,
    {
        let pos = Vec2i {
            x: PLAYER_SPAWN_STEP * (i as i64),
            y: PLAYER_SPAWN_STEP * (i as i64),
        };
        let buf = CircularBuffer::new_from(pos);
        let is_local = if is_host {
            i == 0
        } else {
            i == 1
        };
        let p = PlayerSpawn {
            player: Player(i as u8),
            health: Health { current: PLAYER_DEFAULT_HP, max: PLAYER_DEFAULT_HP },
            buf,
            is_local,
        };
        ps.push(p);
        i = i + 1;
    }
    ps
}

} // verus!
