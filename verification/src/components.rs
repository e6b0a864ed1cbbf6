//! Per-entity data fragments shared across the gameplay systems, and the
//! small rules that read or update them.

use vstd::prelude::*;

verus! {

/// Hit points of one entity.
#[derive(Clone, Copy, PartialEq, Eq, Structural, Debug)]
pub struct Health {
    pub current: u8,
    pub max: u8,
}

/// Marker holding a player's stable id.
#[derive(Clone, Copy, PartialEq, Eq, Structural, Debug)]
pub struct Player(pub u8);

/// Marker holding an enemy's stable id.
#[derive(Clone, Copy, PartialEq, Eq, Structural, Debug)]
pub struct Enemy(pub u8);

/// Running score of the local player.
#[derive(Clone, Copy, PartialEq, Eq, Structural, Debug)]
pub struct Score {
    pub current_score: u8,
}

/// The powerup identity an enemy can drop; fixed per camp grade.
#[derive(Clone, Copy, PartialEq, Eq, Structural, Debug)]
pub enum PowerUpType {
    MaxHPUp,
    DamageDealtUp,
    DamageReductionUp,
    AttackSpeedUp,
    MovementSpeedUp,
}

/// Damage dealt by one player weapon hit.
pub const PLAYER_DAMAGE: u8 = 10;

/// Subtracts `amount` hit points, stopping at zero instead of wrapping. The
/// maximum is untouched.
pub fn apply_damage(h: &mut Health, amount: u8)
    ensures
        final(h).current == if old(h).current >= amount {
            old(h).current - amount
        } else {
            0
        },
        final(h).max == old(h).max,
{
    match h.current.checked_sub(amount) {
        Some(v) => {
            h.current = v;
        },
        None => {
            h.current = 0;
        },
    }
}

/// An enemy leaves the world exactly when its hit points are exhausted.
pub open spec fn enemy_alive(p: (Enemy, Health)) -> bool {
    p.1.current > 0
}

/// Drops every enemy whose hit points have reached zero, keeping the rest in
/// order.
pub fn despawn_dead_enemies(enemies: &mut Vec<(Enemy, Health)>)
    ensures
        final(enemies)@ == old(enemies)@.filter(|p: (Enemy, Health)| enemy_alive(p)),
{
    let mut kept: Vec<(Enemy, Health)> = Vec::new();
    let n = enemies.len();
    let mut i: usize = 0;
    while i < n
        invariant
            i <= n,
            n == enemies@.len(),
            enemies@ == old(enemies)@,
            kept@ == enemies@.subrange(0, i as int).filter(|p: (Enemy, Health)| enemy_alive(p)),
        decreases n - i,
    {
        let p = enemies[i];
        proof {
            reveal(Seq::filter);
            assert(enemies@.subrange(0, i as int + 1).drop_last() =~= enemies@.subrange(
                0,
                i as int,
            ));
            assert(enemies@.subrange(0, i as int + 1).last() == p);
        }
        if p.1.current > 0 {
            kept.push(p);
        }
        i = i + 1;
    }
    proof {
        assert(enemies@.subrange(0, n as int) =~= enemies@);
    }
    *enemies = kept;
}

/// The scale factor applied to a player's health bar: current over maximum
/// hit points in whole units.
pub fn health_bar_scale(h: &Health) -> (r: u8)
    requires
        h.max > 0,
    ensures
        r == h.current / h.max,
{
    h.current / h.max
}

} // verus!
