//! Camp lifecycle: a two-state machine layered on generator output.
//!
//! A camp starts `Active` and becomes `Cleared` the first simulation step
//! that finds its current enemy count at zero. `Cleared` is terminal: no
//! transition leads back to `Active`, whatever happens to the enemy count
//! afterwards. The enemy count itself is maintained by an external combat
//! collaborator, never by this module.

use vstd::prelude::*;
use crate::worldgen::Camp;

verus! {

/// Lifecycle state of one camp.
#[derive(Clone, Copy, PartialEq, Eq, Structural, Debug)]
pub enum CampStatus {
    Active,
    Cleared,
}

/// One lifecycle transition: an `Active` camp whose enemies are all gone
/// becomes `Cleared`; any other camp keeps its status.
pub open spec fn step_status(st: CampStatus, current_enemies: u8) -> CampStatus {
    if st is Active && current_enemies == 0 {
        CampStatus::Cleared
    } else {
        st
    }
}

/// Applies one lifecycle transition to one camp; nothing else changes.
pub fn step_camp(c: &mut Camp)
    ensures
        final(c).status == step_status(old(c).status, old(c).current_enemies),
        final(c).id == old(c).id,
        final(c).grade == old(c).grade,
        final(c).pos == old(c).pos,
        final(c).max_enemies == old(c).max_enemies,
        final(c).current_enemies == old(c).current_enemies,
        final(c).decorations == old(c).decorations,
        final(c).enemies == old(c).enemies,
{
    match c.status {
        CampStatus::Active => {
            if c.current_enemies == 0 {
                c.status = CampStatus::Cleared;
            }
        },
        CampStatus::Cleared => {},
    }
}

/// Relates one camp before and after a lifecycle sweep: the status stepped,
/// everything else untouched.
pub open spec fn camp_stepped(before: Camp, after: Camp) -> bool {
    &&& after.status == step_status(before.status, before.current_enemies)
    &&& after.id == before.id
    &&& after.grade == before.grade
    &&& after.pos == before.pos
    &&& after.max_enemies == before.max_enemies
    &&& after.current_enemies == before.current_enemies
    &&& after.decorations == before.decorations
    &&& after.enemies == before.enemies
}

/// Runs the lifecycle transition over every camp, once per simulation step.
pub fn handle_camp_clear(camps: &mut Vec<Camp>)
    ensures
        final(camps)@.len() == old(camps)@.len(),
        forall|i: int|
            0 <= i < old(camps)@.len() ==> camp_stepped(
                old(camps)@[i],
                #[trigger] final(camps)@[i],
            ),
{
    let n = camps.len();
    let mut i: usize = 0;
    while i < n
        invariant
            i <= n,
            n == camps@.len(),
            camps@.len() == old(camps)@.len(),
            forall|t: int|
                0 <= t < i ==> camp_stepped(old(camps)@[t], #[trigger] camps@[t]),
            forall|t: int| i <= t < n ==> camps@[t] == old(camps)@[t],
        decreases n - i,
    {
        step_camp(&mut camps[i]);
        i = i + 1;
    }
}

/// Records an externally driven change of a camp's current enemy count. The
/// lifecycle status is untouched: in particular a `Cleared` camp stays
/// `Cleared` even when the count is reset to a nonzero value.
pub fn set_current_enemies(c: &mut Camp, count: u8)
    ensures
        final(c).current_enemies == count,
        final(c).status == old(c).status,
        final(c).id == old(c).id,
        final(c).grade == old(c).grade,
        final(c).pos == old(c).pos,
        final(c).max_enemies == old(c).max_enemies,
        final(c).decorations == old(c).decorations,
        final(c).enemies == old(c).enemies,
{
    c.current_enemies = count;
}

/// Lifecycle monotonicity law: the transition never leaves `Cleared`,
/// whatever the current enemy count reads, so once a camp is `Cleared` no
/// later sweep changes it back.
pub proof fn lemma_cleared_is_terminal(current_enemies: u8)
    ensures
        step_status(CampStatus::Cleared, current_enemies) == CampStatus::Cleared,
{
}

} // verus!
