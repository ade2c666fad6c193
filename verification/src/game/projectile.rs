//! The projectile pool's rules: a new projectile takes the first dead slot
//! and the pool grows only when every slot is in flight; a wall contact
//! ricochets a projectile a limited number of times; an active parry deflects
//! the first live projectile it touches.
use vstd::prelude::*;
use crate::game::combat::fsm::{CombatPhase, CombatState};
use crate::game::combat::moves::MoveId;

verus! {

/// Ricochets a projectile survives; the next wall contact destroys it.
pub const MAX_BOUNCES: u8 = 1;

/// The slot for a new projectile: the first dead one, or `None` when all are
/// alive (the pool then grows by one slot).
pub fn free_slot(alive: &[bool]) -> (r: Option<usize>)
    ensures
        r matches Some(i) ==> i < alive@.len() && !alive@[i as int] && forall|j: int|
            0 <= j < i ==> #[trigger] alive@[j],
        r is None ==> forall|j: int| 0 <= j < alive@.len() ==> #[trigger] alive@[j],
{
    let mut i: usize = 0;
    while i < alive.len()
        invariant
            i <= alive@.len(),
            forall|j: int| 0 <= j < i ==> #[trigger] alive@[j],
        decreases alive@.len() - i,
    {
        if !alive[i] {
            return Some(i);
        }
        i = i + 1;
    }
    None
}

/// What a wall contact does to a projectile that has ricocheted `bounces`
/// times: `true` when it ricochets once more, `false` when it is destroyed.
pub fn ricochets(bounces: u8) -> (r: bool)
    ensures
        r == (bounces < MAX_BOUNCES),
{
    bounces < MAX_BOUNCES
}

/// A parry deflects only while a parry move is in its active phase.
pub open spec fn parry_active(combat: CombatState) -> bool {
    combat.current_move == Some(MoveId::Parry) && combat.phase == CombatPhase::Active
}

/// The first projectile at index `i` or later that is alive and touches the
/// parry box.
pub open spec fn first_touching_from(alive: Seq<bool>, touching: Seq<bool>, i: int) -> Option<int>
    decreases alive.len() - i,
{
    if i < 0 || i >= alive.len() {
        None
    } else if alive[i] && touching[i] {
        Some(i)
    } else {
        first_touching_from(alive, touching, i + 1)
    }
}

/// Whether the combat state deflects projectiles now.
pub fn parry_deflects(combat: &CombatState) -> (r: bool)
    ensures
        r == parry_active(*combat),
{
    match combat.current_move {
        Some(MoveId::Parry) => combat.phase == CombatPhase::Active,
        _ => false,
    }
}

/// Deflects with the player's parry. Projectile `i` is alive when `alive[i]`,
/// touches the parry box when `touching[i]` and was fired by enemy
/// `sources[i]`. Only an active parry deflects: the first live projectile
/// that touches the box dies, and its source is returned; otherwise nothing
/// changes and the result is `None`.
pub fn check_parry_deflect(
    combat: &CombatState,
    alive: &mut [bool],
    touching: &[bool],
    sources: &[usize],
) -> (r: Option<usize>)
    requires
        touching@.len() == old(alive)@.len(),
        sources@.len() == old(alive)@.len(),
    ensures
        final(alive)@.len() == old(alive)@.len(),
        !parry_active(*combat) ==> r is None && final(alive)@ == old(alive)@,
        parry_active(*combat) ==> match first_touching_from(old(alive)@, touching@, 0) {
            Some(i) => r == Some(sources@[i]) && final(alive)@ == old(alive)@.update(i, false),
            None => r is None && final(alive)@ == old(alive)@,
        },
{
    if !parry_deflects(combat) {
        return None;
    }
    let ghost a0 = alive@;
    let mut i: usize = 0;
    while i < alive.len()
        invariant
            alive@ == a0,
            a0 == old(alive)@,
            parry_active(*combat),
            touching@.len() == a0.len(),
            sources@.len() == a0.len(),
            i <= a0.len(),
            first_touching_from(a0, touching@, 0) == first_touching_from(a0, touching@, i as int),
        decreases a0.len() - i,
    {
        if alive[i] && touching[i] {
            assert(first_touching_from(a0, touching@, i as int) == Some(i as int));
            alive[i] = false;
            return Some(sources[i]);
        }
        assert(first_touching_from(a0, touching@, i as int) == first_touching_from(
            a0,
            touching@,
            i + 1,
        ));
        i = i + 1;
    }
    None
}

} // verus!
