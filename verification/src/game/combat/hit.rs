//! Whether an attack lands, and how hard the screen freezes when it does.
//! Whether the attacker's hitbox overlaps the defender's hurtbox is measured
//! in world coordinates elsewhere and arrives here as a yes/no.
use vstd::prelude::*;
use crate::game::combat::fsm::{CombatPhase, CombatState};
use crate::game::combat::moves::move_slot;

verus! {

/// The damage each move deals, indexed by `MoveId::index`.
pub const DEFAULT_MOVE_DAMAGE: [u16; 6] = [20, 20, 25, 0, 0, 0];

/// Freeze frames for a hit: heavier moves freeze longer (8 from 30 damage,
/// 5 from 20, 3 below).
pub open spec fn freeze_for_damage(damage: u16) -> u16 {
    if damage >= 30 {
        8
    } else if damage >= 20 {
        5
    } else {
        3
    }
}

/// A landed hit: the move's damage and the freeze it triggers.
#[derive(Debug, Clone, Copy, PartialEq, Eq, Structural)]
pub struct HitEvent {
    pub damage: u16,
    pub freeze_frames: u16,
}

/// What an attack does: nothing once this swing has already landed, without
/// an active hitbox, outside the active phase, without overlap or without a
/// move; otherwise a hit with the move's damage.
pub open spec fn hit_outcome(
    hit_landed: bool,
    hitbox_active: Option<bool>,
    combat: CombatState,
    overlaps: bool,
    damage: Seq<u16>,
) -> Option<HitEvent> {
    if hit_landed || hitbox_active != Some(true) || combat.phase != CombatPhase::Active
        || !overlaps {
        None
    } else {
        match combat.current_move {
            Some(m) => {
                let d = damage[move_slot(m)];
                Some(HitEvent { damage: d, freeze_frames: freeze_for_damage(d) })
            },
            None => None,
        }
    }
}

/// The freeze frames for `damage`.
pub fn hit_freeze_frames(damage: u16) -> (r: u16)
    ensures
        r == freeze_for_damage(damage),
{
    if damage >= 30 {
        8
    } else if damage >= 20 {
        5
    } else {
        3
    }
}

/// Resolves an attack. `hit_landed`: this swing already hit something;
/// `hitbox_active`: the attacker's hitbox, if it has one, is live; `overlaps`:
/// that hitbox overlaps the defender's hurtbox; `damage`: each move's damage.
pub fn check_hit(
    hit_landed: bool,
    hitbox_active: Option<bool>,
    combat: &CombatState,
    overlaps: bool,
    damage: &[u16; 6],
) -> (r: Option<HitEvent>)
    ensures
        r == hit_outcome(hit_landed, hitbox_active, *combat, overlaps, damage@),
{
    if hit_landed {
        return None;
    }
    match hitbox_active {
        Some(true) => {},
        _ => {
            return None;
        },
    }
    if combat.phase != CombatPhase::Active {
        return None;
    }
    if !overlaps {
        return None;
    }
    match combat.current_move {
        Some(m) => {
            let d = damage[m.index()];
            Some(HitEvent { damage: d, freeze_frames: hit_freeze_frames(d) })
        },
        None => None,
    }
}

} // verus!
