//! Collision layers.
use vstd::prelude::*;

verus! {

/// The layer a collision volume belongs to.
#[derive(Debug, Clone, Copy, PartialEq, Eq, Hash, Structural)]
pub enum CollisionLayer {
    Pushbox,
    Hurtbox,
    Hitbox,
    Parrybox,
}

} // verus!
