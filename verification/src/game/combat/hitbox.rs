//! The tick window of a hitbox. Where it strikes and how hard are float data
//! kept beside it; when it strikes is decided here.
use vstd::prelude::*;

verus! {

/// A hitbox's inclusive tick range: it can deal damage from `start_tick`
/// through `end_tick`.
#[derive(Debug, Clone, Copy, PartialEq, Eq, Structural)]
pub struct Hitbox {
    pub start_tick: u64,
    pub end_tick: u64,
}

impl Hitbox {
    /// Whether the hitbox can deal damage on `tick`: both ends of the window
    /// count.
    pub fn is_active(&self, tick: u64) -> (r: bool)
        ensures
            r == (self.start_tick <= tick && tick <= self.end_tick),
    {
        tick >= self.start_tick && tick <= self.end_tick
    }
}

} // verus!
