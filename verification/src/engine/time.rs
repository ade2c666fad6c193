//! The frame-freeze counter of the fixed-timestep clock (hit-stop): while it
//! runs, no fixed steps are taken, and it counts down once per rendered frame.
use vstd::prelude::*;

verus! {

/// Fixed-step rate the game logic runs at by default.
pub const DEFAULT_FIXED_HZ: u32 = 60;

/// Most fixed steps taken on one rendered frame.
pub const MAX_STEPS: u32 = 5;

/// Rendered frames left during which fixed steps are held back.
#[derive(Debug, Clone, Copy, PartialEq, Eq, Structural)]
pub struct FreezeCounter {
    pub frames: u16,
}

impl FreezeCounter {
    /// Not frozen.
    pub fn new() -> (r: Self)
        ensures
            r.frames == 0,
    {
        FreezeCounter { frames: 0 }
    }

    /// Freezes for `frames` frames; a shorter freeze never cuts a longer one
    /// short, so overlapping freezes last as long as the longest.
    pub fn freeze(&mut self, frames: u16)
        ensures
            final(self).frames == (if frames > old(self).frames { frames } else { old(self).frames }),
    {
        if frames > self.frames {
            self.frames = frames;
        }
    }

    /// Called once per rendered frame before stepping: while frozen, uses up
    /// one frame and returns `true` (take no steps this frame).
    pub fn consume_frame(&mut self) -> (r: bool)
        ensures
            r == (old(self).frames > 0),
            final(self).frames == (if r { old(self).frames - 1 } else { 0 }),
    {
        if self.frames > 0 {
            self.frames -= 1;
            true
        } else {
            false
        }
    }

    pub fn is_frozen(&self) -> (r: bool)
        ensures
            r == (self.frames > 0),
    {
        self.frames > 0
    }

    pub fn remaining(&self) -> (r: u16)
        ensures
            r == self.frames,
    {
        self.frames
    }
}

/// Fixed steps to take on a frame whose accumulated time holds `whole_steps`
/// whole steps: none while frozen (the freeze then counts down), otherwise
/// at most `MAX_STEPS`.
pub fn steps_this_frame(freeze: &mut FreezeCounter, whole_steps: u64) -> (r: u32)
    ensures
        *final(freeze) == (if old(freeze).frames > 0 {
            FreezeCounter { frames: (old(freeze).frames - 1) as u16 }
        } else {
            *old(freeze)
        }),
        r == (if old(freeze).frames > 0 {
            0
        } else if whole_steps < MAX_STEPS {
            whole_steps as int
        } else {
            MAX_STEPS as int
        }),
{
    if freeze.consume_frame() {
        return 0;
    }
    if whole_steps < MAX_STEPS as u64 {
        whole_steps as u32
    } else {
        MAX_STEPS
    }
}

} // verus!
