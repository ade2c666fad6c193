//! Jump timing: jump buffering (a press shortly before landing still jumps)
//! and coyote time (a press shortly after walking off a ledge still jumps),
//! both measured in fixed ticks.
use vstd::prelude::*;

verus! {

/// The tick-based jump bookkeeping of the player.
#[derive(Debug, Clone, Copy, PartialEq, Eq, Structural)]
pub struct JumpWindows {
    /// A press this tick still waits to be handled.
    pub jump_to_consume: bool,
    /// The last press may still be replayed on landing (re-armed on landing).
    pub buffered_jump_usable: bool,
    /// A jump off the last ledge is still allowed (re-armed on landing).
    pub coyote_usable: bool,
    /// The jump button was released while rising, so gravity is increased.
    pub ended_jump_early: bool,
    pub tick_jump_was_pressed: u64,
    pub tick_left_grounded: u64,
}

/// Whether the last press lies within `buffer_ticks` of `tick` and may be replayed.
pub open spec fn spec_has_buffered_jump(w: JumpWindows, tick: u64, buffer_ticks: u16) -> bool {
    w.buffered_jump_usable && tick <= w.tick_jump_was_pressed + buffer_ticks
}

/// Whether a jump off the last ledge is still allowed at `tick`: only in the
/// air, once, within `coyote_ticks` of leaving the ground.
pub open spec fn spec_can_use_coyote(
    w: JumpWindows,
    grounded: bool,
    tick: u64,
    coyote_ticks: u16,
) -> bool {
    w.coyote_usable && !grounded && tick <= w.tick_left_grounded + coyote_ticks
}

/// Whether handling the button at `tick` jumps: a pending or buffered press, on
/// the ground or within coyote time.
pub open spec fn jump_fires(
    w: JumpWindows,
    grounded: bool,
    tick: u64,
    buffer_ticks: u16,
    coyote_ticks: u16,
) -> bool {
    (w.jump_to_consume || spec_has_buffered_jump(w, tick, buffer_ticks)) && (grounded
        || spec_can_use_coyote(w, grounded, tick, coyote_ticks))
}

/// The windows after landing: both windows re-armed, the early release cleared.
pub open spec fn after_landing(w: JumpWindows) -> JumpWindows {
    JumpWindows { coyote_usable: true, buffered_jump_usable: true, ended_jump_early: false, ..w }
}

/// The windows after a jump: both windows spent and the press forgotten.
pub open spec fn after_jump(w: JumpWindows) -> JumpWindows {
    JumpWindows {
        jump_to_consume: false,
        buffered_jump_usable: false,
        coyote_usable: false,
        ended_jump_early: false,
        tick_jump_was_pressed: 0,
        tick_left_grounded: w.tick_left_grounded,
    }
}

impl JumpWindows {
    /// No press pending and both windows closed.
    pub fn new() -> (r: Self)
        ensures
            r == (JumpWindows {
                jump_to_consume: false,
                buffered_jump_usable: false,
                coyote_usable: false,
                ended_jump_early: false,
                tick_jump_was_pressed: 0,
                tick_left_grounded: 0,
            }),
    {
        JumpWindows {
            jump_to_consume: false,
            buffered_jump_usable: false,
            coyote_usable: false,
            ended_jump_early: false,
            tick_jump_was_pressed: 0,
            tick_left_grounded: 0,
        }
    }

    /// Records a jump press on `tick`.
    pub fn press(&mut self, tick: u64)
        ensures
            *final(self) == (JumpWindows {
                jump_to_consume: true,
                tick_jump_was_pressed: tick,
                ..*old(self)
            }),
    {
        self.jump_to_consume = true;
        self.tick_jump_was_pressed = tick;
    }

    pub fn has_buffered_jump(&self, tick: u64, buffer_ticks: u16) -> (r: bool)
        requires
            self.tick_jump_was_pressed + buffer_ticks <= u64::MAX,
        ensures
            r == spec_has_buffered_jump(*self, tick, buffer_ticks),
    {
        self.buffered_jump_usable && tick <= self.tick_jump_was_pressed + buffer_ticks as u64
    }

    pub fn can_use_coyote(&self, grounded: bool, tick: u64, coyote_ticks: u16) -> (r: bool)
        requires
            self.tick_left_grounded + coyote_ticks <= u64::MAX,
        ensures
            r == spec_can_use_coyote(*self, grounded, tick, coyote_ticks),
    {
        self.coyote_usable && !grounded && tick <= self.tick_left_grounded + coyote_ticks as u64
    }

    /// Handles the jump button for one tick. Releasing the button while rising in
    /// the air ends the jump early. A pending or buffered press jumps when on the
    /// ground or within coyote time; a pending press is used up either way.
    /// Returns whether the jump happens.
    pub fn handle_jump(
        &mut self,
        grounded: bool,
        jump_held: bool,
        rising: bool,
        tick: u64,
        buffer_ticks: u16,
        coyote_ticks: u16,
    ) -> (r: bool)
        requires
            old(self).tick_jump_was_pressed + buffer_ticks <= u64::MAX,
            old(self).tick_left_grounded + coyote_ticks <= u64::MAX,
        ensures
            ({
                let ended = old(self).ended_jump_early || (!grounded && !jump_held && rising);
                let w1 = JumpWindows { ended_jump_early: ended, ..*old(self) };
                let wants = old(self).jump_to_consume || spec_has_buffered_jump(
                    *old(self),
                    tick,
                    buffer_ticks,
                );
                let can = grounded || spec_can_use_coyote(*old(self), grounded, tick, coyote_ticks);
                &&& r == jump_fires(*old(self), grounded, tick, buffer_ticks, coyote_ticks)
                &&& !wants ==> *final(self) == w1
                &&& wants && can ==> *final(self) == after_jump(w1)
                &&& wants && !can ==> *final(self) == JumpWindows { jump_to_consume: false, ..w1 }
            }),
    {
        if !self.ended_jump_early && !grounded && !jump_held && rising {
            self.ended_jump_early = true;
        }
        if !self.jump_to_consume && !self.has_buffered_jump(tick, buffer_ticks) {
            return false;
        }
        let jumped = if grounded || self.can_use_coyote(grounded, tick, coyote_ticks) {
            self.ended_jump_early = false;
            self.tick_jump_was_pressed = 0;
            self.buffered_jump_usable = false;
            self.coyote_usable = false;
            true
        } else {
            false
        };
        self.jump_to_consume = false;
        jumped
    }

    /// Updates the windows after physics: landing re-arms both windows and
    /// clears the early release; leaving the ground starts coyote time.
    pub fn ground_contact(&mut self, was_grounded: bool, grounded: bool, tick: u64)
        ensures
            !was_grounded && grounded ==> *final(self) == after_landing(*old(self)),
            was_grounded && !grounded ==> *final(self) == (JumpWindows {
                tick_left_grounded: tick,
                ..*old(self)
            }),
            was_grounded == grounded ==> *final(self) == *old(self),
    {
        if !was_grounded && grounded {
            self.coyote_usable = true;
            self.buffered_jump_usable = true;
            self.ended_jump_early = false;
        } else if was_grounded && !grounded {
            self.tick_left_grounded = tick;
        }
    }

    /// A wall jump spends coyote time and the pending press.
    pub fn wall_jumped(&mut self)
        ensures
            *final(self) == (JumpWindows {
                coyote_usable: false,
                ended_jump_early: false,
                jump_to_consume: false,
                ..*old(self)
            }),
    {
        self.coyote_usable = false;
        self.ended_jump_early = false;
        self.jump_to_consume = false;
    }

    /// Drops the pending press without jumping.
    pub fn cancel_press(&mut self)
        ensures
            *final(self) == (JumpWindows { jump_to_consume: false, ..*old(self) }),
    {
        self.jump_to_consume = false;
    }
}

/// Jump buffering: a press on tick `p` that found no ground is replayed on
/// landing if the landing tick `t` is at most `buffer_ticks` later (handling the
/// button in the air without jumping keeps the press tick, see `handle_jump`).
pub proof fn lemma_buffered_press_jumps_on_landing(
    w: JumpWindows,
    p: u64,
    t: u64,
    buffer_ticks: u16,
    coyote_ticks: u16,
)
    requires
        w.tick_jump_was_pressed == p,
        p <= t <= p + buffer_ticks,
    ensures
        jump_fires(after_landing(w), true, t, buffer_ticks, coyote_ticks),
{
}

/// Coyote time: after walking off a ledge on tick `l`, a press handled at tick
/// `t` at most `coyote_ticks` later still jumps from the air, once.
pub proof fn lemma_coyote_jump(w: JumpWindows, l: u64, t: u64, coyote_ticks: u16)
    requires
        w.coyote_usable,
        w.jump_to_consume,
        w.tick_left_grounded == l,
        l <= t <= l + coyote_ticks,
    ensures
        spec_can_use_coyote(w, false, t, coyote_ticks),
        !after_jump(w).coyote_usable,
        !spec_can_use_coyote(after_jump(w), false, t, coyote_ticks),
{
}

} // verus!
