//! Move identities and their frame data in ticks.
use vstd::prelude::*;

verus! {

#[derive(Debug, Clone, Copy, PartialEq, Eq, Hash, Structural)]
pub enum MoveId {
    AttackHorizontal,
    AttackUp,
    AttackDown,
    Parry,
    Dash,
    Grapple,
}

/// The number of moves.
pub const MOVE_COUNT: usize = 6;

/// The table slot of a move, in declaration order.
pub open spec fn move_slot(id: MoveId) -> int {
    match id {
        MoveId::AttackHorizontal => 0,
        MoveId::AttackUp => 1,
        MoveId::AttackDown => 2,
        MoveId::Parry => 3,
        MoveId::Dash => 4,
        MoveId::Grapple => 5,
    }
}

impl MoveId {
    pub fn index(self) -> (r: usize)
        ensures
            r == move_slot(self),
            r < MOVE_COUNT,
    {
        match self {
            MoveId::AttackHorizontal => 0,
            MoveId::AttackUp => 1,
            MoveId::AttackDown => 2,
            MoveId::Parry => 3,
            MoveId::Dash => 4,
            MoveId::Grapple => 5,
        }
    }
}

/// A move's phase lengths in ticks at the current tick rate, and the tick at
/// which its cancel window opens (equal to the total when it has none).
#[derive(Debug, Clone, Copy, PartialEq, Eq, Structural)]
pub struct FrameData {
    pub startup_frames: u16,
    pub active_frames: u16,
    pub recovery_frames: u16,
    pub cancel_window_start: u16,
}

impl FrameData {
    /// The phase lengths add up within `u16`.
    pub open spec fn wf(self) -> bool {
        self.startup_frames + self.active_frames + self.recovery_frames <= u16::MAX
    }

    pub open spec fn spec_total(self) -> int {
        self.startup_frames + self.active_frames + self.recovery_frames
    }

    pub open spec fn spec_recovery_start(self) -> int {
        self.startup_frames + self.active_frames
    }

    pub fn total_frames(&self) -> (r: u16)
        requires
            self.wf(),
        ensures
            r == self.spec_total(),
    {
        self.startup_frames + self.active_frames + self.recovery_frames
    }

    /// The tick at which the active phase begins.
    pub fn active_start(&self) -> (r: u16)
        ensures
            r == self.startup_frames,
    {
        self.startup_frames
    }

    /// The tick at which the recovery phase begins.
    pub fn recovery_start(&self) -> (r: u16)
        requires
            self.wf(),
        ensures
            r == self.spec_recovery_start(),
    {
        self.startup_frames + self.active_frames
    }

    pub fn cancel_window_start(&self) -> (r: u16)
        ensures
            r == self.cancel_window_start,
    {
        self.cancel_window_start
    }
}

/// Frame data for every move, indexed by `MoveId::index`.
#[derive(Debug, Clone, Copy)]
pub struct MoveTable {
    pub frames: [FrameData; 6],
}

impl MoveTable {
    /// Every entry's phase lengths add up within `u16`.
    pub open spec fn wf(self) -> bool {
        forall|i: int| 0 <= i < MOVE_COUNT ==> (#[trigger] self.frames@[i]).wf()
    }

    /// The frame data of `id`.
    pub open spec fn spec_get(self, id: MoveId) -> FrameData {
        self.frames@[move_slot(id)]
    }

    pub fn get(&self, id: MoveId) -> (r: FrameData)
        ensures
            r == self.spec_get(id),
    {
        self.frames[id.index()]
    }
}

impl Default for MoveTable {
    /// The moves at the 60 Hz base tick rate.
    fn default() -> (r: Self)
        ensures
            r.wf(),
            r.spec_get(MoveId::AttackHorizontal) == (FrameData {
                startup_frames: 3,
                active_frames: 3,
                recovery_frames: 8,
                cancel_window_start: 10,
            }),
            r.spec_get(MoveId::AttackUp) == (FrameData {
                startup_frames: 3,
                active_frames: 4,
                recovery_frames: 8,
                cancel_window_start: 11,
            }),
            r.spec_get(MoveId::AttackDown) == (FrameData {
                startup_frames: 2,
                active_frames: 6,
                recovery_frames: 10,
                cancel_window_start: 18,
            }),
            r.spec_get(MoveId::Parry) == (FrameData {
                startup_frames: 0,
                active_frames: 6,
                recovery_frames: 14,
                cancel_window_start: 20,
            }),
            r.spec_get(MoveId::Dash) == (FrameData {
                startup_frames: 0,
                active_frames: 8,
                recovery_frames: 0,
                cancel_window_start: 8,
            }),
            r.spec_get(MoveId::Grapple) == (FrameData {
                startup_frames: 2,
                active_frames: 5,
                recovery_frames: 10,
                cancel_window_start: 17,
            }),
    {
        MoveTable {
            frames: [
                FrameData { startup_frames: 3, active_frames: 3, recovery_frames: 8, cancel_window_start: 10 },
                FrameData { startup_frames: 3, active_frames: 4, recovery_frames: 8, cancel_window_start: 11 },
                FrameData { startup_frames: 2, active_frames: 6, recovery_frames: 10, cancel_window_start: 18 },
                FrameData { startup_frames: 0, active_frames: 6, recovery_frames: 14, cancel_window_start: 20 },
                FrameData { startup_frames: 0, active_frames: 8, recovery_frames: 0, cancel_window_start: 8 },
                FrameData { startup_frames: 2, active_frames: 5, recovery_frames: 10, cancel_window_start: 17 },
            ],
        }
    }
}

} // verus!
