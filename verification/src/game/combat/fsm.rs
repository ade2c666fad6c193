//! The combat phase machine: Idle, Startup, Active, Recovery, driven by a tick
//! counter and the current move's frame data.
use vstd::prelude::*;
use crate::game::combat::moves::{FrameData, MoveId, MoveTable};

verus! {

#[derive(Debug, Clone, Copy, PartialEq, Eq, Structural)]
pub enum CombatPhase {
    Idle,
    Startup,
    Active,
    Recovery,
}

#[derive(Debug, Clone, Copy, PartialEq, Eq, Structural)]
pub struct CombatState {
    pub phase: CombatPhase,
    pub frame_timer: u16,
    pub current_move: Option<MoveId>,
    pub invincible: bool,
}

/// The state with no move in progress.
pub open spec fn idle_state() -> CombatState {
    CombatState { phase: CombatPhase::Idle, frame_timer: 0, current_move: None, invincible: false }
}

impl Default for CombatState {
    fn default() -> (r: Self)
        ensures
            r == idle_state(),
    {
        Self { phase: CombatPhase::Idle, frame_timer: 0, current_move: None, invincible: false }
    }
}

/// Whether the state is in the cancel window of its move: in recovery, with the
/// timer at or past the move's cancel start.
pub open spec fn spec_in_cancel_window(state: CombatState, table: MoveTable) -> bool {
    state.phase == CombatPhase::Recovery && match state.current_move {
        Some(m) => state.frame_timer >= table.spec_get(m).cancel_window_start,
        None => false,
    }
}

/// Whether a new move may start: always from Idle, in the cancel window from
/// Recovery, never from Startup or Active.
pub open spec fn spec_can_transition(state: CombatState, table: MoveTable) -> bool {
    match state.phase {
        CombatPhase::Idle => true,
        CombatPhase::Recovery => spec_in_cancel_window(state, table),
        _ => false,
    }
}

/// The state after `begin_move`: timer at 0, in Startup, or straight in Active
/// for a move without startup (with invincibility for a dash).
pub open spec fn begun_state(m: MoveId, d: FrameData) -> CombatState {
    if d.startup_frames == 0 {
        CombatState {
            phase: CombatPhase::Active,
            frame_timer: 0,
            current_move: Some(m),
            invincible: m == MoveId::Dash,
        }
    } else {
        CombatState {
            phase: CombatPhase::Startup,
            frame_timer: 0,
            current_move: Some(m),
            invincible: false,
        }
    }
}

/// The state after one tick of a move `m` in a non-idle phase, with timer `t`
/// already advanced.
pub open spec fn ticked_state(s: CombatState, m: MoveId, d: FrameData, t: int) -> CombatState {
    let (phase, invincible) = match s.phase {
        CombatPhase::Startup => if t >= d.startup_frames {
            (CombatPhase::Active, m == MoveId::Dash)
        } else {
            (CombatPhase::Startup, s.invincible)
        },
        CombatPhase::Active => {
            let (p, i) = if t >= d.spec_recovery_start() {
                (CombatPhase::Recovery, false)
            } else {
                (CombatPhase::Active, s.invincible)
            };
            (p, if m == MoveId::Dash && t >= d.active_frames / 2 { false } else { i })
        },
        CombatPhase::Recovery => if t >= d.spec_total() {
            (CombatPhase::Idle, false)
        } else {
            (CombatPhase::Recovery, s.invincible)
        },
        CombatPhase::Idle => (CombatPhase::Idle, s.invincible),
    };
    let finished = phase == CombatPhase::Idle || (m == MoveId::Dash && phase
        == CombatPhase::Recovery && d.recovery_frames == 0);
    if finished {
        idle_state()
    } else {
        CombatState { phase, frame_timer: t as u16, current_move: Some(m), invincible }
    }
}

/// One tick of the machine: Idle, or a state without a move, stays as it is;
/// otherwise the timer advances and the phase moves on at its boundary.
pub open spec fn fsm_next(s: CombatState, table: MoveTable) -> CombatState {
    if s.phase == CombatPhase::Idle {
        s
    } else {
        match s.current_move {
            None => s,
            Some(m) => ticked_state(s, m, table.spec_get(m), s.frame_timer + 1),
        }
    }
}

/// The state after `n` ticks from `s`.
pub open spec fn fsm_run(s: CombatState, table: MoveTable, n: nat) -> CombatState
    decreases n,
{
    if n == 0 {
        s
    } else {
        fsm_next(fsm_run(s, table, (n - 1) as nat), table)
    }
}

/// The phase of a move `k` ticks after it began: Startup for its startup
/// frames, then Active for its active frames, then Recovery.
pub open spec fn phase_at(d: FrameData, k: int) -> CombatPhase {
    if k < d.startup_frames {
        CombatPhase::Startup
    } else if k < d.spec_recovery_start() {
        CombatPhase::Active
    } else {
        CombatPhase::Recovery
    }
}

/// Whether a move is invincible `k` ticks after it began: only a dash is, from
/// its first active tick until half its active frames have passed.
pub open spec fn iframe_at(m: MoveId, d: FrameData, k: int) -> bool {
    m == MoveId::Dash && d.startup_frames <= k < d.spec_recovery_start() && (k
        == d.startup_frames || k < d.active_frames / 2)
}

/// The state of a move `k` ticks after it began, while it lasts.
pub open spec fn state_at(m: MoveId, d: FrameData, k: int) -> CombatState {
    CombatState {
        phase: phase_at(d, k),
        frame_timer: k as u16,
        current_move: Some(m),
        invincible: iframe_at(m, d, k),
    }
}

/// The tick on which a move returns to Idle: after its total frames, or one
/// tick later for a move other than a dash that has no recovery frames.
pub open spec fn move_end(m: MoveId, d: FrameData) -> int {
    if d.recovery_frames == 0 && m != MoveId::Dash {
        d.spec_total() + 1
    } else {
        d.spec_total()
    }
}

/// A move runs on its frame counts alone: started from any state, `k` ticks
/// later it is in the phase its frame data puts tick `k` in, with the timer at
/// `k` (a dash invincible only over the first half of its active frames), and
/// on tick `move_end` it is back in Idle with no move.
pub proof fn lemma_move_lifecycle(m: MoveId, table: MoveTable, k: nat)
    requires
        table.wf(),
        table.spec_get(m).active_frames >= 1,
        k <= move_end(m, table.spec_get(m)),
    ensures
        k < move_end(m, table.spec_get(m)) ==> fsm_run(
            begun_state(m, table.spec_get(m)),
            table,
            k,
        ) == state_at(m, table.spec_get(m), k as int),
        k == move_end(m, table.spec_get(m)) ==> fsm_run(
            begun_state(m, table.spec_get(m)),
            table,
            k,
        ) == idle_state(),
    decreases k,
{
    let d = table.spec_get(m);
    assert(d.wf()) by {
        assert(table.frames@[crate::game::combat::moves::move_slot(m)].wf());
    }
    if k > 0 {
        lemma_move_lifecycle(m, table, (k - 1) as nat);
        let prev = fsm_run(begun_state(m, d), table, (k - 1) as nat);
        assert(prev == state_at(m, d, k - 1));
        assert(fsm_run(begun_state(m, d), table, k) == fsm_next(prev, table));
    }
}

impl CombatState {
    pub fn is_idle(&self) -> (r: bool)
        ensures
            r == (self.phase == CombatPhase::Idle),
    {
        self.phase == CombatPhase::Idle
    }

    pub fn is_active(&self) -> (r: bool)
        ensures
            r == (self.phase == CombatPhase::Active),
    {
        self.phase == CombatPhase::Active
    }

    pub fn in_cancel_window(&self, table: &MoveTable) -> (r: bool)
        ensures
            r == spec_in_cancel_window(*self, *table),
    {
        if self.phase != CombatPhase::Recovery {
            return false;
        }
        match self.current_move {
            Some(move_id) => {
                let data = table.get(move_id);
                self.frame_timer >= data.cancel_window_start()
            },
            None => false,
        }
    }
}

/// Advances the machine by one tick and returns the new phase if it changed.
pub fn advance_combat_fsm(state: &mut CombatState, table: &MoveTable) -> (r: Option<CombatPhase>)
    requires
        table.wf(),
        old(state).frame_timer < u16::MAX,
    ensures
        *final(state) == fsm_next(*old(state), *table),
        r == (if final(state).phase != old(state).phase {
            Some(final(state).phase)
        } else {
            None
        }),
{
    if state.phase == CombatPhase::Idle {
        return None;
    }
    let move_id = match state.current_move {
        Some(m) => m,
        None => return None,
    };
    state.frame_timer = state.frame_timer + 1;
    let data = table.get(move_id);
    proof {
        assert(data.wf());
    }
    let old_phase = state.phase;
    match state.phase {
        CombatPhase::Startup => {
            if state.frame_timer >= data.active_start() {
                state.phase = CombatPhase::Active;
                state.invincible = move_id == MoveId::Dash;
            }
        },
        CombatPhase::Active => {
            if state.frame_timer >= data.recovery_start() {
                state.phase = CombatPhase::Recovery;
                state.invincible = false;
            }
            if move_id == MoveId::Dash {
                let iframe_end = data.active_frames / 2;
                if state.frame_timer >= iframe_end {
                    state.invincible = false;
                }
            }
        },
        CombatPhase::Recovery => {
            if state.frame_timer >= data.total_frames() {
                state.phase = CombatPhase::Idle;
                state.current_move = None;
                state.frame_timer = 0;
                state.invincible = false;
            }
        },
        CombatPhase::Idle => {},
    }
    if move_id == MoveId::Dash && state.phase == CombatPhase::Recovery && data.recovery_frames
        == 0 {
        state.phase = CombatPhase::Idle;
        state.current_move = None;
        state.frame_timer = 0;
        state.invincible = false;
    }
    if state.phase != old_phase {
        Some(state.phase)
    } else {
        None
    }
}

/// Whether a new move may start from `state` (the move itself does not matter).
pub fn can_transition(state: &CombatState, _input_move: MoveId, table: &MoveTable) -> (r: bool)
    ensures
        r == spec_can_transition(*state, *table),
{
    match state.phase {
        CombatPhase::Idle => true,
        CombatPhase::Recovery => state.in_cancel_window(table),
        CombatPhase::Startup | CombatPhase::Active => false,
    }
}

/// Starts `move_id` with the timer at 0.
pub fn begin_move(state: &mut CombatState, move_id: MoveId, table: &MoveTable)
    ensures
        *final(state) == begun_state(move_id, table.spec_get(move_id)),
{
    state.current_move = Some(move_id);
    state.frame_timer = 0;
    state.invincible = false;
    let data = table.get(move_id);
    if data.startup_frames == 0 {
        state.phase = CombatPhase::Active;
        state.invincible = move_id == MoveId::Dash;
    } else {
        state.phase = CombatPhase::Startup;
    }
}

} // verus!
