//! Tick-stamped combat input buffer: inputs are queued with the tick they were
//! pressed on and consumed within a window of ticks, so rapid presses between
//! fixed steps are not lost.
use vstd::prelude::*;
use std::collections::VecDeque;
use crate::game::combat::fsm::{can_transition, spec_can_transition, CombatState};
use crate::game::combat::moves::{MoveId, MoveTable};

verus! {

/// Default buffer window in ticks (20 ticks at 60 Hz, about a third of a second).
pub const DEFAULT_BUFFER_WINDOW: u16 = 20;

#[derive(Debug, Clone, Copy)]
pub struct BufferedAction {
    pub action: MoveId,
    pub tick_pressed: u64,
}

/// `a - b`, saturating at 0.
pub open spec fn sat_sub(a: u64, b: u64) -> int {
    if a >= b { a - b } else { 0 }
}

/// Whether an entry is still within `window` ticks of `current_tick`.
pub open spec fn is_fresh(b: BufferedAction, current_tick: u64, window: u16) -> bool {
    sat_sub(current_tick, b.tick_pressed) <= window
}

/// Whether an action is one of the three attacks.
pub open spec fn is_attack(m: MoveId) -> bool {
    m == MoveId::AttackHorizontal || m == MoveId::AttackUp || m == MoveId::AttackDown
}

/// The entries of `q` that are still fresh, in order.
pub open spec fn fresh_entries(q: Seq<BufferedAction>, current_tick: u64, window: u16) -> Seq<
    BufferedAction,
> {
    q.filter(|b: BufferedAction| is_fresh(b, current_tick, window))
}

/// A press within the window is never lost to expiry: pushing it and then
/// expiring keeps it, as the newest entry, after the surviving older ones.
pub proof fn lemma_fresh_push_survives(
    q: Seq<BufferedAction>,
    b: BufferedAction,
    current_tick: u64,
    window: u16,
)
    requires
        is_fresh(b, current_tick, window),
    ensures
        fresh_entries(q.push(b), current_tick, window) == fresh_entries(q, current_tick, window).push(
            b,
        ),
{
    reveal_with_fuel(Seq::<_>::filter, 1);
    assert(q.push(b).drop_last() =~= q);
}

/// Expiry keeps a queue whose entries are all within the window exactly as it
/// is, so such entries are consumed oldest first.
pub proof fn lemma_all_fresh_kept(q: Seq<BufferedAction>, current_tick: u64, window: u16)
    requires
        forall|i: int| 0 <= i < q.len() ==> is_fresh(#[trigger] q[i], current_tick, window),
    ensures
        fresh_entries(q, current_tick, window) == q,
    decreases q.len(),
{
    reveal_with_fuel(Seq::<_>::filter, 1);
    if q.len() > 0 {
        lemma_all_fresh_kept(q.drop_last(), current_tick, window);
        assert(is_fresh(q[q.len() - 1], current_tick, window));
        assert(q.drop_last().push(q.last()) =~= q);
    } else {
        assert(q.filter(|b: BufferedAction| is_fresh(b, current_tick, window)) =~= q);
    }
}

/// The queue's contents, oldest first, and the window.
pub struct BufferView {
    pub queue: Seq<BufferedAction>,
    pub buffer_window: u16,
}

#[derive(Debug, Clone)]
pub struct CombatInputBuffer {
    queue: VecDeque<BufferedAction>,
    pub buffer_window: u16,
}

impl View for CombatInputBuffer {
    type V = BufferView;

    closed spec fn view(&self) -> BufferView {
        BufferView { queue: self.queue@, buffer_window: self.buffer_window }
    }
}

impl Default for CombatInputBuffer {
    fn default() -> (r: Self)
        ensures
            r@.queue == Seq::<BufferedAction>::empty(),
            r@.buffer_window == DEFAULT_BUFFER_WINDOW,
    {
        Self { queue: VecDeque::with_capacity(8), buffer_window: DEFAULT_BUFFER_WINDOW }
    }
}

impl CombatInputBuffer {
    /// Queues `action` as pressed on `tick`.
    pub fn push(&mut self, action: MoveId, tick: u64)
        ensures
            final(self)@.queue == old(self)@.queue.push(
                BufferedAction { action, tick_pressed: tick },
            ),
            final(self)@.buffer_window == old(self)@.buffer_window,
    {
        self.queue.push_back(BufferedAction { action, tick_pressed: tick });
    }

    /// Drops every entry pressed more than `buffer_window` ticks before
    /// `current_tick`, keeping the order of the rest.
    pub fn expire(&mut self, current_tick: u64)
        ensures
            final(self)@.queue == fresh_entries(
                old(self)@.queue,
                current_tick,
                old(self)@.buffer_window,
            ),
            final(self)@.buffer_window == old(self)@.buffer_window,
    {
        let window = self.buffer_window;
        let ghost pred = |b: BufferedAction| is_fresh(b, current_tick, window);
        let mut kept: VecDeque<BufferedAction> = VecDeque::with_capacity(self.queue.len());
        let n = self.queue.len();
        let mut i: usize = 0;
        while i < n
            invariant
                i <= n,
                n == self.queue@.len(),
                *self == *old(self),
                window == self.buffer_window,
                pred == (|b: BufferedAction| is_fresh(b, current_tick, window)),
                kept@ == self.queue@.take(i as int).filter(pred),
            decreases n - i,
        {
            reveal_with_fuel(Seq::<_>::filter, 1);
            let b = self.queue[i];
            let age: u64 = current_tick.saturating_sub(b.tick_pressed);
            if age <= window as u64 {
                kept.push_back(b);
            }
            assert(self.queue@.take(i + 1).drop_last() =~= self.queue@.take(i as int));
            i += 1;
        }
        assert(self.queue@.take(n as int) =~= self.queue@);
        self.queue = kept;
    }

    /// Expires stale entries, then, if a new move may start from `state`, removes
    /// and returns the oldest remaining action; otherwise returns `None` and keeps
    /// the remaining entries.
    pub fn consume(&mut self, state: &CombatState, table: &MoveTable, current_tick: u64) -> (r:
        Option<MoveId>)
        ensures
            ({
                let fresh = fresh_entries(old(self)@.queue, current_tick, old(self)@.buffer_window);
                if spec_can_transition(*state, *table) && fresh.len() > 0 {
                    r == Some(fresh[0].action) && final(self)@.queue == fresh.drop_first()
                } else {
                    r is None && final(self)@.queue == fresh
                }
            }),
            final(self)@.buffer_window == old(self)@.buffer_window,
    {
        self.expire(current_tick);
        let n = self.queue.len();
        let mut found: Option<(usize, MoveId)> = None;
        let mut i: usize = 0;
        while i < n
            invariant_except_break
                i <= n,
                found is None,
                n == self.queue@.len(),
                i > 0 ==> !spec_can_transition(*state, *table),
            ensures
                found matches Some((k, m)) ==> k == 0 && k < n && m == self.queue@[0].action
                    && spec_can_transition(*state, *table),
                found is None ==> !spec_can_transition(*state, *table) || n == 0,
            decreases n - i,
        {
            let b = self.queue[i];
            if can_transition(state, b.action, table) {
                found = Some((i, b.action));
                break;
            }
            i += 1;
        }
        match found {
            Some((idx, move_id)) => {
                let _ = self.queue.remove(idx);
                assert(self.queue@ =~= old(self)@.queue.filter(
                    |b: BufferedAction| is_fresh(b, current_tick, old(self)@.buffer_window),
                ).drop_first());
                Some(move_id)
            },
            None => None,
        }
    }

    pub fn has_pending(&self) -> (r: bool)
        ensures
            r == (self@.queue.len() > 0),
    {
        self.queue.len() != 0
    }

    pub fn clear(&mut self)
        ensures
            final(self)@.queue == Seq::<BufferedAction>::empty(),
            final(self)@.buffer_window == old(self)@.buffer_window,
    {
        self.queue.clear();
    }

    /// The oldest entry, if any.
    pub fn peek(&self) -> (r: Option<&BufferedAction>)
        ensures
            r matches Some(b) ==> self@.queue.len() > 0 && *b == self@.queue[0],
            r is None ==> self@.queue.len() == 0,
    {
        if self.queue.len() == 0 {
            None
        } else {
            Some(&self.queue[0])
        }
    }

    pub fn len(&self) -> (r: usize)
        ensures
            r == self@.queue.len(),
    {
        self.queue.len()
    }

    pub fn is_empty(&self) -> (r: bool)
        ensures
            r == (self@.queue.len() == 0),
    {
        self.queue.len() == 0
    }

    /// Whether some entry still within the window is an attack.
    pub fn has_attack(&self, current_tick: u64) -> (r: bool)
        ensures
            r == exists|j: int|
                0 <= j < self@.queue.len() && is_fresh(
                    #[trigger] self@.queue[j],
                    current_tick,
                    self@.buffer_window,
                ) && is_attack(self@.queue[j].action),
    {
        let window = self.buffer_window as u64;
        let n = self.queue.len();
        let mut i: usize = 0;
        while i < n
            invariant
                i <= n,
                n == self@.queue.len(),
                window == self@.buffer_window,
                forall|j: int|
                    0 <= j < i ==> !(is_fresh(
                        #[trigger] self@.queue[j],
                        current_tick,
                        self@.buffer_window,
                    ) && is_attack(self@.queue[j].action)),
            decreases n - i,
        {
            let b = self.queue[i];
            let fresh = current_tick.saturating_sub(b.tick_pressed) <= window;
            let attack = match b.action {
                MoveId::AttackHorizontal | MoveId::AttackUp | MoveId::AttackDown => true,
                _ => false,
            };
            if fresh && attack {
                assert(is_fresh(self@.queue[i as int], current_tick, self@.buffer_window));
                return true;
            }
            i += 1;
        }
        false
    }
}

} // verus!
