//! The sequencer core: up to `MAX_TRACKS` tracks driven by one step clock and
//! one LFSR. On every step each track, in order, draws the next random value
//! and decides whether it fires.
use vstd::prelude::*;
use crate::cadence::clock::{clock_tick, next_start, sat_inc, StepClock};
use crate::cadence::euclid::EuclideanPattern;
use crate::cadence::random::{lfsr_iter, Lfsr};
use crate::cadence::track::{track_trigger, trigger_outcome, TrackRule, TrackTrigger};

verus! {

/// The most tracks a sequencer holds.
pub const MAX_TRACKS: usize = 8;

/// The integer side of a track: its rhythm, its rule, and whether it is unmuted.
#[derive(Debug, Clone, Copy)]
pub struct TrackSlot<const STEPS: usize> {
    pub pattern: EuclideanPattern<STEPS>,
    pub rule: TrackRule,
    pub active: bool,
}

/// What the tracks fired on one sample.
#[derive(Debug, Clone, Copy)]
pub struct StepOutput {
    pub triggers: [Option<TrackTrigger>; 8],
    pub step_triggered: bool,
    pub step_in_cycle: u32,
}

impl StepOutput {
    /// No step on this sample.
    pub fn empty() -> (r: Self)
        ensures
            !r.step_triggered,
            r.step_in_cycle == 0,
            forall|i: int| 0 <= i < MAX_TRACKS ==> (#[trigger] r.triggers@[i]) is None,
    {
        StepOutput { triggers: [None; 8], step_triggered: false, step_in_cycle: 0 }
    }
}

/// The slots, the number of tracks and the cycle length.
pub struct SequencerView<const STEPS: usize> {
    pub clock: StepClock,
    pub lfsr: Lfsr,
    pub slots: Seq<Option<TrackSlot<STEPS>>>,
    pub track_count: nat,
    pub cycle_steps: u32,
}

pub struct SequencerCore<const STEPS: usize> {
    clock: StepClock,
    lfsr: Lfsr,
    slots: [Option<TrackSlot<STEPS>>; 8],
    track_count: usize,
    cycle_steps: u32,
}

impl<const STEPS: usize> View for SequencerCore<STEPS> {
    type V = SequencerView<STEPS>;

    closed spec fn view(&self) -> SequencerView<STEPS> {
        SequencerView {
            clock: self.clock,
            lfsr: self.lfsr,
            slots: self.slots@,
            track_count: self.track_count as nat,
            cycle_steps: self.cycle_steps,
        }
    }
}

/// The slot `i` holds a track.
pub open spec fn slot_at<const STEPS: usize>(v: SequencerView<STEPS>, i: int) -> TrackSlot<STEPS> {
    v.slots[i]->Some_0
}

/// The rhythm can be read on any step of a cycle of `cycle_steps` steps: its
/// length fits the table, and a position in the cycle plus its rotation fits
/// in a `usize` (which only a 32-bit target can fail).
pub open spec fn readable<const STEPS: usize>(pattern: EuclideanPattern<STEPS>, cycle_steps: u32) -> bool {
    pattern@.steps <= STEPS && cycle_steps + pattern@.offset <= usize::MAX + 1
}

/// A slot below the track count holds a track with a readable rhythm; a slot
/// above it is empty.
pub open spec fn slot_ok<const STEPS: usize>(
    slot: Option<TrackSlot<STEPS>>,
    used: bool,
    cycle_steps: u32,
) -> bool {
    match slot {
        Some(s) => used && readable(s.pattern, cycle_steps),
        None => !used,
    }
}

/// What the tracks of `v` fire on a step at `step_in_cycle`: track `i` draws
/// the `i + 1`-th value after the generator's state; empty slots fire nothing.
/// It depends on the state alone, so equal sequencers fire alike.
pub open spec fn step_triggers<const STEPS: usize>(
    v: SequencerView<STEPS>,
    step_in_cycle: int,
) -> Seq<Option<TrackTrigger>> {
    Seq::new(
        MAX_TRACKS as nat,
        |i: int|
            if i < v.track_count {
                let s = slot_at(v, i);
                trigger_outcome(
                    s.active,
                    s.pattern,
                    s.rule,
                    step_in_cycle,
                    lfsr_iter(v.lfsr.spec_state(), (i + 1) as nat),
                ).0
            } else {
                None
            },
    )
}

impl<const STEPS: usize> SequencerCore<STEPS> {
    /// The first `track_count` slots hold tracks with rhythms readable on
    /// every step of the cycle, the others are empty, and the cycle is not
    /// empty.
    #[verifier::type_invariant]
    spec fn wf(self) -> bool {
        &&& self@.slots.len() == MAX_TRACKS
        &&& self@.track_count <= MAX_TRACKS
        &&& self@.cycle_steps >= 1
        &&& forall|i: int|
            #![trigger self@.slots[i]]
            0 <= i < MAX_TRACKS ==> slot_ok(self@.slots[i], i < self@.track_count, self@.cycle_steps)
    }

    /// An empty sequencer whose cycle has `cycle_steps` steps (at least one).
    pub fn new(cycle_steps: u32, seed: u16) -> (r: Self)
        ensures
            r@.track_count == 0,
            r@.cycle_steps == (if cycle_steps == 0 { 1 } else { cycle_steps }),
            r@.clock@.current_sample == 0,
            r@.clock@.next_step_sample == 0,
            r@.clock@.next_step == 0,
            r@.clock@.current_step == 0,
            r@.lfsr == Lfsr::new_spec(seed),
    {
        SequencerCore {
            clock: StepClock::new(),
            lfsr: Lfsr::new(seed),
            slots: [None; 8],
            track_count: 0,
            cycle_steps: if cycle_steps == 0 { 1 } else { cycle_steps },
        }
    }

    /// Adds a track in the next free slot and returns its index; `None` when
    /// all slots are taken.
    pub fn add_track(&mut self, slot: TrackSlot<STEPS>) -> (r: Option<usize>)
        requires
            readable(slot.pattern, old(self)@.cycle_steps),
        ensures
            final(self)@.cycle_steps == old(self)@.cycle_steps,
            old(self)@.track_count >= MAX_TRACKS ==> r is None && final(self)@ == old(self)@,
            final(self)@.clock == old(self)@.clock,
            final(self)@.lfsr == old(self)@.lfsr,
            old(self)@.track_count < MAX_TRACKS ==> {
                &&& r == Some(old(self)@.track_count as usize)
                &&& final(self)@.track_count == old(self)@.track_count + 1
                &&& final(self)@.slots == old(self)@.slots.update(
                    old(self)@.track_count as int,
                    Some(slot),
                )
            },
    {
        proof {
            use_type_invariant(&*self);
        }
        if self.track_count >= MAX_TRACKS {
            return None;
        }
        let index = self.track_count;
        let mut slots = self.slots;
        slots[index] = Some(slot);
        *self = SequencerCore {
            clock: self.clock,
            lfsr: self.lfsr,
            slots,
            track_count: index + 1,
            cycle_steps: self.cycle_steps,
        };
        Some(index)
    }

    /// Advances one sample. When a step starts, every track in order draws the
    /// next LFSR value and decides what it fires on the step's position in the
    /// cycle; otherwise nothing fires and the tracks are untouched.
    pub fn tick<F: Fn(u64) -> u64>(&mut self, schedule: &F) -> (r: StepOutput)
        requires
            forall|s: u64| #[trigger] schedule.requires((s,)),
        ensures
            final(self)@.track_count == old(self)@.track_count,
            final(self)@.cycle_steps == old(self)@.cycle_steps,
            r.step_triggered == (old(self)@.clock@.current_sample >= old(self)@.clock@.next_step_sample),
            final(self)@.clock@.current_sample == sat_inc(old(self)@.clock@.current_sample),
            exists|v: u64|
                (r.step_triggered ==> schedule.ensures((final(self)@.clock@.next_step,), v))
                    && final(self)@.clock@ == #[trigger] clock_tick(old(self)@.clock@, v),
            r.step_triggered ==> final(self)@.clock@.current_step == old(self)@.clock@.next_step,
            !r.step_triggered ==> {
                &&& final(self)@.slots == old(self)@.slots
                &&& final(self)@.lfsr == old(self)@.lfsr
                &&& r.step_in_cycle == 0
                &&& forall|i: int| 0 <= i < MAX_TRACKS ==> (#[trigger] r.triggers@[i]) is None
            },
            r.step_triggered ==> {
                &&& r.step_in_cycle == (old(self)@.clock@.next_step as int) % (
                old(self)@.cycle_steps as int)
                &&& r.triggers@ == step_triggers(old(self)@, r.step_in_cycle as int)
                &&& final(self)@.lfsr.spec_state() == lfsr_iter(
                    old(self)@.lfsr.spec_state(),
                    old(self)@.track_count,
                )
                &&& forall|i: int|
                    old(self)@.track_count <= i < MAX_TRACKS ==> (#[trigger] r.triggers@[i]) is None
                &&& forall|i: int|
                    0 <= i < old(self)@.track_count ==> {
                        let s = slot_at(old(self)@, i);
                        let o = trigger_outcome(
                            s.active,
                            s.pattern,
                            s.rule,
                            r.step_in_cycle as int,
                            lfsr_iter(old(self)@.lfsr.spec_state(), (i + 1) as nat),
                        );
                        &&& #[trigger] r.triggers@[i] == o.0
                        &&& final(self)@.slots[i] == Some(TrackSlot { rule: o.1, ..s })
                    }
            },
    {
        proof {
            use_type_invariant(&*self);
        }
        let mut clock = self.clock;
        let fired = clock.tick(schedule);
        self.clock = clock;
        if !fired {
            return StepOutput::empty();
        }
        let step = self.clock.step_in_cycle(self.cycle_steps);
        let mut triggers: [Option<TrackTrigger>; 8] = [None; 8];
        let ghost old_slots = self@.slots;
        let ghost lfsr0 = self.lfsr.spec_state();
        let ghost clock1 = self@.clock;
        let n = self.track_count;
        let mut i: usize = 0;
        while i < n
            invariant
                i <= n,
                n == self@.track_count,
                n <= MAX_TRACKS,
                self@.slots.len() == MAX_TRACKS,
                old_slots.len() == MAX_TRACKS,
                self@.cycle_steps == old(self)@.cycle_steps,
                self@.cycle_steps >= 1,
                triggers@.len() == MAX_TRACKS,
                step < self@.cycle_steps,
                self.lfsr.spec_state() == lfsr_iter(lfsr0, i as nat),
                self@.clock == clock1,
                forall|j: int| 0 <= j < MAX_TRACKS ==> slot_ok(#[trigger] old_slots[j], j < n, self@.cycle_steps),
                forall|j: int| 0 <= j < MAX_TRACKS ==> slot_ok(#[trigger] self@.slots[j], j < n, self@.cycle_steps),
                old_slots == old(self)@.slots,
                forall|j: int| i <= j < MAX_TRACKS ==> #[trigger] self@.slots[j] == old_slots[j],
                forall|j: int| i <= j < MAX_TRACKS ==> (#[trigger] triggers@[j]) is None,
                forall|j: int|
                    0 <= j < i ==> {
                        let s = slot_at(old(self)@, j);
                        let o = trigger_outcome(
                            s.active,
                            s.pattern,
                            s.rule,
                            step as int,
                            lfsr_iter(lfsr0, (j + 1) as nat),
                        );
                        &&& #[trigger] triggers@[j] == o.0
                        &&& self@.slots[j] == Some(TrackSlot { rule: o.1, ..s })
                    },
            decreases n - i,
        {
            let mut slot = match self.slots[i] {
                Some(s) => s,
                None => {
                    assert(false);
                    return StepOutput::empty();
                },
            };
            assert(slot == slot_at(old(self)@, i as int));
            let mut lfsr = self.lfsr;
            let seed = lfsr.next_u16();
            self.lfsr = lfsr;
            let t = track_trigger(slot.active, &slot.pattern, &mut slot.rule, step, seed);
            let ghost before = self@.slots;
            self.slots[i] = Some(slot);
            assert(self@.slots == before.update(i as int, Some(slot)));
            triggers[i] = t;
            i += 1;
        }
        assert(triggers@ =~= step_triggers(old(self)@, step as int));
        StepOutput { triggers, step_triggered: true, step_in_cycle: step }
    }

    /// Mutes track `index`; an index without a track is ignored.
    pub fn mute(&mut self, index: usize)
        ensures
            final(self)@.clock == old(self)@.clock,
            final(self)@.lfsr == old(self)@.lfsr,
            final(self)@.track_count == old(self)@.track_count,
            final(self)@.cycle_steps == old(self)@.cycle_steps,
            final(self)@.slots == (if index < old(self)@.track_count {
                old(self)@.slots.update(
                    index as int,
                    Some(TrackSlot { active: false, ..slot_at(old(self)@, index as int) }),
                )
            } else {
                old(self)@.slots
            }),
    {
        self.set_active(index, false);
    }

    /// Unmutes track `index`; an index without a track is ignored.
    pub fn unmute(&mut self, index: usize)
        ensures
            final(self)@.clock == old(self)@.clock,
            final(self)@.lfsr == old(self)@.lfsr,
            final(self)@.track_count == old(self)@.track_count,
            final(self)@.cycle_steps == old(self)@.cycle_steps,
            final(self)@.slots == (if index < old(self)@.track_count {
                old(self)@.slots.update(
                    index as int,
                    Some(TrackSlot { active: true, ..slot_at(old(self)@, index as int) }),
                )
            } else {
                old(self)@.slots
            }),
    {
        self.set_active(index, true);
    }

    fn set_active(&mut self, index: usize, active: bool)
        ensures
            final(self)@.clock == old(self)@.clock,
            final(self)@.lfsr == old(self)@.lfsr,
            final(self)@.track_count == old(self)@.track_count,
            final(self)@.cycle_steps == old(self)@.cycle_steps,
            final(self)@.slots == (if index < old(self)@.track_count {
                old(self)@.slots.update(
                    index as int,
                    Some(TrackSlot { active, ..slot_at(old(self)@, index as int) }),
                )
            } else {
                old(self)@.slots
            }),
    {
        proof {
            use_type_invariant(&*self);
        }
        if index < MAX_TRACKS {
            match self.slots[index] {
                Some(s) => {
                    self.slots[index] = Some(TrackSlot { active, ..s });
                },
                None => {},
            }
        }
    }

    /// Whether `index` holds an unmuted track.
    pub fn is_track_active(&self, index: usize) -> (r: bool)
        ensures
            r == (index < self@.track_count && slot_at(self@, index as int).active),
    {
        proof {
            use_type_invariant(self);
        }
        if index < MAX_TRACKS {
            match self.slots[index] {
                Some(s) => s.active,
                None => false,
            }
        } else {
            false
        }
    }

    /// Reschedules the pending step (after a tempo change).
    pub fn reschedule<F: Fn(u64) -> u64>(&mut self, schedule: &F)
        requires
            forall|s: u64| #[trigger] schedule.requires((s,)),
        ensures
            final(self)@.slots == old(self)@.slots,
            final(self)@.track_count == old(self)@.track_count,
            final(self)@.cycle_steps == old(self)@.cycle_steps,
            final(self)@.lfsr == old(self)@.lfsr,
            final(self)@.clock@.current_sample == old(self)@.clock@.current_sample,
            final(self)@.clock@.current_step == old(self)@.clock@.current_step,
            final(self)@.clock@.next_step == old(self)@.clock@.next_step,
            exists|v: u64|
                schedule.ensures((old(self)@.clock@.next_step,), v)
                    && final(self)@.clock@.next_step_sample == #[trigger] next_start(
                    v,
                    old(self)@.clock@.current_sample,
                ),
    {
        proof {
            use_type_invariant(&*self);
        }
        let mut clock = self.clock;
        clock.reschedule(schedule);
        self.clock = clock;
    }

    /// The step clock.
    pub fn clock(&self) -> (r: &StepClock)
        ensures
            *r == self@.clock,
    {
        &self.clock
    }

    /// The random generator.
    pub fn lfsr(&self) -> (r: &Lfsr)
        ensures
            *r == self@.lfsr,
    {
        &self.lfsr
    }

    pub fn track_count(&self) -> (r: usize)
        ensures
            r == self@.track_count,
    {
        self.track_count
    }

    pub fn cycle_steps(&self) -> (r: u32)
        ensures
            r == self@.cycle_steps,
    {
        self.cycle_steps
    }

    /// The current step's position in the cycle.
    pub fn current_step_in_cycle(&self) -> (r: u32)
        ensures
            r == (self@.clock@.current_step as int) % (self@.cycle_steps as int),
    {
        proof {
            use_type_invariant(self);
        }
        self.clock.step_in_cycle(self.cycle_steps)
    }
}

/// A muted track is silent and its chain does not move; an unmuted one fires
/// exactly on the onsets of its rotated rhythm.
pub proof fn lemma_mute_silences<const STEPS: usize>(
    slot: TrackSlot<STEPS>,
    step: int,
    seed: u16,
)
    ensures
        !slot.active ==> trigger_outcome(slot.active, slot.pattern, slot.rule, step, seed) == (
        None::<TrackTrigger>, slot.rule),
        slot.active ==> (trigger_outcome(slot.active, slot.pattern, slot.rule, step, seed).0 is Some
            <==> slot.pattern.active_at(step)),
{
}

} // verus!
