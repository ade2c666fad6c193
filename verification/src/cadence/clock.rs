//! The integer side of the transport: which samples start a step. The sample
//! at which a step starts comes from a schedule the caller supplies (the
//! tempo arithmetic), and the clock decides when steps fire.
use vstd::prelude::*;

verus! {

/// `x + 1`, saturating at `u64::MAX`.
pub open spec fn sat_inc(x: u64) -> u64 {
    if x == u64::MAX { u64::MAX } else { (x + 1) as u64 }
}

/// The start sample actually used for a step scheduled at `scheduled` when the
/// clock is at `current`: a step is never scheduled at or before the current
/// sample, so it is pushed to the next sample.
pub open spec fn next_start(scheduled: u64, current: u64) -> u64 {
    if scheduled <= current { sat_inc(current) } else { scheduled }
}

/// The clock after one sample, where `v` is the start the schedule gives the
/// step after the one that fires (unused when no step fires).
pub open spec fn clock_tick(c: ClockView, v: u64) -> ClockView {
    if c.current_sample >= c.next_step_sample {
        ClockView {
            current_sample: sat_inc(c.current_sample),
            current_step: c.next_step,
            next_step: sat_inc(c.next_step),
            next_step_sample: next_start(v, c.current_sample),
        }
    } else {
        ClockView { current_sample: sat_inc(c.current_sample), ..c }
    }
}

/// A fresh clock.
pub open spec fn clock_start() -> ClockView {
    ClockView { current_sample: 0, current_step: 0, next_step: 0, next_step_sample: 0 }
}

/// A fresh clock after `n` samples when step `k` is scheduled at `sched(k)`.
pub open spec fn clock_run(sched: spec_fn(u64) -> u64, n: nat) -> ClockView
    decreases n,
{
    if n == 0 {
        clock_start()
    } else {
        let c = clock_run(sched, (n - 1) as nat);
        clock_tick(c, sched(sat_inc(c.next_step)))
    }
}

/// Whether the sample numbered `n` starts a step.
pub open spec fn fires_at(sched: spec_fn(u64) -> u64, n: nat) -> bool {
    clock_run(sched, n).current_sample >= clock_run(sched, n).next_step_sample
}

/// Step `k + 1` starts after step `k`.
pub open spec fn starts_later(sched: spec_fn(u64) -> u64, k: u64) -> bool {
    sched(k) < sched((k + 1) as u64)
}

/// The step starts strictly increase from step 1 on, and step 1 starts after sample 0.
pub open spec fn increasing_schedule(sched: spec_fn(u64) -> u64) -> bool {
    &&& 0 < sched(1)
    &&& forall|k: u64| 1 <= k < u64::MAX ==> #[trigger] starts_later(sched, k)
}

/// The clock's counters.
pub struct ClockView {
    pub current_sample: u64,
    pub current_step: u64,
    pub next_step: u64,
    pub next_step_sample: u64,
}

#[derive(Debug, Clone, Copy)]
pub struct StepClock {
    current_sample: u64,
    current_step: u64,
    next_step: u64,
    next_step_sample: u64,
}

impl View for StepClock {
    type V = ClockView;

    closed spec fn view(&self) -> ClockView {
        ClockView {
            current_sample: self.current_sample,
            current_step: self.current_step,
            next_step: self.next_step,
            next_step_sample: self.next_step_sample,
        }
    }
}

impl StepClock {
    #[verifier::type_invariant]
    spec fn inv(self) -> bool {
        self.next_step_sample >= self.current_sample
    }

    /// A clock at sample 0 whose first step fires at once.
    pub fn new() -> (r: Self)
        ensures
            r@.current_sample == 0,
            r@.current_step == 0,
            r@.next_step == 0,
            r@.next_step_sample == 0,
    {
        Self { current_sample: 0, current_step: 0, next_step: 0, next_step_sample: 0 }
    }

    /// Advances one sample. A step fires when the current sample has reached the
    /// next step's start: that step becomes current, the one after it is
    /// scheduled through `schedule` (pushed past the current sample if it would
    /// not lie after it), and `true` is returned. The sample count then moves on.
    /// The next start never lies before the current sample.
    pub fn tick<F: Fn(u64) -> u64>(&mut self, schedule: &F) -> (r: bool)
        requires
            forall|s: u64| #[trigger] schedule.requires((s,)),
        ensures
            r == (old(self)@.current_sample >= old(self)@.next_step_sample),
            exists|v: u64|
                (r ==> schedule.ensures((final(self)@.next_step,), v)) && final(self)@
                    == #[trigger] clock_tick(old(self)@, v),
            final(self)@.current_sample == sat_inc(old(self)@.current_sample),
            r ==> final(self)@.current_step == old(self)@.next_step,
            r ==> final(self)@.next_step == sat_inc(old(self)@.next_step),
            r ==> exists|v: u64|
                schedule.ensures((final(self)@.next_step,), v) && final(self)@.next_step_sample
                    == #[trigger] next_start(v, old(self)@.current_sample),
            !r ==> final(self)@.current_step == old(self)@.current_step,
            !r ==> final(self)@.next_step == old(self)@.next_step,
            !r ==> final(self)@.next_step_sample == old(self)@.next_step_sample,
            final(self)@.next_step_sample >= final(self)@.current_sample,
    {
        proof {
            use_type_invariant(&*self);
        }
        let triggered = self.current_sample >= self.next_step_sample;
        if triggered {
            self.current_step = self.next_step;
            self.next_step = self.next_step.saturating_add(1);
            let v = schedule(self.next_step);
            self.next_step_sample = if v <= self.current_sample {
                self.current_sample.saturating_add(1)
            } else {
                v
            };
            assert(next_start(v, old(self)@.current_sample) == self.next_step_sample);
            self.current_sample = self.current_sample.saturating_add(1);
            assert(self@ == clock_tick(old(self)@, v));
        } else {
            self.current_sample = self.current_sample.saturating_add(1);
            assert(self@ == clock_tick(old(self)@, 0));
        }
        proof {
            use_type_invariant(&*self);
        }
        triggered
    }

    /// Reschedules the pending step through `schedule` (after a tempo change),
    /// pushed past the current sample if it would not lie after it.
    pub fn reschedule<F: Fn(u64) -> u64>(&mut self, schedule: &F)
        requires
            forall|s: u64| #[trigger] schedule.requires((s,)),
        ensures
            final(self)@.current_sample == old(self)@.current_sample,
            final(self)@.current_step == old(self)@.current_step,
            final(self)@.next_step == old(self)@.next_step,
            exists|v: u64|
                schedule.ensures((old(self)@.next_step,), v) && final(self)@.next_step_sample
                    == #[trigger] next_start(v, old(self)@.current_sample),
            final(self)@.next_step_sample >= final(self)@.current_sample,
    {
        let v = schedule(self.next_step);
        self.next_step_sample = if v <= self.current_sample {
            self.current_sample.saturating_add(1)
        } else {
            v
        };
        assert(next_start(v, old(self)@.current_sample) == self.next_step_sample);
    }

    pub fn current_sample(&self) -> (r: u64)
        ensures
            r == self@.current_sample,
    {
        self.current_sample
    }

    pub fn current_step(&self) -> (r: u64)
        ensures
            r == self@.current_step,
    {
        self.current_step
    }

    pub fn next_step(&self) -> (r: u64)
        ensures
            r == self@.next_step,
    {
        self.next_step
    }

    /// The current step's position in a cycle of `cycle_steps` steps (0 for an
    /// empty cycle).
    pub fn step_in_cycle(&self, cycle_steps: u32) -> (r: u32)
        ensures
            r == (if cycle_steps == 0 {
                0
            } else {
                (self@.current_step as int) % (cycle_steps as int)
            }),
            cycle_steps > 0 ==> r < cycle_steps,
    {
        if cycle_steps == 0 {
            0
        } else {
            (self.current_step % cycle_steps as u64) as u32
        }
    }
}

/// Step starts grow with the step number.
proof fn lemma_schedule_grows(sched: spec_fn(u64) -> u64, i: u64, j: u64)
    requires
        increasing_schedule(sched),
        1 <= i < j,
    ensures
        sched(i) < sched(j),
    decreases j - i,
{
    if j > i + 1 {
        lemma_schedule_grows(sched, i, (j - 1) as u64);
    }
    assert(starts_later(sched, (j - 1) as u64));
}

/// After `n >= 1` samples the clock has started steps `0 .. K-1` (K = its next
/// step), the last of them no later than sample `n - 1`, and waits for step `K`
/// at its scheduled sample, which is not before `n`.
proof fn lemma_run_invariant(sched: spec_fn(u64) -> u64, n: nat)
    requires
        increasing_schedule(sched),
        1 <= n < u64::MAX,
    ensures
        ({
            let c = clock_run(sched, n);
            &&& c.current_sample == n
            &&& 1 <= c.next_step <= n
            &&& c.current_step == c.next_step - 1
            &&& c.next_step_sample == sched(c.next_step)
            &&& n <= sched(c.next_step)
            &&& c.next_step == 1 || sched((c.next_step - 1) as u64) < n
        }),
    decreases n,
{
    reveal_with_fuel(clock_run, 2);
    if n > 1 {
        lemma_run_invariant(sched, (n - 1) as nat);
        let c = clock_run(sched, (n - 1) as nat);
        let k = c.next_step;
        if k < u64::MAX {
            assert(starts_later(sched, k));
        }
    }
}

/// No drift: from a fresh clock on an increasing schedule, the sample numbered
/// `n` starts a step exactly when it is sample 0 or the scheduled start of some
/// step `k`, and the step that starts there is `k`.
pub proof fn lemma_steps_start_on_schedule(sched: spec_fn(u64) -> u64, n: nat)
    requires
        increasing_schedule(sched),
        n + 1 < u64::MAX,
    ensures
        fires_at(sched, n) <==> (n == 0 || exists|k: u64| 1 <= k && #[trigger] sched(k) == n),
        n == 0 ==> clock_run(sched, 1).current_step == 0,
        forall|k: u64| 1 <= k && #[trigger] sched(k) == n ==> clock_run(sched, n + 1).current_step == k,
{
    reveal_with_fuel(clock_run, 2);
    if n >= 1 {
        lemma_run_invariant(sched, n);
        let c = clock_run(sched, n);
        let big_k = c.next_step;
        assert forall|k: u64| 1 <= k && #[trigger] sched(k) == n implies k == big_k by {
            if k < big_k {
                if k < big_k - 1 {
                    lemma_schedule_grows(sched, k, (big_k - 1) as u64);
                }
            } else if k > big_k {
                lemma_schedule_grows(sched, big_k, k);
            }
        }
        assert(clock_run(sched, n + 1) == clock_tick(c, sched(sat_inc(c.next_step))));
    } else {
        assert forall|k: u64| 1 <= k && #[trigger] sched(k) == n implies false by {
            if k > 1 {
                lemma_schedule_grows(sched, 1, k);
            }
        }
    }
}

} // verus!
