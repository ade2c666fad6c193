//! Euclidean rhythms: `pulses` onsets spread as evenly as possible over `steps`.
use vstd::prelude::*;
use vstd::arithmetic::div_mod::{
    lemma_fundamental_div_mod, lemma_fundamental_div_mod_converse, lemma_mod_add_multiples_vanish,
};

verus! {

/// Whether step `i` of the Euclidean rhythm E(`pulses`, `steps`) is an onset.
pub open spec fn euclid_bit(pulses: int, steps: int, i: int) -> bool {
    pulses > 0 && (i * pulses) % steps < pulses
}

/// The number of onsets among the first `n` steps of E(`pulses`, `steps`).
pub open spec fn euclid_count(pulses: int, steps: int, n: nat) -> nat
    decreases n,
{
    if n == 0 {
        0
    } else {
        euclid_count(pulses, steps, (n - 1) as nat) + if euclid_bit(pulses, steps, n - 1) {
            1nat
        } else {
            0nat
        }
    }
}

/// The number of `true` entries in `s`.
pub open spec fn count_true(s: Seq<bool>) -> nat
    decreases s.len(),
{
    if s.len() == 0 {
        0
    } else {
        count_true(s.drop_last()) + if s.last() {
            1nat
        } else {
            0nat
        }
    }
}

/// Step `n` is an onset exactly when the running quotient `n * pulses / steps` grows.
proof fn lemma_bit_is_carry(p: int, s: int, n: int)
    requires
        0 < p <= s,
        n >= 1,
    ensures
        euclid_bit(p, s, n) <==> (n * p) / s == ((n - 1) * p) / s + 1,
        !euclid_bit(p, s, n) <==> (n * p) / s == ((n - 1) * p) / s,
{
    let a = (n - 1) * p;
    assert(a >= 0) by (nonlinear_arith)
        requires
            n >= 1,
            p > 0,
            a == (n - 1) * p,
    ;
    assert(n * p == a + p) by (nonlinear_arith)
        requires
            a == (n - 1) * p,
    ;
    lemma_fundamental_div_mod(a, s);
    let q = a / s;
    let r = a % s;
    assert(s * q == q * s) by (nonlinear_arith);
    if r + p < s {
        lemma_fundamental_div_mod_converse(n * p, s, q, r + p);
    } else {
        assert((q + 1) * s == q * s + s) by (nonlinear_arith);
        lemma_fundamental_div_mod_converse(n * p, s, q + 1, r + p - s);
    }
}

/// Closed form of the onset count: `1 + (n - 1) * pulses / steps` for `1 <= n <= steps`.
proof fn lemma_euclid_count_closed(p: int, s: int, n: nat)
    requires
        0 < p <= s,
        1 <= n <= s,
    ensures
        euclid_count(p, s, n) == 1 + ((n - 1) * p) / s,
    decreases n,
{
    if n == 1 {
        assert(euclid_count(p, s, 0) == 0);
        assert((0 * p) % s == 0);
        assert(euclid_bit(p, s, 0));
    } else {
        lemma_euclid_count_closed(p, s, (n - 1) as nat);
        lemma_bit_is_carry(p, s, n - 1);
    }
}

/// A Euclidean rhythm over `steps` steps has exactly `pulses` onsets, for every
/// `pulses <= steps`.
pub proof fn lemma_euclid_onsets_equal_pulses(pulses: int, steps: int)
    requires
        0 <= pulses <= steps,
        steps > 0,
    ensures
        euclid_count(pulses, steps, steps as nat) == pulses,
    decreases steps,
{
    if pulses == 0 {
        lemma_zero_pulses_count(steps, steps as nat);
    } else {
        lemma_euclid_count_closed(pulses, steps, steps as nat);
        let a = (steps - 1) * pulses;
        assert(a == (pulses - 1) * steps + (steps - pulses)) by (nonlinear_arith)
            requires
                a == (steps - 1) * pulses,
        ;
        lemma_fundamental_div_mod_converse(a, steps, pulses - 1, steps - pulses);
    }
}

proof fn lemma_zero_pulses_count(steps: int, n: nat)
    ensures
        euclid_count(0, steps, n) == 0,
    decreases n,
{
    if n > 0 {
        lemma_zero_pulses_count(steps, (n - 1) as nat);
    }
}

proof fn lemma_count_true_matches(pattern: Seq<bool>, pulses: int, steps: int, n: nat)
    requires
        n <= pattern.len(),
        forall|i: int| 0 <= i < n ==> pattern[i] == euclid_bit(pulses, steps, i),
    ensures
        count_true(pattern.take(n as int)) == euclid_count(pulses, steps, n),
    decreases n,
{
    if n > 0 {
        lemma_count_true_matches(pattern, pulses, steps, (n - 1) as nat);
        assert(pattern.take(n as int).drop_last() =~= pattern.take(n - 1));
    }
}

#[derive(Debug, Clone, Copy, PartialEq, Eq)]
pub struct EuclideanPattern<const MAX_STEPS: usize> {
    pub pulses: usize,
    pub steps: usize,
    pub offset: usize,
    /// The onset table: entry `i` is step `i` of the unrotated rhythm.
    pub pattern: [bool; MAX_STEPS],
}

/// The mathematical content of a pattern: its parameters and the onset table.
pub struct EuclideanView {
    pub pulses: int,
    pub steps: int,
    pub offset: int,
    pub pattern: Seq<bool>,
}

impl<const MAX_STEPS: usize> View for EuclideanPattern<MAX_STEPS> {
    type V = EuclideanView;

    open spec fn view(&self) -> EuclideanView {
        EuclideanView {
            pulses: self.pulses as int,
            steps: self.steps as int,
            offset: self.offset as int,
            pattern: self.pattern@,
        }
    }
}

impl<const MAX_STEPS: usize> EuclideanPattern<MAX_STEPS> {
    /// The stored onset table, one entry per step slot.
    pub open spec fn pattern(self) -> Seq<bool> {
        self@.pattern
    }

    /// The unrotated table entry `index`; `false` past the last step.
    pub open spec fn raw_at(self, index: int) -> bool {
        index < self@.steps && self.pattern()[index]
    }

    /// Whether step `i` of the rotated rhythm is an onset: the table is read at
    /// `(i + offset) % steps`, and there are no onsets without steps.
    pub open spec fn active_at(self, i: int) -> bool {
        self@.steps > 0 && self.pattern()[(i + self@.offset) % self@.steps]
    }

    /// The fields agree with each other and the table holds E(`pulses`, `steps`)
    /// in its first `steps` slots and `false` after them.
    pub open spec fn wf(self) -> bool {
        &&& self@.steps <= MAX_STEPS
        &&& 0 <= self@.pulses <= self@.steps
        &&& (if self@.steps == 0 { self@.offset == 0 } else { 0 <= self@.offset < self@.steps })
        &&& self.pattern().len() == MAX_STEPS
        &&& forall|i: int|
            0 <= i < MAX_STEPS ==> #[trigger] self.pattern()[i] == (i < self@.steps && euclid_bit(
                self@.pulses,
                self@.steps,
                i,
            ))
    }

    /// `steps` is capped at `MAX_STEPS`, `pulses` at `steps`, and `offset` is
    /// reduced modulo `steps` (0 when there are no steps).
    pub fn new(pulses: usize, steps: usize, offset: usize) -> (r: Self)
        ensures
            r@.steps == (if steps > MAX_STEPS { MAX_STEPS } else { steps }),
            r@.pulses == (if pulses > r@.steps { r@.steps } else { pulses as int }),
            r@.offset == (if r@.steps == 0 { 0 } else { (offset as int) % r@.steps }),
            r.wf(),
    {
        let steps = if steps > MAX_STEPS { MAX_STEPS } else { steps };
        let pulses = if pulses > steps { steps } else { pulses };
        let offset = if steps == 0 { 0 } else { offset % steps };
        let mut pattern = [false; MAX_STEPS];
        assert(pattern@.len() == MAX_STEPS);

        let mut i: usize = 0;
        while i < steps
            invariant
                i <= steps <= MAX_STEPS,
                pulses <= steps,
                pattern@.len() == MAX_STEPS,
                forall|j: int|
                    0 <= j < MAX_STEPS ==> #[trigger] pattern@[j] == (j < i && euclid_bit(
                        pulses as int,
                        steps as int,
                        j,
                    )),
            decreases steps - i,
        {
            let a: u128 = i as u128;
            let b: u128 = pulses as u128;
            assert(a * b <= u128::MAX) by (nonlinear_arith)
                requires
                    a <= 0xffff_ffff_ffff_ffffu128,
                    b <= 0xffff_ffff_ffff_ffffu128,
            ;
            let prod: u128 = a * b;
            pattern[i] = pulses > 0 && prod % (steps as u128) < pulses as u128;
            i += 1;
        }

        Self { pulses, steps, offset, pattern }
    }

    /// Whether step `step_index` of the rotated rhythm is an onset: the table is
    /// read at `(step_index + offset) % steps`; no steps means no onsets.
    pub fn is_active(&self, step_index: usize) -> (r: bool)
        requires
            self@.steps <= MAX_STEPS,
            step_index + self@.offset <= usize::MAX,
        ensures
            r == self.active_at(step_index as int),
            self.wf() ==> r == (self@.steps > 0 && euclid_bit(
                self@.pulses,
                self@.steps,
                (step_index + self@.offset) % (self@.steps),
            )),
    {
        if self.steps == 0 {
            false
        } else {
            self.pattern[(step_index + self.offset) % self.steps]
        }
    }

    /// The unrotated table entry `index`; `false` past the last step.
    pub fn raw_step(&self, index: usize) -> (r: bool)
        requires
            self@.steps <= MAX_STEPS,
        ensures
            r == self.raw_at(index as int),
            self.wf() ==> r == (index < self@.steps && euclid_bit(
                self@.pulses,
                self@.steps,
                index as int,
            )),
    {
        if index >= self.steps {
            false
        } else {
            self.pattern[index]
        }
    }

    /// The number of onsets among the first `steps` table entries; for a
    /// well-formed pattern that is exactly `pulses`.
    pub fn active_count(&self) -> (r: usize)
        requires
            self@.steps <= MAX_STEPS,
        ensures
            r == count_true(self.pattern().take(self@.steps)),
            self.wf() ==> r == self@.pulses,
    {
        let mut count: usize = 0;
        let mut index: usize = 0;
        while index < self.steps
            invariant
                index <= self.steps <= MAX_STEPS,
                self.pattern().len() == MAX_STEPS,
                count == count_true(self.pattern().take(index as int)),
                count <= index,
            decreases self.steps - index,
        {
            assert(self.pattern().take(index + 1).drop_last() =~= self.pattern().take(
                index as int,
            ));
            if self.pattern[index] {
                count += 1;
            }
            index += 1;
        }
        proof {
            if self.wf() {
                lemma_count_true_matches(
                    self.pattern(),
                    self.pulses as int,
                    self.steps as int,
                    self.steps as nat,
                );
                if self.steps > 0 {
                    lemma_euclid_onsets_equal_pulses(self.pulses as int, self.steps as int);
                } else {
                    assert(self.pattern().take(0) =~= Seq::<bool>::empty());
                }
            }
        }
        count
    }
}

/// For any pattern, however its fields were set: the rotated rhythm repeats
/// every `steps` steps, and its step `i` is the unrotated entry
/// `(i + offset) % steps` (so step 0 is entry `offset` once the offset is
/// reduced, as `new` leaves it).
pub proof fn lemma_rotation<const MAX_STEPS: usize>(p: EuclideanPattern<MAX_STEPS>, i: int)
    requires
        i >= 0,
    ensures
        p.active_at(i + p@.steps) == p.active_at(i),
        p@.steps > 0 ==> p.active_at(i) == p.raw_at((i + p@.offset) % p@.steps),
        p@.steps > 0 && p@.offset < p@.steps ==> p.active_at(0) == p.raw_at(p@.offset),
        p@.steps == 0 ==> !p.active_at(i),
{
    if p@.steps > 0 {
        lemma_mod_add_multiples_vanish(i + p@.offset, p@.steps);
        assert(i + p@.steps + p@.offset == p@.steps + (i + p@.offset));
        vstd::arithmetic::div_mod::lemma_mod_bound(i + p@.offset, p@.steps);
        if p@.offset < p@.steps {
            vstd::arithmetic::div_mod::lemma_small_mod(p@.offset as nat, p@.steps as nat);
        }
    }
}

} // verus!
