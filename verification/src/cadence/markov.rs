//! A first-order Markov chain over `STATES` states with integer transition weights.
use vstd::prelude::*;

verus! {

/// The weight total of the first `n` entries of `row`, saturating at `u16::MAX`
/// the way the chain adds them.
pub open spec fn saturating_total(row: Seq<u8>, n: nat) -> int
    decreases n,
{
    if n == 0 {
        0
    } else {
        let t = saturating_total(row, (n - 1) as nat) + row[n - 1];
        if t > u16::MAX {
            u16::MAX as int
        } else {
            t
        }
    }
}

/// The exact weight total of the entries of `row` from index `k` on.
pub open spec fn weight_from(row: Seq<u8>, k: int) -> int
    decreases row.len() - k,
{
    if k >= row.len() || k < 0 {
        0
    } else {
        row[k] + weight_from(row, k + 1)
    }
}

/// Scanning `row` from index `k` with `threshold`: the first entry whose weight
/// exceeds what is left of the threshold, subtracting each weight passed over.
pub open spec fn pick_state(row: Seq<u8>, k: int, threshold: int) -> Option<int>
    decreases row.len() - k,
{
    if k >= row.len() || k < 0 {
        None
    } else if threshold < row[k] {
        Some(k)
    } else {
        pick_state(row, k + 1, threshold - row[k])
    }
}

/// The state the chain moves to from `current` on `seed`: the weighted pick in
/// the current row at `(seed as int) % total`, or `current` when the row has no weight.
pub open spec fn markov_next(matrix: Seq<Seq<u8>>, states: nat, current: int, seed: u16) -> int {
    if states == 0 {
        0
    } else {
        let row = matrix[current];
        let total = saturating_total(row, row.len());
        if total == 0 {
            current
        } else {
            match pick_state(row, 0, (seed as int) % total) {
                Some(k) => k,
                None => current,
            }
        }
    }
}

proof fn lemma_saturating_total_bounds(row: Seq<u8>, n: nat)
    requires
        n <= row.len(),
    ensures
        0 <= saturating_total(row, n) <= u16::MAX,
        saturating_total(row, n) <= weight_from(row, 0) - weight_from(row, n as int),
    decreases n,
{
    if n > 0 {
        lemma_saturating_total_bounds(row, (n - 1) as nat);
        assert(weight_from(row, n - 1) == row[n - 1] + weight_from(row, n as int));
    }
}

proof fn lemma_weight_nonneg(row: Seq<u8>, k: int)
    ensures
        weight_from(row, k) >= 0,
    decreases row.len() - k,
{
    if 0 <= k < row.len() {
        lemma_weight_nonneg(row, k + 1);
    }
}

/// A threshold below the remaining weight always lands on an entry of nonzero weight.
proof fn lemma_pick_found(row: Seq<u8>, k: int, threshold: int)
    requires
        0 <= k,
        0 <= threshold < weight_from(row, k),
    ensures
        pick_state(row, k, threshold) matches Some(j) && k <= j < row.len() && row[j] > 0,
    decreases row.len() - k,
{
    if threshold >= row[k] {
        lemma_pick_found(row, k + 1, threshold - row[k]);
    }
}

proof fn lemma_pick_in_range(row: Seq<u8>, k: int, threshold: int)
    requires
        0 <= k,
    ensures
        pick_state(row, k, threshold) matches Some(j) ==> k <= j < row.len(),
    decreases row.len() - k,
{
    if 0 <= k < row.len() && threshold >= row[k] {
        lemma_pick_in_range(row, k + 1, threshold - row[k]);
    }
}

#[derive(Debug, Clone, Copy, PartialEq, Eq)]
pub struct MarkovChain<const STATES: usize> {
    matrix: [[u8; STATES]; STATES],
    current_state: usize,
}

/// The transition weights as rows, and the current state.
pub struct MarkovView {
    pub matrix: Seq<Seq<u8>>,
    pub current: int,
}

impl<const STATES: usize> View for MarkovChain<STATES> {
    type V = MarkovView;

    closed spec fn view(&self) -> MarkovView {
        MarkovView {
            matrix: Seq::new(STATES as nat, |i: int| self.matrix@[i]@),
            current: self.current_state as int,
        }
    }
}

impl<const STATES: usize> MarkovChain<STATES> {
    #[verifier::type_invariant]
    spec fn inv(self) -> bool {
        if STATES == 0 {
            self.current_state == 0
        } else {
            self.current_state < STATES
        }
    }

    /// The chain after one step on `seed`: the same weights, in the next state.
    pub closed spec fn stepped(self, seed: u16) -> Self {
        if STATES == 0 {
            self
        } else {
            MarkovChain {
                matrix: self.matrix,
                current_state: markov_next(self@.matrix, STATES as nat, self@.current, seed) as usize,
            }
        }
    }

    /// A step keeps the weights and moves the chain to the state it draws.
    pub proof fn lemma_stepped(self, seed: u16)
        requires
            STATES > 0,
            0 <= self@.current < STATES,
        ensures
            self.stepped(seed)@.matrix == self@.matrix,
            self.stepped(seed)@.current == markov_next(self@.matrix, STATES as nat, self@.current, seed),
            0 <= markov_next(self@.matrix, STATES as nat, self@.current, seed) < STATES,
    {
        lemma_markov_next_weighted(self@.matrix, STATES as nat, self@.current, seed);
        assert(self.stepped(seed)@.matrix =~= self@.matrix);
    }

    /// The starting state is clamped to the last state.
    pub fn new(matrix: [[u8; STATES]; STATES], current_state: usize) -> (r: Self)
        ensures
            r@.matrix == Seq::new(STATES as nat, |i: int| matrix@[i]@),
            r@.current == (if STATES == 0 {
                0
            } else if current_state >= STATES {
                STATES - 1
            } else {
                current_state as int
            }),
    {
        let current_state = if STATES == 0 {
            0
        } else if current_state >= STATES {
            STATES - 1
        } else {
            current_state
        };
        Self { matrix, current_state }
    }

    pub fn current_state(&self) -> (r: usize)
        ensures
            r == self@.current,
            STATES > 0 ==> r < STATES,
    {
        proof {
            use_type_invariant(self);
        }
        self.current_state
    }

    /// Moves to `state`, clamped to the last state; a chain without states is unchanged.
    pub fn set_state(&mut self, state: usize)
        ensures
            final(self)@.matrix == old(self)@.matrix,
            final(self)@.current == (if STATES == 0 {
                old(self)@.current
            } else if state >= STATES {
                STATES - 1
            } else {
                state as int
            }),
    {
        if STATES > 0 {
            self.current_state = if state < STATES - 1 { state } else { STATES - 1 };
        }
    }

    /// Takes one weighted step and returns the new state.
    pub fn next(&mut self, random_seed: u16) -> (r: usize)
        ensures
            r == markov_next(old(self)@.matrix, STATES as nat, old(self)@.current, random_seed),
            final(self)@.matrix == old(self)@.matrix,
            final(self)@.current == (if STATES == 0 { old(self)@.current } else { r as int }),
            *final(self) == old(self).stepped(random_seed),
            STATES > 0 ==> r < STATES,
            STATES > 0 && saturating_total(old(self)@.matrix[old(self)@.current], STATES as nat)
                == 0 ==> r == old(self)@.current,
            STATES > 0 && saturating_total(old(self)@.matrix[old(self)@.current], STATES as nat)
                > 0 ==> old(self)@.matrix[old(self)@.current][r as int] > 0,
    {
        proof {
            use_type_invariant(&*self);
            if STATES > 0 {
                lemma_markov_next_weighted(
                    self@.matrix,
                    STATES as nat,
                    self@.current,
                    random_seed,
                );
            }
        }
        if STATES == 0 {
            return 0;
        }
        let row = self.matrix[self.current_state];
        let ghost srow = row@;
        assert(srow == self@.matrix[self@.current]);
        let mut total: u16 = 0;
        let mut i: usize = 0;
        while i < STATES
            invariant
                i <= STATES,
                *self == *old(self),
                srow == row@,
                srow.len() == STATES,
                total == saturating_total(srow, i as nat),
            decreases STATES - i,
        {
            total = total.saturating_add(row[i] as u16);
            i += 1;
        }
        if total == 0 {
            return self.current_state;
        }
        let mut threshold = random_seed % total;
        let mut state: usize = 0;
        while state < STATES
            invariant
                state <= STATES,
                *self == *old(self),
                srow == row@,
                srow == old(self)@.matrix[old(self)@.current],
                srow.len() == STATES,
                total == saturating_total(srow, srow.len()),
                total > 0,
                pick_state(srow, state as int, threshold as int) == pick_state(
                    srow,
                    0,
                    (random_seed % total) as int,
                ),
            decreases STATES - state,
        {
            let weight = row[state] as u16;
            if threshold < weight {
                self.current_state = state;
                return state;
            }
            threshold = threshold - weight;
            state += 1;
        }
        self.current_state
    }
}

/// The chain only ever takes transitions of nonzero weight: from a row with any
/// weight the next state has a positive weight in that row, and from an empty
/// row the chain stays where it is. The next state is always a valid state.
pub proof fn lemma_markov_next_weighted(matrix: Seq<Seq<u8>>, states: nat, current: int, seed: u16)
    requires
        states > 0,
        0 <= current < states,
        matrix.len() == states,
        matrix[current].len() == states,
    ensures
        0 <= markov_next(matrix, states, current, seed) < states,
        saturating_total(matrix[current], states) == 0 ==> markov_next(
            matrix,
            states,
            current,
            seed,
        ) == current,
        saturating_total(matrix[current], states) > 0 ==> matrix[current][markov_next(
            matrix,
            states,
            current,
            seed,
        )] > 0,
{
    let row = matrix[current];
    let total = saturating_total(row, row.len());
    lemma_saturating_total_bounds(row, row.len());
    lemma_weight_nonneg(row, row.len() as int);
    if total > 0 {
        lemma_pick_found(row, 0, (seed as int) % total);
    }
}

} // verus!
