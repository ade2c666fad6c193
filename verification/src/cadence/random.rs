//! A 16-bit Galois linear-feedback shift register.
use vstd::prelude::*;

verus! {

/// The seed that replaces a zero seed, since a zero register never leaves zero.
pub const DEFAULT_SEED: u16 = 0xACE1;

/// One step of the Galois LFSR with taps `0xB400`.
pub open spec fn lfsr_step(state: u16) -> u16 {
    if state & 1 == 1 {
        (state >> 1u16) ^ 0xB400u16
    } else {
        state >> 1u16
    }
}

/// The register after `k` steps from `state`.
pub open spec fn lfsr_iter(state: u16, k: nat) -> u16
    decreases k,
{
    if k == 0 {
        state
    } else {
        lfsr_step(lfsr_iter(state, (k - 1) as nat))
    }
}

/// The register value a seed starts from.
pub open spec fn lfsr_seed(seed: u16) -> u16 {
    if seed == 0 { DEFAULT_SEED } else { seed }
}

#[derive(Debug, Clone, Copy, PartialEq, Eq)]
pub struct Lfsr {
    state: u16,
}

impl Lfsr {
    /// The register value.
    pub closed spec fn spec_state(self) -> u16 {
        self.state
    }

    /// The generator a seed starts.
    pub closed spec fn new_spec(seed: u16) -> Self {
        Lfsr { state: lfsr_seed(seed) }
    }

    pub fn new(seed: u16) -> (r: Self)
        ensures
            r.spec_state() == lfsr_seed(seed),
            r == Lfsr::new_spec(seed),
    {
        Self { state: if seed == 0 { DEFAULT_SEED } else { seed } }
    }

    pub fn state(&self) -> (r: u16)
        ensures
            r == self.spec_state(),
    {
        self.state
    }

    pub fn next_u16(&mut self) -> (r: u16)
        ensures
            r == lfsr_step(old(self).spec_state()),
            final(self).spec_state() == r,
    {
        let bit = self.state & 1;
        self.state = self.state >> 1;
        if bit == 1 {
            self.state = self.state ^ 0xB400;
        }
        self.state
    }
}

impl Default for Lfsr {
    /// The generator seeded with the default seed.
    fn default() -> (r: Self)
        ensures
            r == Lfsr::new_spec(DEFAULT_SEED),
            r.spec_state() == DEFAULT_SEED,
    {
        Self::new(DEFAULT_SEED)
    }
}

/// The generator a seed starts holds the seed's register value.
pub proof fn lemma_new_spec_state(seed: u16)
    ensures
        Lfsr::new_spec(seed).spec_state() == lfsr_seed(seed),
{
}

/// A register that is not zero stays not zero after a step, so a seeded
/// generator never locks up.
pub proof fn lemma_lfsr_never_zero(state: u16)
    requires
        state != 0,
    ensures
        lfsr_step(state) != 0,
{
    assert(state != 0 ==> (if state & 1 == 1 { (state >> 1u16) ^ 0xB400u16 } else { state >> 1u16 }) != 0) by (bit_vector);
}

/// A nonzero register stays nonzero however many steps it takes.
pub proof fn lemma_lfsr_iter_never_zero(state: u16, k: nat)
    requires
        state != 0,
    ensures
        lfsr_iter(state, k) != 0,
    decreases k,
{
    if k > 0 {
        lemma_lfsr_iter_never_zero(state, (k - 1) as nat);
        lemma_lfsr_never_zero(lfsr_iter(state, (k - 1) as nat));
    }
}

} // verus!
