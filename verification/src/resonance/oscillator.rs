//! Wavetable oscillators driven by a 64-bit phase accumulator, and an LFSR noise source.
use vstd::prelude::*;
use crate::resonance::lut::{
    NUM_BANDS, PHASE_INDEX_SHIFT, SINE_LUT, TABLE_SIZE, sawtooth_sample, sawtooth_table,
    square_sample, square_table, triangle_sample, triangle_table,
};
use crate::cadence::random::{
    lemma_lfsr_iter_never_zero, lemma_lfsr_never_zero, lemma_new_spec_state, lfsr_iter, lfsr_seed,
    lfsr_step, Lfsr, DEFAULT_SEED,
};

verus! {

/// The table slot of a phase: its top ten bits.
pub open spec fn phase_slot(phase: u64) -> int {
    (phase >> 54u64) as int % 1024
}

/// The band actually read: bands past the last table read the last table.
pub open spec fn clamp_band(band: usize) -> int {
    if band < 9 { band as int } else { 9 }
}

/// The table slot a phase reads: its top ten bits.
pub fn lut_index(phase: u64) -> (r: usize)
    ensures
        r == phase_slot(phase),
        r < TABLE_SIZE,
{
    let hi: u64 = phase >> PHASE_INDEX_SHIFT;
    assert(phase >> 54u64 < 1024) by (bit_vector);
    (hi as usize) % TABLE_SIZE
}

/// The sine table read at the phase's slot.
pub fn sine(phase: u64) -> (r: i16)
    ensures
        r == SINE_LUT@[phase_slot(phase)],
{
    SINE_LUT[lut_index(phase)]
}

/// The square table of the band (capped at the last band) read at the phase's slot.
pub fn square(phase: u64, band: usize) -> (r: i16)
    ensures
        r == square_table(clamp_band(band))[phase_slot(phase)],
{
    let b = if band < NUM_BANDS - 1 { band } else { NUM_BANDS - 1 };
    square_sample(b, lut_index(phase))
}

/// The sawtooth table of the band (capped at the last band) read at the phase's slot.
pub fn sawtooth(phase: u64, band: usize) -> (r: i16)
    ensures
        r == sawtooth_table(clamp_band(band))[phase_slot(phase)],
{
    let b = if band < NUM_BANDS - 1 { band } else { NUM_BANDS - 1 };
    sawtooth_sample(b, lut_index(phase))
}

/// The triangle table of the band (capped at the last band) read at the phase's slot.
pub fn triangle(phase: u64, band: usize) -> (r: i16)
    ensures
        r == triangle_table(clamp_band(band))[phase_slot(phase)],
{
    let b = if band < NUM_BANDS - 1 { band } else { NUM_BANDS - 1 };
    triangle_sample(b, lut_index(phase))
}

/// An LFSR white-noise source; samples are the register reinterpreted as `i16`.
pub struct Noise {
    lfsr: u16,
}

impl View for Noise {
    type V = u16;

    /// The register value.
    closed spec fn view(&self) -> u16 {
        self.lfsr
    }
}

impl Noise {
    /// The register is never zero, so the source never locks up.
    #[verifier::type_invariant]
    spec fn nonzero(self) -> bool {
        self.lfsr != 0
    }

    /// Starts from the default register value.
    pub fn new() -> (r: Self)
        ensures
            r@ == DEFAULT_SEED,
    {
        Self { lfsr: DEFAULT_SEED }
    }

    /// Starts from `seed`, or from the default register value when `seed` is 0.
    pub fn with_seed(seed: u16) -> (r: Self)
        ensures
            r@ == lfsr_seed(seed),
    {
        Self { lfsr: if seed == 0 { DEFAULT_SEED } else { seed } }
    }

    /// Steps the register once and returns the new register as a signed sample.
    pub fn next_sample(&mut self) -> (r: i16)
        ensures
            final(self)@ == lfsr_step(old(self)@),
            r == final(self)@ as i16,
            final(self)@ != 0,
            r != 0,
    {
        proof {
            use_type_invariant(&*self);
            lemma_lfsr_never_zero(self.lfsr);
        }
        let s = self.lfsr;
        let next = if s & 1 == 1 {
            (s >> 1) ^ 0xB400
        } else {
            s >> 1
        };
        self.lfsr = next;
        proof {
            assert(next != 0 ==> next as i16 != 0) by (bit_vector);
        }
        next as i16
    }
}

impl Default for Noise {
    fn default() -> (r: Self)
        ensures
            r@ == DEFAULT_SEED,
    {
        Self::new()
    }
}

/// A noise source seeded with `seed` and a generator `Lfsr::new(seed)` start
/// on the same register (`lfsr_seed(seed)`) and step it alike (`lfsr_step`),
/// so after `k` steps both hold `lfsr_iter(lfsr_seed(seed), k)` and the noise
/// sample is that register read as `i16`; the register is never zero, so no
/// sample is zero.
pub proof fn lemma_noise_follows_generator(seed: u16, k: nat)
    ensures
        lfsr_iter(Lfsr::new_spec(seed).spec_state(), k) == lfsr_iter(lfsr_seed(seed), k),
        lfsr_iter(lfsr_seed(seed), k) != 0,
        lfsr_iter(lfsr_seed(seed), k) as i16 != 0,
        lfsr_iter(lfsr_seed(seed), k + 1) == lfsr_step(lfsr_iter(lfsr_seed(seed), k)),
{
    lemma_new_spec_state(seed);
    lemma_lfsr_iter_never_zero(lfsr_seed(seed), k);
    let x = lfsr_iter(lfsr_seed(seed), k);
    assert(x != 0 ==> x as i16 != 0) by (bit_vector);
}


/// Call after call: a noise source and a generator that hold the same
/// register (as `Noise::with_seed(s)` and `Lfsr::new(s)` do) keep holding the
/// same register after any number `k` of `next_sample` and `next_u16` calls,
/// and the `k`-th sample is the `k`-th generator value read as `i16`.
pub proof fn lemma_noise_tracks_generator(noise: Noise, gen: Lfsr, k: nat)
    requires
        noise@ == gen.spec_state(),
        k >= 1,
    ensures
        lfsr_iter(noise@, k) == lfsr_iter(gen.spec_state(), k),
        lfsr_step(lfsr_iter(noise@, (k - 1) as nat)) as i16 == lfsr_step(
            lfsr_iter(gen.spec_state(), (k - 1) as nat),
        ) as i16,
{
}

} // verus!
