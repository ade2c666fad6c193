//! Fixed-capacity PCM buffers and saturating mixing.
use vstd::prelude::*;

verus! {

/// The phase after `n` steps of `inc` from `start`, wrapping at 2^64.
pub open spec fn phase_after(start: u64, inc: u64, n: nat) -> u64
    decreases n,
{
    if n == 0 {
        start
    } else {
        vstd::wrapping::u64_specs::wrapping_add(phase_after(start, inc, (n - 1) as nat), inc)
    }
}

/// Consecutive fills continue the phase seamlessly: `n` steps then `m` steps
/// land where `n + m` steps land.
pub proof fn lemma_phase_after_additive(start: u64, inc: u64, n: nat, m: nat)
    ensures
        phase_after(phase_after(start, inc, n), inc, m) == phase_after(start, inc, n + m),
    decreases m,
{
    if m > 0 {
        lemma_phase_after_additive(start, inc, n, (m - 1) as nat);
        assert((n + m - 1) as nat == (n + (m - 1)) as nat);
    }
}

/// `x` clamped to the `i16` range.
pub open spec fn saturate_i16(x: int) -> i16 {
    if x > 32767 {
        32767
    } else if x < -32768 {
        -32768i16
    } else {
        x as i16
    }
}

/// The sum of sample `i` over the first `m` inputs.
pub open spec fn column_sum(inputs: Seq<&[i16]>, i: int, m: nat) -> int
    decreases m,
{
    if m == 0 {
        0
    } else {
        column_sum(inputs, i, (m - 1) as nat) + inputs[m - 1]@[i]
    }
}

proof fn lemma_column_sum_bounds(inputs: Seq<&[i16]>, i: int, m: nat)
    ensures
        -32768 * m <= column_sum(inputs, i, m) <= 32767 * m,
    decreases m,
{
    if m > 0 {
        lemma_column_sum_bounds(inputs, i, (m - 1) as nat);
    }
}

pub struct PcmBuffer<const N: usize> {
    pub samples: [i16; N],
    pub len: usize,
}

impl<const N: usize> PcmBuffer<N> {
    /// A silent, empty buffer.
    pub fn new() -> (r: Self)
        ensures
            r.len == 0,
            forall|i: int| 0 <= i < N ==> #[trigger] r.samples@[i] == 0,
    {
        Self { samples: [0i16; N], len: 0 }
    }

    /// Fills all `N` samples with `osc_fn` at successive phases, starting at
    /// `*phase` and stepping by `phase_inc` (wrapping); leaves the phase after the
    /// last sample in `*phase`.
    pub fn fill_raw<F: Fn(u64) -> i16>(&mut self, osc_fn: F, phase_inc: u64, phase: &mut u64)
        requires
            forall|p: u64| #[trigger] osc_fn.requires((p,)),
        ensures
            final(self).len == N,
            final(self).samples@.len() == N,
            forall|i: int|
                0 <= i < N ==> osc_fn.ensures(
                    (phase_after(*old(phase), phase_inc, i as nat),),
                    #[trigger] final(self).samples@[i],
                ),
            *final(phase) == phase_after(*old(phase), phase_inc, N as nat),
    {
        let ghost start = *phase;
        let mut i: usize = 0;
        while i < N
            invariant
                i <= N,
                self.samples@.len() == N,
                forall|p: u64| #[trigger] osc_fn.requires((p,)),
                *phase == phase_after(start, phase_inc, i as nat),
                forall|j: int|
                    0 <= j < i ==> osc_fn.ensures(
                        (phase_after(start, phase_inc, j as nat),),
                        #[trigger] self.samples@[j],
                    ),
            decreases N - i,
        {
            let s = osc_fn(*phase);
            self.samples[i] = s;
            *phase = phase.wrapping_add(phase_inc);
            i += 1;
        }
        self.len = N;
    }

    /// The first `len` samples.
    pub fn as_slice(&self) -> (r: &[i16])
        requires
            self.len <= N,
        ensures
            r@ == self.samples@.take(self.len as int),
    {
        let s: &[i16] = self.samples.as_slice();
        vstd::slice::slice_subrange(s, 0, self.len)
    }
}

impl<const N: usize> Default for PcmBuffer<N> {
    fn default() -> (r: Self)
        ensures
            r.len == 0,
            forall|i: int| 0 <= i < N ==> #[trigger] r.samples@[i] == 0,
    {
        Self::new()
    }
}

/// Writes, for each of the first `len` positions, the sum of that sample over all
/// inputs clamped to the `i16` range; the rest of `output` is left as it was.
pub fn mix(inputs: &[&[i16]], output: &mut [i16], len: usize)
    requires
        len <= old(output)@.len(),
        inputs@.len() <= 65536,
        forall|k: int| 0 <= k < inputs@.len() ==> len <= (#[trigger] inputs@[k])@.len(),
    ensures
        final(output)@.len() == old(output)@.len(),
        forall|i: int|
            0 <= i < len ==> #[trigger] final(output)@[i] == saturate_i16(
                column_sum(inputs@, i, inputs@.len()),
            ),
        forall|i: int| len <= i < old(output)@.len() ==> #[trigger] final(output)@[i] == old(output)@[i],
{
    let n = inputs.len();
    let mut i: usize = 0;
    while i < len
        invariant
            i <= len <= output@.len(),
            output@.len() == old(output)@.len(),
            n == inputs@.len(),
            n <= 65536,
            forall|k: int| 0 <= k < inputs@.len() ==> len <= (#[trigger] inputs@[k])@.len(),
            forall|j: int|
                0 <= j < i ==> #[trigger] output@[j] == saturate_i16(column_sum(inputs@, j, n as nat)),
            forall|j: int| len <= j < output@.len() ==> #[trigger] output@[j] == old(output)@[j],
        decreases len - i,
    {
        let mut sum: i32 = 0;
        let mut k: usize = 0;
        while k < n
            invariant
                k <= n,
                n == inputs@.len(),
                n <= 65536,
                i < len,
                forall|q: int| 0 <= q < inputs@.len() ==> len <= (#[trigger] inputs@[q])@.len(),
                sum == column_sum(inputs@, i as int, k as nat),
            decreases n - k,
        {
            proof {
                lemma_column_sum_bounds(inputs@, i as int, k as nat);
            }
            let input: &[i16] = inputs[k];
            sum = sum + input[i] as i32;
            k += 1;
        }
        let v: i16 = if sum > 32767 {
            32767
        } else if sum < -32768 {
            -32768
        } else {
            sum as i16
        };
        output[i] = v;
        i += 1;
    }
}

} // verus!
