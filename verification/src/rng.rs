//! The deterministic generator that gives each simulated tick its randomness.

use vstd::prelude::*;
use crate::utils::{lfsr, spec_lfsr, lemma_lfsr_zero, lemma_lfsr_moves};

verus! {

/// A generator whose output after `reset(tick)` depends on the seed and the
/// tick alone, so that any tick can be replayed.
#[derive(Debug, PartialEq, Eq, Clone, Copy)]
pub struct TickBasedRng {
    pub num: Option<u32>,
    pub tick: u32,
    pub seed: u32,
}

/// The register state that a fresh generator starts from: the wrapping sum of
/// seed and tick, moved down by two where the sum is zero or all ones.
pub open spec fn spec_initial_state(seed: u32, tick: u32) -> u32 {
    let sum = ((seed as int + tick as int) % 0x1_0000_0000) as u32;
    if sum == 0 {
        0xffff_fffeu32
    } else if sum == 0xffff_ffff {
        0xffff_fffdu32
    } else {
        sum
    }
}

/// The `n`-th value that a generator started at `(seed, tick)` gives, counted
/// from zero.
pub open spec fn spec_output(seed: u32, tick: u32, n: nat) -> u32
    decreases n,
{
    if n == 0 {
        spec_lfsr(spec_initial_state(seed, tick))
    } else {
        spec_lfsr(spec_output(seed, tick, (n - 1) as nat))
    }
}

impl TickBasedRng {
    /// The value that the next call of `rand` returns.
    pub open spec fn spec_next(&self) -> u32 {
        match self.num {
            Some(num) => spec_lfsr(num),
            None => spec_lfsr(spec_initial_state(self.seed, self.tick)),
        }
    }

    /// The generator after one call of `rand`.
    pub open spec fn spec_advance(&self) -> TickBasedRng {
        TickBasedRng { num: Some(self.spec_next()), tick: self.tick, seed: self.seed }
    }

    /// The generator after `n` calls of `rand`.
    pub open spec fn spec_advance_by(&self, n: nat) -> TickBasedRng
        decreases n,
    {
        if n == 0 {
            *self
        } else {
            self.spec_advance_by((n - 1) as nat).spec_advance()
        }
    }

    /// Whether no value has been drawn since the generator was made or reset.
    pub open spec fn is_fresh(&self) -> bool {
        self.num is None
    }

    /// Whether the register can never stick at zero: a drawn value is not zero.
    pub open spec fn wf(&self) -> bool {
        self.num != Some(0u32)
    }

    pub fn new(seed: u32, tick: u32) -> (rng: Self)
        ensures
            rng == (TickBasedRng { num: None, tick, seed }),
            rng.is_fresh(),
            rng.wf(),
    {
        Self { num: None, tick, seed }
    }

    /// Forgets the drawn values and moves to `tick`; the seed stays.
    pub fn reset(&mut self, tick: u32)
        ensures
            *final(self) == (TickBasedRng { num: None, tick, seed: old(self).seed }),
            final(self).wf(),
    {
        self.num = None;
        self.tick = tick;
    }

    /// Draws the next value of the sequence.
    pub fn rand(&mut self) -> (value: u32)
        ensures
            value == old(self).spec_next(),
            *final(self) == old(self).spec_advance(),
            old(self).wf() ==> value != 0 && final(self).wf(),
    {
        let input: u32 = match self.num {
            Some(num) => num,
            None => {
                let sum: u32 = self.seed.wrapping_add(self.tick);
                if sum == 0 || sum == 0xffff_ffff {
                    sum.wrapping_sub(2)
                } else {
                    sum
                }
            },
        };
        let value: u32 = lfsr(input);
        proof {
            lemma_lfsr_zero(input);
        }
        self.num = Some(value);
        value
    }
}

/// A fresh generator never starts from the zero register.
pub proof fn lemma_initial_state_nonzero(seed: u32, tick: u32)
    ensures
        spec_initial_state(seed, tick) != 0,
{
}

/// After `n` draws from a fresh generator, the next draw is the `n`-th value
/// of the sequence of its seed and tick.
pub proof fn lemma_advance_output(rng: TickBasedRng, n: nat)
    requires
        rng.is_fresh(),
    ensures
        rng.spec_advance_by(n).spec_next() == spec_output(rng.seed, rng.tick, n),
        rng.spec_advance_by(n).seed == rng.seed,
        rng.spec_advance_by(n).tick == rng.tick,
        n > 0 ==> rng.spec_advance_by(n).num == Some(
            spec_output(rng.seed, rng.tick, (n - 1) as nat),
        ),
    decreases n,
{
    if n > 0 {
        lemma_advance_output(rng, (n - 1) as nat);
    }
}

/// Determinism: two generators that were made or reset with the same seed and
/// tick give the same value at every position of their sequences, whatever
/// either of them did before.
pub proof fn lemma_rng_determinism(a: TickBasedRng, b: TickBasedRng, n: nat)
    requires
        a.is_fresh(),
        b.is_fresh(),
        a.seed == b.seed,
        a.tick == b.tick,
    ensures
        a.spec_advance_by(n) == b.spec_advance_by(n),
        a.spec_advance_by(n).spec_next() == b.spec_advance_by(n).spec_next(),
        a.spec_advance_by(n).spec_next() == spec_output(a.seed, a.tick, n),
{
    lemma_advance_output(a, n);
    lemma_advance_output(b, n);
    if n > 0 {
        lemma_advance_output(a, (n - 1) as nat);
        lemma_advance_output(b, (n - 1) as nat);
    }
}

/// No value of any sequence is zero.
pub proof fn lemma_output_nonzero(seed: u32, tick: u32, n: nat)
    ensures
        spec_output(seed, tick, n) != 0,
    decreases n,
{
    if n == 0 {
        lemma_lfsr_zero(spec_initial_state(seed, tick));
    } else {
        lemma_output_nonzero(seed, tick, (n - 1) as nat);
        lemma_lfsr_zero(spec_output(seed, tick, (n - 1) as nat));
    }
}

/// The generator is never stuck: each value differs from the one before it,
/// so no value, zero and all ones among them, is given twice in a row.
pub proof fn lemma_output_never_repeats(seed: u32, tick: u32, n: nat)
    ensures
        spec_output(seed, tick, n + 1) != spec_output(seed, tick, n),
{
    lemma_output_nonzero(seed, tick, n);
    lemma_lfsr_moves(spec_output(seed, tick, n));
}

/// Where seed and tick add up to zero, the first three values are all ones
/// with the top bits cleared one by one.
pub proof fn lemma_zero_sum_outputs(seed: u32, tick: u32)
    requires
        (seed as int + tick as int) % 0x1_0000_0000 == 0,
    ensures
        spec_output(seed, tick, 0) == 0xffff_ffffu32,
        spec_output(seed, tick, 1) == 0x7fff_ffffu32,
        spec_output(seed, tick, 2) == 0x3fff_ffffu32,
{
    reveal_with_fuel(spec_output, 3);
    assert(spec_lfsr(0xffff_fffeu32) == 0xffff_ffffu32 && spec_lfsr(0xffff_ffffu32)
        == 0x7fff_ffffu32 && spec_lfsr(0x7fff_ffffu32) == 0x3fff_ffffu32) by (bit_vector);
}

/// Where seed and tick add up to all ones, the first three values are these;
/// the second is all ones, and the third has left it again.
pub proof fn lemma_ones_sum_outputs(seed: u32, tick: u32)
    requires
        (seed as int + tick as int) % 0x1_0000_0000 == 0xffff_ffff,
    ensures
        spec_output(seed, tick, 0) == 0xffff_fffeu32,
        spec_output(seed, tick, 1) == 0xffff_ffffu32,
        spec_output(seed, tick, 2) == 0x7fff_ffffu32,
{
    reveal_with_fuel(spec_output, 3);
    assert(spec_lfsr(0xffff_fffdu32) == 0xffff_fffeu32 && spec_lfsr(0xffff_fffeu32)
        == 0xffff_ffffu32 && spec_lfsr(0xffff_ffffu32) == 0x7fff_ffffu32) by (bit_vector);
}

} // verus!
