//! The one source of chance: a stream of numbers that follows from a seed and
//! from nothing else, so that two runs from one seed start from the same
//! parameters.
//!
//! The stream is SplitMix64. Its state moves by a fixed odd constant; each
//! output is the state scrambled by two rounds of shifting, xoring and
//! multiplying, and a last shift and xor.

use vstd::prelude::*;
use vstd::wrapping::u64_specs::{wrapping_add, wrapping_mul};

verus! {

/// The amount by which the state moves with every draw.
pub const INCREMENT: u64 = 0x9E37_79B9_7F4A_7C15;

/// The multiplier of the first round.
pub const FIRST_MULTIPLIER: u64 = 0xBF58_476D_1CE4_E5B9;

/// The multiplier of the second round.
pub const SECOND_MULTIPLIER: u64 = 0x94D0_49BB_1331_11EB;

/// Number of bits in a fraction: as many as a double-precision number holds
/// exactly.
pub const FRACTION_BITS: u32 = 53;

/// The state after the given one.
pub open spec fn stepped(state: u64) -> u64 {
    wrapping_add(state, INCREMENT)
}

/// The output that belongs to a state.
pub open spec fn scrambled(state: u64) -> u64 {
    let first = wrapping_mul(state ^ (state >> 30), FIRST_MULTIPLIER);
    let second = wrapping_mul(first ^ (first >> 27), SECOND_MULTIPLIER);
    second ^ (second >> 31)
}

/// The top fifty-three bits of a word: a number `k` below 2^53 that stands for
/// the fraction `k / 2^53` of the unit interval.
pub open spec fn fraction_of(word: u64) -> u64 {
    word >> 11
}

/// The state after the given number of draws.
pub open spec fn state_after(seed: u64, draws: nat) -> u64
    decreases draws,
{
    if draws == 0 {
        seed
    } else {
        stepped(state_after(seed, (draws - 1) as nat))
    }
}

/// The first fractions that a seed gives, in the order in which they are
/// drawn.
pub open spec fn fractions_from(seed: u64, count: nat) -> Seq<u64> {
    Seq::new(count, |i: int| fraction_of(scrambled(state_after(seed, (i + 1) as nat))))
}

/// A stream of numbers that follows from its seed.
#[derive(Debug, Clone, Copy, PartialEq, Eq, Structural)]
pub struct Generator {
    pub state: u64,
}

impl Generator {
    /// A stream that starts from the given seed.
    pub fn seeded(seed: u64) -> (r: Generator)
        ensures
            r.state == seed,
    {
        Generator { state: seed }
    }

    /// Draws the next word of the stream.
    pub fn next_word(&mut self) -> (r: u64)
        ensures
            final(self).state == stepped(old(self).state),
            r == scrambled(final(self).state),
    {
        self.state = self.state.wrapping_add(INCREMENT);
        let state = self.state;
        let first = (state ^ (state >> 30)).wrapping_mul(FIRST_MULTIPLIER);
        let second = (first ^ (first >> 27)).wrapping_mul(SECOND_MULTIPLIER);
        second ^ (second >> 31)
    }

    /// Draws the next fraction of the stream: a number below 2^53.
    pub fn next_fraction(&mut self) -> (r: u64)
        ensures
            final(self).state == stepped(old(self).state),
            r == fraction_of(scrambled(final(self).state)),
            r < 0x20_0000_0000_0000,
    {
        let word = self.next_word();
        assert(word >> 11 < 0x20_0000_0000_0000) by (bit_vector);
        word >> 11
    }

    /// Draws the given number of fractions.
    pub fn fractions(&mut self, count: usize) -> (r: Vec<u64>)
        ensures
            final(self).state == state_after(old(self).state, count as nat),
            r@ == fractions_from(old(self).state, count as nat),
    {
        let mut drawn: Vec<u64> = Vec::new();
        let mut i: usize = 0;
        while i < count
            invariant
                i <= count,
                drawn@.len() == i,
                self.state == state_after(old(self).state, i as nat),
                forall|j: int|
                    0 <= j < i ==> drawn@[j] == fraction_of(
                        scrambled(state_after(old(self).state, (j + 1) as nat)),
                    ),
            decreases count - i,
        {
            let fraction = self.next_fraction();
            drawn.push(fraction);
            i = i + 1;
        }
        drawn
    }
}

/// Every fraction of a stream is below 2^53.
pub proof fn law_fractions_are_below_one(seed: u64, count: nat, i: int)
    requires
        0 <= i < count,
    ensures
        fractions_from(seed, count)[i] < 0x20_0000_0000_0000,
{
    let word = scrambled(state_after(seed, (i + 1) as nat));
    assert(word >> 11 < 0x20_0000_0000_0000) by (bit_vector);
}

/// What a stream gives does not depend on how many numbers are asked for at a
/// time: the fractions drawn first are the start of those drawn in all.
pub proof fn law_stream_is_drawn_in_order(seed: u64, first: nat, more: nat)
    ensures
        fractions_from(seed, first + more).take(first as int) == fractions_from(seed, first),
        fractions_from(seed, first + more).skip(first as int) == fractions_from(
            state_after(seed, first),
            more,
        ),
{
    assert forall|i: int| 0 <= i < more implies #[trigger] fractions_from(
        state_after(seed, first),
        more,
    )[i] == fractions_from(seed, first + more)[first + i] by {
        lemma_states_compose(seed, first, (i + 1) as nat);
    }
}

/// Drawing `first` times and then `more` times leaves the state that drawing
/// `first + more` times leaves.
pub proof fn lemma_states_compose(seed: u64, first: nat, more: nat)
    ensures
        state_after(seed, first + more) == state_after(state_after(seed, first), more),
    decreases more,
{
    if more > 0 {
        lemma_states_compose(seed, first, (more - 1) as nat);
    }
}

} // verus!
