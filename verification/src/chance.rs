//! Chance: the probabilities that a run is configured with, and the samples
//! that they are compared to.
//!
//! A sample is one of 2^53 equally likely numbers, drawn from the `rand`
//! crate. A probability is a threshold on that scale: it admits the samples
//! below it. The threshold 0 admits none and the threshold 2^53 admits all.

use vstd::prelude::*;

verus! {

/// The number of samples: 2^53.
pub const SAMPLE_SPACE: u64 = 9007199254740992;

/// The probability of an event, in units of 2^-53.
#[derive(Clone, Copy, Debug, PartialEq, Eq, Structural)]
pub struct Probability {
    threshold: u64,
}

impl View for Probability {
    type V = int;

    closed spec fn view(&self) -> int {
        self.threshold as int
    }
}

/// Whether the probability with the threshold `threshold` admits `sample`.
pub open spec fn admits(threshold: int, sample: u64) -> bool {
    sample < threshold
}

impl Probability {
    /// The probability `threshold` / 2^53; a threshold above 2^53 counts as
    /// 2^53, which is certainty.
    pub fn from_threshold(threshold: u64) -> (r: Self)
        ensures
            r@ == if threshold <= SAMPLE_SPACE {
                threshold as int
            } else {
                SAMPLE_SPACE as int
            },
    {
        if threshold <= SAMPLE_SPACE {
            Probability { threshold }
        } else {
            Probability { threshold: SAMPLE_SPACE }
        }
    }

    /// Certainty: every sample is admitted.
    pub fn always() -> (r: Self)
        ensures
            r@ == SAMPLE_SPACE,
    {
        Probability { threshold: SAMPLE_SPACE }
    }

    /// Impossibility: no sample is admitted.
    pub fn never() -> (r: Self)
        ensures
            r@ == 0,
    {
        Probability { threshold: 0 }
    }

    /// The threshold.
    pub fn threshold(&self) -> (r: u64)
        ensures
            r == self@,
            r <= SAMPLE_SPACE,
    {
        proof {
            use_type_invariant(self);
        }
        self.threshold
    }

    #[verifier::type_invariant]
    spec fn bounded(self) -> bool {
        self.threshold <= SAMPLE_SPACE
    }

    /// Whether the event takes place for the sample `sample`.
    pub fn admits(&self, sample: u64) -> (r: bool)
        ensures
            r == admits(self@, sample),
    {
        sample < self.threshold
    }
}

/// `rand::random::<u64>()`: a number drawn from the thread's generator.
/// Nothing is claimed of the number.
#[verifier::external_body]
fn random_u64() -> u64 {
    rand::random::<u64>()
}

/// Draws a sample: each number below 2^53 is as likely as any other.
pub fn draw() -> (sample: u64)
    ensures
        sample < SAMPLE_SPACE,
        exists|raw: u64| sample == top_bits(raw),
{
    let raw: u64 = random_u64();
    sample_of(raw)
}

/// The upper 53 of the 64 bits of `raw`, as a number.
pub open spec fn top_bits(raw: u64) -> u64 {
    raw / 2048
}

/// The sample that a drawn number stands for: its upper 53 bits. Numbers
/// that are equally likely give samples that are equally likely, because
/// every sample comes from exactly 2048 numbers.
pub fn sample_of(raw: u64) -> (sample: u64)
    ensures
        sample == top_bits(raw),
        sample < SAMPLE_SPACE,
        sample * 2048 <= raw < (sample + 1) * 2048,
{
    raw / 2048
}

} // verus!
