//! The equaliser's sample history: a delay line of three samples that lines
//! the unfiltered signal up with the output of a four-stage filter cascade.

use crate::arith::SILENCE;
use vstd::prelude::*;

verus! {

/// Number of samples by which the history delays its input.
pub const HISTORY_DELAY: usize = 3;

/// A history after `sample` has been shifted in: the newest sample comes
/// first, the oldest drops out.
pub open spec fn shifted(history: Seq<u32>, sample: u32) -> Seq<u32> {
    seq![sample, history[0], history[1]]
}

/// A history after each of `samples` has been shifted in, in order.
pub open spec fn fed(history: Seq<u32>, samples: Seq<u32>) -> Seq<u32>
    decreases samples.len(),
{
    if samples.len() == 0 {
        history
    } else {
        shifted(fed(history, samples.drop_last()), samples.last())
    }
}

/// The last three samples that went in, as patterns.
#[derive(Clone, Copy, Debug)]
pub struct History {
    /// The sample that went in last.
    pub sdm1: u32,
    /// The sample before it.
    pub sdm2: u32,
    /// The sample before that: the one that comes out.
    pub sdm3: u32,
}

impl View for History {
    type V = Seq<u32>;

    /// The three samples, newest first.
    open spec fn view(&self) -> Seq<u32> {
        seq![self.sdm1, self.sdm2, self.sdm3]
    }
}

impl History {
    /// A history of silence.
    pub fn new() -> (history: Self)
        ensures
            history@ == seq![SILENCE, SILENCE, SILENCE],
    {
        History { sdm1: SILENCE, sdm2: SILENCE, sdm3: SILENCE }
    }

    /// The sample that went in three shifts ago.
    pub fn delayed(&self) -> (sample: u32)
        ensures
            sample == self@[2],
    {
        self.sdm3
    }

    /// Shifts `sample` in; the oldest sample drops out.
    pub fn shift(&mut self, sample: u32)
        ensures
            final(self)@ == shifted(old(self)@, sample),
    {
        self.sdm3 = self.sdm2;
        self.sdm2 = self.sdm1;
        self.sdm1 = sample;
    }
}

/// A history always holds three samples.
pub proof fn lemma_history_length(history: Seq<u32>, samples: Seq<u32>)
    requires
        history.len() == HISTORY_DELAY,
    ensures
        fed(history, samples).len() == HISTORY_DELAY,
    decreases samples.len(),
{
    if samples.len() > 0 {
        lemma_history_length(history, samples.drop_last());
    }
}

/// The delay is exactly three samples: once at least three samples have gone
/// in, the delayed sample is the one that went in three shifts ago, whatever
/// the history held before; until then it is what the history held at first.
pub proof fn lemma_delay_is_three_samples(history: Seq<u32>, samples: Seq<u32>)
    requires
        history.len() == HISTORY_DELAY,
    ensures
        samples.len() >= 3 ==> fed(history, samples)[2] == samples[samples.len() - 3],
        samples.len() < 3 ==> fed(history, samples)[2] == history[2 - samples.len()],
{
    reveal_with_fuel(fed, 4);
}

} // verus!
