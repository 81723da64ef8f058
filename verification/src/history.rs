//! The sliding window of recent progress samples.

use crate::binary64::Binary64;
use std::collections::VecDeque;
use vstd::prelude::*;

verus! {

/// The most samples that a window holds.
pub const WINDOW: usize = 10;

/// One progress report: when it was taken and the percentage it gave.
#[derive(Clone, Copy, Debug)]
pub struct Sample {
    pub timestamp: u64,
    pub progress: Binary64,
}

impl Sample {
    /// The time from `first` to this sample in 64-bit unsigned arithmetic,
    /// which wraps around where the sample is the earlier of the two.
    pub open spec fn elapsed(self, first: u64) -> int {
        if self.timestamp >= first {
            self.timestamp - first
        } else {
            self.timestamp - first + 0x1_0000_0000_0000_0000
        }
    }

    /// What this sample's progress is divided by to give a speed: the elapsed
    /// time, or one where no time has elapsed.
    pub open spec fn speed_divisor(self, first: u64) -> int {
        if self.elapsed(first) == 0 {
            1
        } else {
            self.elapsed(first)
        }
    }

    /// Computes the divisor of this sample's speed.
    pub fn divisor(self, first: u64) -> (d: u64)
        ensures
            d == self.speed_divisor(first),
            d > 0,
    {
        let elapsed: u64 = self.timestamp.wrapping_sub(first);
        if elapsed == 0 {
            1
        } else {
            elapsed
        }
    }
}

/// The progress of the newest sample, or positive zero for an empty window.
pub open spec fn last_progress(samples: Seq<Sample>) -> Binary64 {
    if samples.len() == 0 {
        Binary64 { bits: 0 }
    } else {
        samples.last().progress
    }
}

/// The window after `sample` has come in: it goes to the back, and where the
/// window was full the oldest sample leaves from the front.
pub open spec fn slide(samples: Seq<Sample>, sample: Sample) -> Seq<Sample> {
    if samples.len() >= WINDOW {
        samples.skip(1).push(sample)
    } else {
        samples.push(sample)
    }
}

/// A first-in, first-out window of at most [`WINDOW`] samples, oldest first.
pub struct History {
    samples: VecDeque<Sample>,
}

impl View for History {
    type V = Seq<Sample>;

    closed spec fn view(&self) -> Seq<Sample> {
        self.samples@
    }
}

impl History {
    /// A window never holds more than [`WINDOW`] samples.
    #[verifier::type_invariant]
    pub open spec fn bounded(&self) -> bool {
        self@.len() <= WINDOW
    }

    /// Creates an empty window.
    pub fn new() -> (history: History)
        ensures
            history@ == Seq::<Sample>::empty(),
    {
        History { samples: VecDeque::with_capacity(WINDOW) }
    }

    /// The number of samples held, never more than [`WINDOW`].
    pub fn len(&self) -> (n: usize)
        ensures
            n == self@.len(),
            n <= WINDOW,
    {
        proof {
            use_type_invariant(self);
        }
        self.samples.len()
    }

    /// The sample at `index`, counted from the oldest, if there is one.
    pub fn get(&self, index: usize) -> (sample: Option<Sample>)
        ensures
            sample == if index < self@.len() {
                Some(self@[index as int])
            } else {
                None
            },
    {
        if index < self.samples.len() {
            Some(self.samples[index])
        } else {
            None
        }
    }

    /// The progress of the newest sample, or positive zero if there is none.
    pub fn last_progress(&self) -> (progress: Binary64)
        ensures
            progress == last_progress(self@),
    {
        let n: usize = self.samples.len();
        if n == 0 {
            Binary64::zero()
        } else {
            self.samples[n - 1].progress
        }
    }

    /// Appends `sample`, first dropping the oldest one if the window is full.
    pub fn push(&mut self, sample: Sample)
        ensures
            final(self)@ == slide(old(self)@, sample),
            final(self)@.len() <= WINDOW,
    {
        proof {
            use_type_invariant(&*self);
        }
        let mut samples: VecDeque<Sample> = VecDeque::new();
        std::mem::swap(&mut samples, &mut self.samples);
        if samples.len() >= WINDOW {
            samples.pop_front();
        }
        samples.push_back(sample);
        self.samples = samples;
    }
}

} // verus!
