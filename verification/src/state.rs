//! The tracker's state as a mathematical value, and the steps that change it.

use crate::binary64::Binary64;
use crate::history::{last_progress, slide, Sample};
use vstd::prelude::*;

verus! {

/// What a tracker knows, as a mathematical value.
pub struct State {
    /// The time at which the first update began, once there has been one.
    pub first_timestamp: Option<u64>,
    /// The progress that the first update reported.
    pub first_progress: Option<Binary64>,
    /// The progress that the latest update reported.
    pub current_progress: Binary64,
    /// The speed that the caller last stored.
    pub current_speed: Binary64,
    /// The window of samples, oldest first.
    pub history: Seq<Sample>,
}

impl State {
    /// A tracker that has seen no update.
    pub open spec fn initial() -> State {
        State {
            first_timestamp: None,
            first_progress: None,
            current_progress: Binary64 { bits: 0 },
            current_speed: Binary64 { bits: 0 },
            history: Seq::empty(),
        }
    }

    /// Whether no update has begun yet.
    pub open spec fn is_fresh(self) -> bool {
        self.first_timestamp is None || self.first_progress is None
    }

    /// The state after an update has begun at time `now` with `progress`.
    /// The first such step fixes the first timestamp and the first progress;
    /// later ones leave both alone and only replace the current progress.
    pub open spec fn began(self, now: u64, progress: Binary64) -> State {
        State {
            first_timestamp: Some(
                match self.first_timestamp {
                    Some(first) => first,
                    None => now,
                },
            ),
            first_progress: Some(
                match self.first_progress {
                    Some(first) => first,
                    None => progress,
                },
            ),
            current_progress: progress,
            ..self
        }
    }

    /// Whether a report that has advanced by `advance` since the first one
    /// is left out of the window: it is where `advance` equals, as a number,
    /// the progress of the newest sample (zero for an empty window).
    pub open spec fn is_repeat(self, advance: Binary64) -> bool {
        last_progress(self.history).spec_same_value(advance)
    }

    /// The state after the window has been offered the current progress at
    /// time `now`.
    pub open spec fn recorded(self, now: u64, advance: Binary64) -> State {
        if self.is_repeat(advance) {
            self
        } else {
            State {
                history: slide(
                    self.history,
                    Sample { timestamp: now, progress: self.current_progress },
                ),
                ..self
            }
        }
    }

    /// The state with `speed` as the current speed.
    pub open spec fn with_speed(self, speed: Binary64) -> State {
        State { current_speed: speed, ..self }
    }

    /// The first timestamp, or zero before the first update.
    pub open spec fn origin(self) -> u64 {
        match self.first_timestamp {
            Some(first) => first,
            None => 0,
        }
    }

    /// The remaining time for a quotient `eta` of remaining progress by
    /// speed: nothing before the first update, nothing where `eta` is not at
    /// least zero, and else the whole part of `eta`.
    pub open spec fn remaining_time(self, eta: Binary64) -> int {
        if self.is_fresh() {
            0
        } else if eta.spec_is_non_negative() {
            eta.truncated()
        } else {
            0
        }
    }
}

/// One term of the speed average: a sample's progress and what the progress
/// gained since the first report is to be divided by.
#[derive(Clone, Copy, Debug)]
pub struct SpeedTerm {
    pub progress: Binary64,
    pub divisor: u64,
}

/// The term that `sample` contributes when time is counted from `origin`.
pub open spec fn speed_term(sample: Sample, origin: u64) -> SpeedTerm {
    SpeedTerm { progress: sample.progress, divisor: sample.speed_divisor(origin) as u64 }
}

/// The terms that the samples of `history` contribute, in their order.
pub open spec fn speed_terms_of(history: Seq<Sample>, origin: u64) -> Seq<SpeedTerm> {
    Seq::new(history.len(), |i: int| speed_term(history[i], origin))
}

/// One whole update, as the values that reach the tracker in its course.
pub struct Update {
    /// What the time source returns as the update begins. It is read, and
    /// counts, only on the first update.
    pub start: u64,
    /// The progress percentage reported.
    pub progress: Binary64,
    /// What the time source returns when the sample is taken.
    pub now: u64,
    /// The reported progress less the first progress.
    pub advance: Binary64,
    /// The speed computed from the window after the sample was offered.
    pub speed: Binary64,
}

impl State {
    /// The state after one whole update.
    pub open spec fn updated(self, update: Update) -> State {
        self.began(update.start, update.progress).recorded(update.now, update.advance).with_speed(
            update.speed,
        )
    }

    /// The state after the updates of `updates`, in their order.
    pub open spec fn updated_all(self, updates: Seq<Update>) -> State
        decreases updates.len(),
    {
        if updates.len() == 0 {
            self
        } else {
            self.updated_all(updates.drop_last()).updated(updates.last())
        }
    }

    /// Whether no sample of the window is older than the first timestamp.
    pub open spec fn in_order(self) -> bool {
        forall|i: int|
            0 <= i < self.history.len() ==> self.origin() <= (#[trigger] self.history[i]).timestamp
    }
}

} // verus!
