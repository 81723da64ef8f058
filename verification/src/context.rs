//! The progress tracker.
//!
//! A tracker is brought up to date in three steps, between which the caller
//! does the arithmetic that rounds:
//!
//! 1. [`TimeContext::begin_update`] takes the new progress percentage and
//!    hands back the first percentage ever seen;
//! 2. [`TimeContext::update_history`] takes the difference of the two and
//!    decides whether the window gets a new sample;
//! 3. [`TimeContext::set_current_speed`] takes the average that the caller
//!    formed from [`TimeContext::speed_terms`].

use crate::binary64::Binary64;
use crate::history::{History, Sample, WINDOW};
use crate::state::{speed_terms_of, SpeedTerm, State};
use crate::timer::GetTimestamp;
use vstd::prelude::*;

verus! {

/// Tracks the progress of one operation.
pub struct TimeContext<T> {
    timefunc: T,
    current_speed: Binary64,
    first_timestamp: Option<u64>,
    first_progress: Option<Binary64>,
    current_progress: Binary64,
    samples: History,
}

impl<T> View for TimeContext<T> {
    type V = State;

    closed spec fn view(&self) -> State {
        State {
            first_timestamp: self.first_timestamp,
            first_progress: self.first_progress,
            current_progress: self.current_progress,
            current_speed: self.current_speed,
            history: self.samples@,
        }
    }
}

impl<T: GetTimestamp> TimeContext<T> {
    /// The time source that the tracker reads.
    pub closed spec fn time_source(&self) -> T {
        self.timefunc
    }

    /// Creates a tracker that reads time from `timefunc`.
    pub fn new(timefunc: T) -> (ctx: TimeContext<T>)
        ensures
            ctx@ == State::initial(),
            ctx.time_source() == timefunc,
    {
        TimeContext {
            timefunc,
            current_speed: Binary64::zero(),
            first_timestamp: None,
            first_progress: None,
            current_progress: Binary64::zero(),
            samples: History::new(),
        }
    }

    /// The time source.
    pub fn get_timefunc(&self) -> (timefunc: &T)
        ensures
            *timefunc == self.time_source(),
    {
        &self.timefunc
    }

    /// The time source, for the caller to change. The tracker's own state
    /// does not change with it.
    pub fn get_timefunc_mut(&mut self) -> (timefunc: &mut T)
        ensures
            *timefunc == old(self).time_source(),
            final(self).time_source() == *final(timefunc),
            final(self)@ == old(self)@,
    {
        &mut self.timefunc
    }

    /// The time at which the first update began, if there has been one.
    pub fn first_timestamp(&self) -> (first: Option<u64>)
        ensures
            first == self@.first_timestamp,
    {
        self.first_timestamp
    }

    /// The progress that the first update reported, if there has been one.
    pub fn first_progress(&self) -> (first: Option<Binary64>)
        ensures
            first == self@.first_progress,
    {
        self.first_progress
    }

    /// The progress that the latest update reported, positive zero before
    /// the first.
    pub fn current_progress(&self) -> (progress: Binary64)
        ensures
            progress == self@.current_progress,
    {
        self.current_progress
    }

    /// The speed last stored, positive zero before the first.
    pub fn current_speed(&self) -> (speed: Binary64)
        ensures
            speed == self@.current_speed,
    {
        self.current_speed
    }

    /// The window of samples.
    pub fn history(&self) -> (history: &History)
        ensures
            history@ == self@.history,
            history@.len() <= WINDOW,
    {
        proof {
            use_type_invariant(&self.samples);
        }
        &self.samples
    }

    /// Begins an update at time `now` with the percentage `progress`, and
    /// returns the first percentage that the tracker has seen, which is
    /// `progress` itself on the first update.
    pub fn begin_update_at(&mut self, now: u64, progress: Binary64) -> (first: Binary64)
        ensures
            final(self)@ == old(self)@.began(now, progress),
            old(self)@.first_timestamp is Some ==> final(self)@.first_timestamp == old(
                self,
            )@.first_timestamp,
            old(self)@.first_progress is Some ==> final(self)@.first_progress == old(
                self,
            )@.first_progress,
            final(self).time_source() == old(self).time_source(),
            Some(first) == final(self)@.first_progress,
    {
        if self.first_timestamp.is_none() {
            self.first_timestamp = Some(now);
        }
        self.current_progress = progress;
        match self.first_progress {
            Some(first) => first,
            None => {
                self.first_progress = Some(progress);
                progress
            },
        }
    }

    /// Begins an update with the percentage `progress`. The time source is
    /// read only where no update has begun before, and whatever it returns
    /// becomes the first timestamp.
    pub fn begin_update(&mut self, progress: Binary64) -> (first: Binary64)
        ensures
            exists|now: u64| final(self)@ == #[trigger] old(self)@.began(now, progress),
            old(self)@.first_timestamp is Some ==> final(self)@.first_timestamp == old(
                self,
            )@.first_timestamp,
            old(self)@.first_progress is Some ==> final(self)@.first_progress == old(
                self,
            )@.first_progress,
            final(self).time_source() == old(self).time_source(),
            Some(first) == final(self)@.first_progress,
    {
        let now: u64 = match self.first_timestamp {
            Some(first) => first,
            None => self.timefunc.get_timestamp(),
        };
        self.begin_update_at(now, progress)
    }

    /// Offers the window the current progress as a sample taken at `now`.
    /// `advance` is the current progress less the first progress, as the
    /// caller computed it. Where it equals the progress of the newest sample
    /// nothing changes; else the sample goes in, and the oldest one leaves a
    /// full window.
    pub fn update_history_at(&mut self, now: u64, advance: Binary64)
        ensures
            final(self)@ == old(self)@.recorded(now, advance),
            final(self)@.first_timestamp == old(self)@.first_timestamp,
            final(self)@.first_progress == old(self)@.first_progress,
            final(self).time_source() == old(self).time_source(),
            final(self)@.history.len() <= WINDOW,
    {
        if self.samples.last_progress().same_value(advance) {
            proof {
                use_type_invariant(&self.samples);
            }
            return;
        }
        self.samples.push(Sample { timestamp: now, progress: self.current_progress });
    }

    /// Reads the time source once and offers the window the current progress
    /// as a sample taken at whatever time came back.
    pub fn update_history(&mut self, advance: Binary64)
        ensures
            exists|now: u64| final(self)@ == #[trigger] old(self)@.recorded(now, advance),
            old(self)@.is_repeat(advance) ==> final(self)@ == old(self)@,
            final(self)@.first_timestamp == old(self)@.first_timestamp,
            final(self)@.first_progress == old(self)@.first_progress,
            final(self).time_source() == old(self).time_source(),
            final(self)@.history.len() <= WINDOW,
    {
        let now: u64 = self.timefunc.get_timestamp();
        self.update_history_at(now, advance);
    }

    /// Stores `speed` as the current speed.
    pub fn set_current_speed(&mut self, speed: Binary64)
        ensures
            final(self)@ == old(self)@.with_speed(speed),
            final(self).time_source() == old(self).time_source(),
    {
        self.current_speed = speed;
    }

    /// The terms of the speed average, one for each sample of the window,
    /// oldest first. Time is counted from the first timestamp, or from zero
    /// before the first update.
    pub fn speed_terms(&self) -> (terms: Vec<SpeedTerm>)
        ensures
            terms@ == speed_terms_of(self@.history, self@.origin()),
            terms@.len() <= WINDOW,
    {
        let origin: u64 = match self.first_timestamp {
            Some(first) => first,
            None => 0,
        };
        let count: usize = self.samples.len();
        let mut terms: Vec<SpeedTerm> = Vec::with_capacity(count);
        let mut index: usize = 0;
        while index < count
            invariant
                index <= count,
                count == self@.history.len(),
                origin == self@.origin(),
                terms@ == speed_terms_of(self@.history.take(index as int), origin),
            decreases count - index,
        {
            if let Some(sample) = self.samples.get(index) {
                terms.push(SpeedTerm { progress: sample.progress, divisor: sample.divisor(origin) });
            }
            index += 1;
            assert(terms@ =~= speed_terms_of(self@.history.take(index as int), origin));
        }
        assert(self@.history.take(count as int) =~= self@.history);
        terms
    }

    /// The remaining time, in the unit of the time source, for the quotient
    /// `eta` of the remaining progress by the current speed: zero before the
    /// first update and wherever `eta` is not at least zero, else `eta`
    /// without its fraction, capped at the largest `isize`.
    pub fn get_remaining_time(&self, eta: Binary64) -> (remaining: isize)
        ensures
            remaining == self@.remaining_time(eta),
            self@.is_fresh() ==> remaining == 0,
            remaining >= 0,
    {
        if self.first_timestamp.is_none() {
            return 0;
        }
        if self.first_progress.is_none() {
            return 0;
        }
        if eta.is_non_negative() {
            eta.truncate()
        } else {
            0
        }
    }
}

} // verus!
