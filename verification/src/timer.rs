//! The time source that a tracker reads, and a settable one for tests.

use vstd::prelude::*;

verus! {

/// A source of timestamps.
///
/// The unit is the implementor's choice and must stay the same for the life
/// of a tracker. Nothing is promised of the value returned: two reads may
/// differ, and a tracker never assumes that time moves forward.
pub trait GetTimestamp {
    /// Reads the current time.
    fn get_timestamp(&self) -> u64;
}

/// A time source that returns whatever value it was last given.
#[derive(Clone, Copy, Debug)]
pub struct TestTimer {
    cur_ts: u64,
}

impl TestTimer {
    /// The value that the next read returns.
    pub closed spec fn timestamp(self) -> u64 {
        self.cur_ts
    }

    /// Creates a timer that reads zero.
    pub fn new() -> (timer: TestTimer)
        ensures
            timer.timestamp() == 0,
    {
        TestTimer { cur_ts: 0 }
    }

    /// Sets the value that `get_timestamp` returns from now on.
    pub fn set_timestamp(&mut self, ts: u64)
        ensures
            final(self).timestamp() == ts,
    {
        self.cur_ts = ts;
    }
}

impl GetTimestamp for TestTimer {
    /// Returns the value given to the last `set_timestamp`, or zero if there
    /// was none.
    fn get_timestamp(&self) -> (ts: u64)
        ensures
            ts == self.timestamp(),
    {
        self.cur_ts
    }
}

} // verus!
