//! What holds of a tracker over any run of updates.

use crate::binary64::Binary64;
use crate::history::{slide, Sample, WINDOW};
use crate::state::{State, Update};
use vstd::prelude::*;

verus! {

/// A window that is within its bound stays within it when a sample comes in.
pub proof fn lemma_slide_bounded(samples: Seq<Sample>, sample: Sample)
    requires
        samples.len() <= WINDOW,
    ensures
        slide(samples, sample).len() <= WINDOW,
        slide(samples, sample).len() >= 1,
        slide(samples, sample).last() == sample,
{
}

/// The window never holds more than [`WINDOW`] samples, however many updates
/// there are and whatever they report.
pub proof fn lemma_window_bounded(state: State, updates: Seq<Update>)
    requires
        state.history.len() <= WINDOW,
    ensures
        state.updated_all(updates).history.len() <= WINDOW,
    decreases updates.len(),
{
    if updates.len() > 0 {
        lemma_window_bounded(state, updates.drop_last());
    }
}

/// Once the first timestamp and the first progress are set, no update changes
/// them, whatever time and progress it brings.
pub proof fn lemma_first_report_kept(state: State, updates: Seq<Update>)
    ensures
        state.first_timestamp is Some ==> state.updated_all(updates).first_timestamp
            == state.first_timestamp,
        state.first_progress is Some ==> state.updated_all(updates).first_progress
            == state.first_progress,
    decreases updates.len(),
{
    if updates.len() > 0 {
        lemma_first_report_kept(state, updates.drop_last());
    }
}

/// The first update of a new tracker sets the first timestamp to the time at
/// which it began and the first progress to what it reported, and both stay
/// so through every later update.
pub proof fn lemma_first_update_fixes_first_report(updates: Seq<Update>)
    requires
        updates.len() > 0,
    ensures
        State::initial().updated_all(updates).first_timestamp == Some(updates[0].start),
        State::initial().updated_all(updates).first_progress == Some(updates[0].progress),
        !State::initial().updated_all(updates).is_fresh(),
    decreases updates.len(),
{
    let earlier = updates.drop_last();
    if earlier.len() == 0 {
        assert(State::initial().updated_all(earlier) == State::initial());
    } else {
        lemma_first_update_fixes_first_report(earlier);
        assert(earlier[0] == updates[0]);
    }
}

/// Before the first update the remaining time is zero, whatever quotient the
/// caller brings.
pub proof fn lemma_no_update_no_remaining_time(eta: Binary64)
    ensures
        State::initial().remaining_time(eta) == 0,
{
}

/// The state after a run of updates, and the remaining time read from it,
/// depend on nothing but the state before and the values that the updates
/// brought: equal runs from equal states end alike.
pub proof fn lemma_updates_deterministic(
    one: State,
    other: State,
    updates: Seq<Update>,
    again: Seq<Update>,
    eta: Binary64,
)
    requires
        one == other,
        updates.len() == again.len(),
        forall|i: int| 0 <= i < updates.len() ==> updates[i] == again[i],
    ensures
        one.updated_all(updates) == other.updated_all(again),
        one.updated_all(updates).remaining_time(eta) == other.updated_all(again).remaining_time(
            eta,
        ),
{
    assert(updates =~= again);
}

/// Offering a sample that is no older than the first timestamp keeps the
/// window in order.
proof fn lemma_record_keeps_order(state: State, now: u64, advance: Binary64)
    requires
        state.in_order(),
        state.origin() <= now,
    ensures
        state.recorded(now, advance).in_order(),
{
    let after = state.recorded(now, advance);
    if !state.is_repeat(advance) {
        let sample = Sample { timestamp: now, progress: state.current_progress };
        assert forall|i: int| 0 <= i < after.history.len() implies after.origin() <= (
        #[trigger] after.history[i]).timestamp by {
            if state.history.len() >= WINDOW {
                if i < after.history.len() - 1 {
                    assert(after.history[i] == state.history[i + 1]);
                }
            } else {
                if i < after.history.len() - 1 {
                    assert(after.history[i] == state.history[i]);
                }
            }
        }
    }
}

/// Where the time source never returns less than it did as the first update
/// began, no sample of the window is older than the first timestamp, and the
/// time elapsed to each sample is the plain difference of the two.
pub proof fn lemma_ordered_time_never_wraps(updates: Seq<Update>)
    requires
        updates.len() > 0,
        forall|k: int| 0 <= k < updates.len() ==> updates[0].start <= (#[trigger] updates[k]).now,
    ensures
        State::initial().updated_all(updates).in_order(),
        forall|i: int|
            #![trigger State::initial().updated_all(updates).history[i]]
            0 <= i < State::initial().updated_all(updates).history.len()
                ==> State::initial().updated_all(updates).history[i].elapsed(updates[0].start)
                == State::initial().updated_all(updates).history[i].timestamp - updates[0].start,
    decreases updates.len(),
{
    let earlier = updates.drop_last();
    let last = updates.last();
    let before = State::initial().updated_all(earlier);
    if earlier.len() == 0 {
        assert(before == State::initial());
    } else {
        assert(earlier[0] == updates[0]);
        assert forall|k: int| 0 <= k < earlier.len() implies earlier[0].start <= (
        #[trigger] earlier[k]).now by {
            assert(earlier[k] == updates[k]);
        }
        lemma_ordered_time_never_wraps(earlier);
        lemma_first_update_fixes_first_report(earlier);
    }
    let begun = before.began(last.start, last.progress);
    assert(begun.history == before.history);
    assert(begun.origin() == updates[0].start);
    assert(begun.in_order());
    lemma_record_keeps_order(begun, last.now, last.advance);
    lemma_first_update_fixes_first_report(updates);
}

} // verus!
