//! A future that counts its own polls and completes on the third one.

use vstd::prelude::*;
use crate::step::PollResult;

verus! {

/// The poll on which a counting future completes.
pub const MAX_COUNT: u32 = 3;

/// What a counting future answers once its count has reached `count`.
pub open spec fn counter_outcome(count: int) -> PollResult<u32> {
    if count < MAX_COUNT {
        PollResult::Pending
    } else {
        PollResult::Ready(count as u32)
    }
}

/// The answers of `k` consecutive polls of a counting future whose count
/// starts at `start`, in the order they are given.
pub open spec fn poll_trace(start: int, k: nat) -> Seq<PollResult<u32>>
    decreases k,
{
    if k == 0 {
        Seq::empty()
    } else {
        poll_trace(start, (k - 1) as nat).push(counter_outcome(start + k))
    }
}

/// A future that completes after it has been polled `MAX_COUNT` times,
/// asking to be polled again after every earlier poll.
pub struct Counter {
    pub count: u32,
}

impl Counter {
    /// One poll: the count goes up by one; the future is ready, with the
    /// new count as its value, once the count has reached `MAX_COUNT`.
    pub fn poll_step(&mut self) -> (r: PollResult<u32>)
        requires
            old(self).count < u32::MAX,
        ensures
            final(self).count == old(self).count + 1,
            r == counter_outcome(final(self).count as int),
    {
        self.count = self.count + 1;
        if self.count < MAX_COUNT {
            PollResult::Pending
        } else {
            PollResult::Ready(self.count)
        }
    }
}

/// Each answer in a trace is the one for the count that poll reached.
pub proof fn lemma_poll_trace_index(start: int, k: nat, i: int)
    requires
        0 <= i < k,
    ensures
        poll_trace(start, k).len() == k,
        poll_trace(start, k)[i] == counter_outcome(start + i + 1),
    decreases k,
{
    if i < k - 1 {
        lemma_poll_trace_index(start, (k - 1) as nat, i);
    } else {
        if k > 1 {
            lemma_poll_trace_index(start, (k - 1) as nat, 0);
        } else {
            assert(poll_trace(start, 0) =~= Seq::<PollResult<u32>>::empty());
        }
    }
}

/// A counting future that starts at zero answers `Pending` to each of its
/// first `MAX_COUNT - 1` polls and `Ready(MAX_COUNT)` to the next one.
pub proof fn law_fresh_counter_completes_on_max_count()
    ensures
        poll_trace(0, MAX_COUNT as nat).len() == MAX_COUNT,
        forall|i: int| 0 <= i < MAX_COUNT - 1 ==> #[trigger] poll_trace(0, MAX_COUNT as nat)[i]
            == PollResult::<u32>::Pending,
        poll_trace(0, MAX_COUNT as nat)[MAX_COUNT - 1] == PollResult::Ready(MAX_COUNT),
{
    assert forall|i: int| 0 <= i < MAX_COUNT - 1 implies #[trigger] poll_trace(0, MAX_COUNT as nat)[i]
        == PollResult::<u32>::Pending by {
        lemma_poll_trace_index(0, MAX_COUNT as nat, i);
    }
    lemma_poll_trace_index(0, MAX_COUNT as nat, MAX_COUNT - 1);
}

} // verus!
