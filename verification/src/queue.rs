//! Futures labelled with a priority, and the queues of the executor that
//! runs them: a high-priority queue served by more worker threads than the
//! low-priority one.

use vstd::prelude::*;
use crate::counter::{counter_outcome, MAX_COUNT};
use crate::step::PollResult;

verus! {

/// The priority label of a future, which picks the queue it runs from.
#[derive(Debug, Clone, Copy, PartialEq, Eq, Structural)]
pub enum FutureType {
    High,
    Low,
}

/// The number of worker threads that serve the queue for `order`.
pub open spec fn spec_worker_count(order: FutureType) -> usize {
    match order {
        FutureType::High => 2,
        FutureType::Low => 1,
    }
}

/// The number of worker threads that serve the queue for `order`: two for
/// high-priority futures, one for low-priority ones.
pub fn worker_count(order: FutureType) -> (n: usize)
    ensures
        n == spec_worker_count(order),
        order == FutureType::High ==> n == 2,
        order == FutureType::Low ==> n == 1,
{
    match order {
        FutureType::High => 2,
        FutureType::Low => 1,
    }
}

/// A counting future that carries a priority label.
pub struct CounterFuture {
    pub count: u32,
    pub order: FutureType,
}

impl CounterFuture {
    /// The priority label of this future.
    pub fn get_order(&self) -> (o: FutureType)
        ensures
            o == self.order,
    {
        self.order
    }

    /// One poll: the count goes up by one; the future is ready, with the new
    /// count as its value, once the count has reached `MAX_COUNT`. The label
    /// does not change.
    pub fn poll_step(&mut self) -> (r: PollResult<u32>)
        requires
            old(self).count < u32::MAX,
        ensures
            final(self).count == old(self).count + 1,
            final(self).order == old(self).order,
            r == counter_outcome(final(self).count as int),
    {
        self.count = self.count + 1;
        if self.count < MAX_COUNT {
            PollResult::Pending
        } else {
            PollResult::Ready(self.count)
        }
    }
}

/// The high-priority queue is served by more workers than the low one.
pub proof fn law_high_priority_has_more_workers()
    ensures
        spec_worker_count(FutureType::High) > spec_worker_count(FutureType::Low),
{
}

} // verus!
