//! A counter shared by two futures, one that raises it and one that
//! lowers it, each completing after `MAX_COUNT` turns.

use vstd::prelude::*;
use crate::step::PollResult;

verus! {

/// The number of turns each sharing future takes before it completes.
pub const MAX_COUNT: u32 = 10;

/// Which way a sharing future moves the shared counter.
#[derive(Debug, Clone, Copy, PartialEq, Eq, Structural)]
pub enum CounterType {
    Increment,
    Decrement,
}

/// The data the futures share behind a lock.
pub struct SharedData {
    pub counter: i32,
}

/// The value a counter at `c` has after one move of kind `t`.
pub open spec fn apply_op(c: int, t: CounterType) -> int {
    match t {
        CounterType::Increment => c + 1,
        CounterType::Decrement => c - 1,
    }
}

/// The value a counter at `c` has after the moves `ops`, in order.
pub open spec fn apply_ops(c: int, ops: Seq<CounterType>) -> int
    decreases ops.len(),
{
    if ops.len() == 0 {
        c
    } else {
        apply_op(apply_ops(c, ops.drop_last()), ops.last())
    }
}

/// How many of the moves `ops` are of kind `t`.
pub open spec fn count_ops(ops: Seq<CounterType>, t: CounterType) -> int
    decreases ops.len(),
{
    if ops.len() == 0 {
        0
    } else {
        count_ops(ops.drop_last(), t) + if ops.last() == t { 1int } else { 0int }
    }
}

/// Whether one move of kind `t` from `c` stays within `i32`.
pub open spec fn op_fits(c: i32, t: CounterType) -> bool {
    i32::MIN <= apply_op(c as int, t) <= i32::MAX
}

impl SharedData {
    /// Raises the counter by one.
    pub fn increment(&mut self)
        requires
            old(self).counter < i32::MAX,
        ensures
            final(self).counter == old(self).counter + 1,
    {
        self.counter += 1;
    }

    /// Lowers the counter by one.
    pub fn decrement(&mut self)
        requires
            old(self).counter > i32::MIN,
        ensures
            final(self).counter == old(self).counter - 1,
    {
        self.counter -= 1;
    }

    /// Moves the counter one step in the direction `t`.
    pub fn apply(&mut self, t: CounterType)
        requires
            op_fits(old(self).counter, t),
        ensures
            final(self).counter == apply_op(old(self).counter as int, t),
    {
        match t {
            CounterType::Increment => self.increment(),
            CounterType::Decrement => self.decrement(),
        }
    }
}

/// What a sharing future answers once it has taken `count` turns.
pub open spec fn shared_outcome(count: int) -> PollResult<u32> {
    if count < MAX_COUNT {
        PollResult::Pending
    } else {
        PollResult::Ready(count as u32)
    }
}

/// A future that moves the shared counter once per poll on which it gets
/// the lock, and completes after `MAX_COUNT` such turns.
pub struct Counter {
    pub counter_type: CounterType,
    pub count: u32,
}

/// A sharing future as plain values: its direction and its turn count.
pub struct CounterModel {
    pub counter_type: CounterType,
    pub count: int,
}

impl View for Counter {
    type V = CounterModel;

    open spec fn view(&self) -> CounterModel {
        CounterModel { counter_type: self.counter_type, count: self.count as int }
    }
}

/// One poll of the sharing future `c` with the shared counter at `d`:
/// when the lock was taken, the counter moves one step in the future's
/// direction and the turn count goes up by one; when it was not, nothing
/// changes and the future answers `Pending`. Gives the future, the counter
/// and the answer after the poll.
pub open spec fn poll_model(c: CounterModel, d: int, lock_taken: bool) -> (CounterModel, int, PollResult<u32>) {
    if lock_taken {
        let n = c.count + 1;
        (CounterModel { counter_type: c.counter_type, count: n }, apply_op(d, c.counter_type), shared_outcome(n))
    } else {
        (c, d, PollResult::Pending)
    }
}

/// The number of polls in `locks` on which the lock was taken.
pub open spec fn count_taken(locks: Seq<bool>) -> int
    decreases locks.len(),
{
    if locks.len() == 0 {
        0
    } else {
        count_taken(locks.drop_last()) + if locks.last() { 1int } else { 0int }
    }
}

/// A run of one sharing future: the polls `locks`, in order, each saying
/// whether the lock was taken. Gives the future and the counter at the end,
/// and the answers of the polls in order.
pub open spec fn run_model(c: CounterModel, d: int, locks: Seq<bool>) -> (CounterModel, int, Seq<PollResult<u32>>)
    decreases locks.len(),
{
    if locks.len() == 0 {
        (c, d, Seq::empty())
    } else {
        let prev = run_model(c, d, locks.drop_last());
        let step = poll_model(prev.0, prev.1, locks.last());
        (step.0, step.1, prev.2.push(step.2))
    }
}

/// How far one move of kind `t` takes the counter.
pub open spec fn direction(t: CounterType) -> int {
    match t {
        CounterType::Increment => 1,
        CounterType::Decrement => -1,
    }
}

/// A run of two sharing futures `a` and `b` over one counter: each entry of
/// `schedule` says which future is polled (`true` for `a`) and whether it
/// took the lock. Gives both futures and the counter at the end.
pub open spec fn run_pair(a: CounterModel, b: CounterModel, d: int, schedule: Seq<(bool, bool)>) -> (CounterModel, CounterModel, int)
    decreases schedule.len(),
{
    if schedule.len() == 0 {
        (a, b, d)
    } else {
        let prev = run_pair(a, b, d, schedule.drop_last());
        let (polls_a, lock_taken) = schedule.last();
        if polls_a {
            let step = poll_model(prev.0, prev.2, lock_taken);
            (step.0, prev.1, step.1)
        } else {
            let step = poll_model(prev.1, prev.2, lock_taken);
            (prev.0, step.0, step.1)
        }
    }
}

/// The number of polls in `schedule` of future `a` (`which` true) or `b`
/// (`which` false) on which that future took the lock.
pub open spec fn count_taken_by(schedule: Seq<(bool, bool)>, which: bool) -> int
    decreases schedule.len(),
{
    if schedule.len() == 0 {
        0
    } else {
        count_taken_by(schedule.drop_last(), which) + if schedule.last().0 == which
            && schedule.last().1 { 1int } else { 0int }
    }
}

impl Counter {
    /// A poll on which the lock was taken: the shared counter moves one
    /// step, the turn count goes up by one, and the future is ready, with
    /// the turn count as its value, once that count reaches `MAX_COUNT`.
    pub fn poll_step(&mut self, data: &mut SharedData) -> (r: PollResult<u32>)
        requires
            old(self).count < u32::MAX,
            op_fits(old(data).counter, old(self).counter_type),
        ensures
            (final(self)@, final(data).counter as int, r) == poll_model(
                old(self)@,
                old(data).counter as int,
                true,
            ),
            final(data).counter == apply_op(old(data).counter as int, old(self).counter_type),
            final(self).counter_type == old(self).counter_type,
            final(self).count == old(self).count + 1,
            r == shared_outcome(final(self).count as int),
    {
        data.apply(self.counter_type);
        self.count = self.count + 1;
        if self.count < MAX_COUNT {
            PollResult::Pending
        } else {
            PollResult::Ready(self.count)
        }
    }

    /// A poll on which the lock was held elsewhere: nothing moves, and the
    /// future asks to be polled again.
    pub fn on_contention(&self) -> (r: PollResult<u32>)
        ensures
            r == PollResult::<u32>::Pending,
            forall|d: int| #[trigger] poll_model(self@, d, false) == (self@, d, r),
    {
        PollResult::Pending
    }
}

/// A raise followed by a lowering leaves the counter where it was, and so
/// does a lowering followed by a raise.
pub proof fn law_moves_undo_each_other(c: int)
    ensures
        apply_op(apply_op(c, CounterType::Increment), CounterType::Decrement) == c,
        apply_op(apply_op(c, CounterType::Decrement), CounterType::Increment) == c,
{
}

/// Whatever the order of the moves, the counter ends at its start plus the
/// number of raises minus the number of lowerings.
pub proof fn law_net_effect(c: int, ops: Seq<CounterType>)
    ensures
        apply_ops(c, ops) == c + count_ops(ops, CounterType::Increment) - count_ops(
            ops,
            CounterType::Decrement,
        ),
    decreases ops.len(),
{
    if ops.len() > 0 {
        law_net_effect(c, ops.drop_last());
    }
}

/// Over a run of one sharing future from turn count `c.count`: the turn
/// count goes up by the number of polls that took the lock, the counter
/// moves once per such poll in the future's direction, and each answer is
/// `Ready` with the turn count exactly when that poll took the lock and the
/// count has reached `MAX_COUNT`, `Pending` otherwise.
pub proof fn lemma_run_model(c: CounterModel, d: int, locks: Seq<bool>)
    ensures
        run_model(c, d, locks).0.counter_type == c.counter_type,
        run_model(c, d, locks).0.count == c.count + count_taken(locks),
        run_model(c, d, locks).1 == d + direction(c.counter_type) * count_taken(locks),
        run_model(c, d, locks).2.len() == locks.len(),
        forall|i: int|
            0 <= i < locks.len() ==> #[trigger] run_model(c, d, locks).2[i] == (if locks[i] {
                shared_outcome(c.count + count_taken(locks.take(i + 1)))
            } else {
                PollResult::<u32>::Pending
            }),
    decreases locks.len(),
{
    if locks.len() > 0 {
        let prefix = locks.drop_last();
        lemma_run_model(c, d, prefix);
        let n = locks.len() - 1;
        assert(locks.take(n + 1) =~= locks);
        assert forall|i: int| 0 <= i < locks.len() implies #[trigger] run_model(c, d, locks).2[i]
            == (if locks[i] {
            shared_outcome(c.count + count_taken(locks.take(i + 1)))
        } else {
            PollResult::<u32>::Pending
        }) by {
            if i < n {
                assert(prefix.take(i + 1) =~= locks.take(i + 1));
                assert(prefix[i] == locks[i]);
            }
        }
        match c.counter_type {
            CounterType::Increment => {},
            CounterType::Decrement => {},
        }
    }
}

/// A sharing future that starts at turn count zero and is polled any
/// number of times: its turn count is the number of polls that took the
/// lock, the counter has moved once per such poll, every poll before the
/// `MAX_COUNT`-th lock-taking one answers `Pending`, and that poll answers
/// `Ready(MAX_COUNT)`.
pub proof fn law_sharing_future_run(c: CounterModel, d: int, locks: Seq<bool>)
    requires
        c.count == 0,
    ensures
        run_model(c, d, locks).0.count == count_taken(locks),
        run_model(c, d, locks).1 == d + direction(c.counter_type) * count_taken(locks),
        forall|i: int|
            0 <= i < locks.len() && count_taken(locks.take(i + 1)) < MAX_COUNT
                ==> #[trigger] run_model(c, d, locks).2[i] == PollResult::<u32>::Pending,
        forall|i: int|
            0 <= i < locks.len() && locks[i] && count_taken(locks.take(i + 1)) == MAX_COUNT
                ==> #[trigger] run_model(c, d, locks).2[i] == PollResult::Ready(MAX_COUNT),
{
    lemma_run_model(c, d, locks);
}

/// Over a run of two sharing futures: each one's turn count goes up by the
/// number of its polls that took the lock, and the counter moves once per
/// such poll, in the direction of the future that made it.
pub proof fn lemma_run_pair(a: CounterModel, b: CounterModel, d: int, schedule: Seq<(bool, bool)>)
    ensures
        run_pair(a, b, d, schedule).0.counter_type == a.counter_type,
        run_pair(a, b, d, schedule).1.counter_type == b.counter_type,
        run_pair(a, b, d, schedule).0.count == a.count + count_taken_by(schedule, true),
        run_pair(a, b, d, schedule).1.count == b.count + count_taken_by(schedule, false),
        run_pair(a, b, d, schedule).2 == d + direction(a.counter_type) * count_taken_by(
            schedule,
            true,
        ) + direction(b.counter_type) * count_taken_by(schedule, false),
    decreases schedule.len(),
{
    if schedule.len() > 0 {
        lemma_run_pair(a, b, d, schedule.drop_last());
        match a.counter_type {
            CounterType::Increment => {},
            CounterType::Decrement => {},
        }
        match b.counter_type {
            CounterType::Increment => {},
            CounterType::Decrement => {},
        }
    }
}

/// A raising and a lowering future, both starting at turn count zero and
/// polled in any interleaving, with any polls lost to contention: once each
/// has taken the lock `MAX_COUNT` times, both have reached turn count
/// `MAX_COUNT` and the counter is back where it started.
pub proof fn law_balanced_futures_restore(
    a: CounterModel,
    b: CounterModel,
    d: int,
    schedule: Seq<(bool, bool)>,
)
    requires
        a.counter_type == CounterType::Increment,
        b.counter_type == CounterType::Decrement,
        a.count == 0,
        b.count == 0,
        count_taken_by(schedule, true) == MAX_COUNT,
        count_taken_by(schedule, false) == MAX_COUNT,
    ensures
        run_pair(a, b, d, schedule).0.count == MAX_COUNT,
        run_pair(a, b, d, schedule).1.count == MAX_COUNT,
        run_pair(a, b, d, schedule).2 == d,
{
    lemma_run_pair(a, b, d, schedule);
}

} // verus!
