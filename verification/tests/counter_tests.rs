use async_steps::counter::{Counter, MAX_COUNT};
use async_steps::queue::{worker_count, CounterFuture, FutureType};
use async_steps::step::PollResult;

#[test]
fn fresh_counter_is_ready_on_third_poll() {
    let mut c = Counter { count: 0 };
    assert_eq!(c.poll_step(), PollResult::Pending);
    assert_eq!(c.count, 1);
    assert_eq!(c.poll_step(), PollResult::Pending);
    assert_eq!(c.poll_step(), PollResult::Ready(3));
    assert_eq!(c.count, MAX_COUNT);
}

#[test]
fn counter_past_the_limit_stays_ready() {
    let mut c = Counter { count: 7 };
    assert_eq!(c.poll_step(), PollResult::Ready(8));
}

#[test]
fn labelled_counter_keeps_its_order() {
    let mut f = CounterFuture { count: 0, order: FutureType::Low };
    assert_eq!(f.get_order(), FutureType::Low);
    assert_eq!(f.poll_step(), PollResult::Pending);
    assert_eq!(f.poll_step(), PollResult::Pending);
    assert_eq!(f.poll_step(), PollResult::Ready(3));
    assert_eq!(f.get_order(), FutureType::Low);
}

#[test]
fn high_queue_has_two_workers_low_has_one() {
    assert_eq!(worker_count(FutureType::High), 2);
    assert_eq!(worker_count(FutureType::Low), 1);
}
