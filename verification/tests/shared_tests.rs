use async_steps::shared::{Counter, CounterType, SharedData, MAX_COUNT};
use async_steps::step::PollResult;

#[test]
fn increment_then_decrement_restores() {
    let mut d = SharedData { counter: 5 };
    d.increment();
    assert_eq!(d.counter, 6);
    d.decrement();
    assert_eq!(d.counter, 5);
    d.apply(CounterType::Decrement);
    assert_eq!(d.counter, 4);
    d.apply(CounterType::Increment);
    assert_eq!(d.counter, 5);
}

#[test]
fn sharing_counter_completes_after_ten_turns() {
    let mut data = SharedData { counter: 0 };
    let mut c = Counter { counter_type: CounterType::Increment, count: 0 };
    for _ in 0..MAX_COUNT - 1 {
        assert_eq!(c.poll_step(&mut data), PollResult::Pending);
    }
    assert_eq!(c.poll_step(&mut data), PollResult::Ready(10));
    assert_eq!(data.counter, 10);
}

#[test]
fn contention_changes_nothing() {
    let c = Counter { counter_type: CounterType::Decrement, count: 4 };
    assert_eq!(c.on_contention(), PollResult::Pending);
    assert_eq!(c.count, 4);
}

#[test]
fn interleaved_futures_leave_counter_at_zero() {
    let mut data = SharedData { counter: 0 };
    let mut up = Counter { counter_type: CounterType::Increment, count: 0 };
    let mut down = Counter { counter_type: CounterType::Decrement, count: 0 };
    let mut up_done = None;
    let mut down_done = None;
    let mut turn = 0u32;
    while up_done.is_none() || down_done.is_none() {
        // an uneven schedule: the lowering future gets the lock twice as often
        if turn % 3 == 0 && up_done.is_none() || down_done.is_some() {
            if let PollResult::Ready(n) = up.poll_step(&mut data) {
                up_done = Some(n);
            }
        } else if let PollResult::Ready(n) = down.poll_step(&mut data) {
            down_done = Some(n);
        }
        turn += 1;
    }
    assert_eq!(up_done, Some(10));
    assert_eq!(down_done, Some(10));
    assert_eq!(data.counter, 0);
}

#[test]
fn contended_polls_do_not_count_as_turns() {
    let mut data = SharedData { counter: 3 };
    let mut c = Counter { counter_type: CounterType::Decrement, count: 0 };
    let mut answers = Vec::new();
    for turn in 0..25u32 {
        if turn % 2 == 1 {
            answers.push(c.on_contention());
        } else {
            answers.push(c.poll_step(&mut data));
        }
        if c.count == MAX_COUNT {
            break;
        }
    }
    assert_eq!(answers.len(), 19);
    assert_eq!(answers.last(), Some(&PollResult::Ready(10)));
    assert!(answers[..18].iter().all(|a| *a == PollResult::Pending));
    assert_eq!(data.counter, -7);
}
