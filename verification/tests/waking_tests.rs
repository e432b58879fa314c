use async_steps::step::PollResult;
use async_steps::waking::{MyFuture, MyFutureState};
use std::sync::Arc;
use std::task::Waker;

#[test]
fn poll_before_delivery_leaves_waker() {
    let mut s = MyFutureState::new();
    assert!(s.data.is_none());
    assert!(s.waker.is_none());
    assert_eq!(s.poll_step(Waker::noop().clone()), PollResult::Pending);
    assert!(s.waker.is_some());
}

#[test]
fn delivery_is_read_back_as_text() {
    let mut s = MyFutureState::new();
    assert_eq!(s.poll_step(Waker::noop().clone()), PollResult::Pending);
    s.deliver(b"Hello from the outside.".to_vec());
    assert!(s.take_waker().is_some());
    assert!(s.take_waker().is_none());
    assert_eq!(
        s.poll_step(Waker::noop().clone()),
        PollResult::Ready(String::from("Hello from the outside."))
    );
    assert!(s.data.is_none());
}

#[test]
fn multibyte_text_is_decoded() {
    let mut s = MyFutureState::new();
    s.deliver("grüß".as_bytes().to_vec());
    assert_eq!(s.poll_step(Waker::noop().clone()), PollResult::Ready(String::from("grüß")));
}

#[test]
fn new_future_shares_its_state() {
    let (f, handle) = MyFuture::new();
    assert!(Arc::ptr_eq(&f.state, &handle));
    let guard = handle.lock().unwrap();
    assert!(guard.data.is_none());
    assert!(guard.waker.is_none());
}
