use async_steps::fetch::{append_decimal, delay_url};
use async_steps::logfile::{lined_entry, session_entries, write_outcome};
use async_steps::step::PollResult;
use async_steps::pinning::SelfReferential;

#[test]
fn delay_url_for_three_seconds() {
    assert_eq!(delay_url(3), "https://httpbin.org/delay/3");
}

#[test]
fn delay_url_multi_digit_and_zero() {
    assert_eq!(delay_url(0), "https://httpbin.org/delay/0");
    assert_eq!(delay_url(120), "https://httpbin.org/delay/120");
    let mut s = String::new();
    append_decimal(&mut s, u64::MAX);
    assert_eq!(s, u64::MAX.to_string());
}

#[test]
fn lined_entry_ends_with_newline() {
    assert_eq!(lined_entry("one"), "one\n");
    assert_eq!(lined_entry(""), "\n");
}

#[test]
fn session_entries_name_both_events() {
    let (login, logout) = session_entries("seven");
    assert_eq!(login, "seven login");
    assert_eq!(logout, "seven logout");
}

#[test]
fn self_referential_refers_to_its_text() {
    let first = SelfReferential::new("first".to_string());
    let moved = first;
    assert_eq!(moved.referenced(), "first");
}

#[test]
fn write_outcome_waits_on_contention_and_finishes_after_write() {
    assert_eq!(write_outcome(false), PollResult::Pending);
    assert_eq!(write_outcome(true), PollResult::Ready(Ok(true)));
}
