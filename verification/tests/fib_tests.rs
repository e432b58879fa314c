use async_steps::fib::{fibonacci, fibonacci_fits};

#[test]
fn fibonacci_base_cases() {
    assert_eq!(fibonacci(0), 0);
    assert_eq!(fibonacci(1), 1);
    assert_eq!(fibonacci(2), 1);
}

#[test]
fn fibonacci_of_twenty() {
    assert_eq!(fibonacci(20), 6765);
}

#[test]
fn fibonacci_recurrence_holds() {
    for n in 2..25u64 {
        assert_eq!(fibonacci(n), fibonacci(n - 1) + fibonacci(n - 2));
    }
}

#[test]
fn fibonacci_fits_up_to_ninety_three() {
    assert!(fibonacci_fits(0));
    assert!(fibonacci_fits(41));
    assert!(fibonacci_fits(93));
    assert!(!fibonacci_fits(94));
    assert!(!fibonacci_fits(50000));
}
