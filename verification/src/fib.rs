//! The naive Fibonacci computation that the worker threads run.

use vstd::prelude::*;

verus! {

/// The Fibonacci sequence: 0, 1, 1, 2, 3, 5, ...
pub open spec fn spec_fib(n: nat) -> nat
    decreases n,
{
    if n <= 1 {
        n
    } else {
        spec_fib((n - 1) as nat) + spec_fib((n - 2) as nat)
    }
}

/// The sequence starts 0, 1 and each later term is the sum of the two
/// before it.
pub proof fn law_fib_recurrence(n: nat)
    ensures
        spec_fib(0) == 0,
        spec_fib(1) == 1,
        spec_fib(n + 2) == spec_fib(n + 1) + spec_fib(n),
{
}

/// The sequence never decreases.
pub proof fn lemma_fib_monotonic(i: nat, j: nat)
    requires
        i <= j,
    ensures
        spec_fib(i) <= spec_fib(j),
    decreases j - i,
{
    if i < j {
        lemma_fib_monotonic(i, (j - 1) as nat);
        if j >= 2 {
            assert(spec_fib(j) == spec_fib((j - 1) as nat) + spec_fib((j - 2) as nat));
        }
    }
}

/// Computes the `n`-th Fibonacci number by the doubly recursive definition,
/// the deliberately slow work that keeps a thread busy.
pub fn fibonacci(n: u64) -> (r: u64)
    requires
        spec_fib(n as nat) <= u64::MAX,
    ensures
        r == spec_fib(n as nat),
    decreases n,
{
    if n == 0 || n == 1 {
        return n;
    }
    proof {
        lemma_fib_monotonic((n - 1) as nat, n as nat);
        lemma_fib_monotonic((n - 2) as nat, n as nat);
    }
    fibonacci(n - 1) + fibonacci(n - 2)
}

/// Tells whether the `n`-th Fibonacci number fits in a `u64`, that is,
/// whether `fibonacci(n)` can be computed without overflow.
pub fn fibonacci_fits(n: u64) -> (r: bool)
    ensures
        r == (spec_fib(n as nat) <= u64::MAX),
{
    if n <= 1 {
        return true;
    }
    let mut prev: u64 = 0;
    let mut cur: u64 = 1;
    let mut i: u64 = 1;
    while i < n
        invariant
            1 <= i <= n,
            prev == spec_fib((i - 1) as nat),
            cur == spec_fib(i as nat),
        decreases n - i,
    {
        match cur.checked_add(prev) {
            Some(next) => {
                prev = cur;
                cur = next;
                i = i + 1;
            },
            None => {
                proof {
                    assert(spec_fib((i + 1) as nat) == spec_fib(i as nat) + spec_fib((i - 1) as nat));
                    lemma_fib_monotonic((i + 1) as nat, n as nat);
                }
                return false;
            },
        }
    }
    true
}

} // verus!
