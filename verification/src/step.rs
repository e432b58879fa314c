//! What one poll of a hand-written future answers.

use vstd::prelude::*;

verus! {

/// The answer of one poll: not finished yet, or finished with a value.
#[derive(Debug, PartialEq, Eq)]
pub enum PollResult<T> {
    Pending,
    Ready(T),
}

} // verus!
