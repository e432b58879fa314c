//! A value that refers to its own text, the case that pinning exists for.

use vstd::prelude::*;

verus! {

/// A value that holds its text and refers to it. The reference is taken
/// through the value itself, so moving the value cannot leave it dangling.
pub struct SelfReferential {
    pub data: String,
}

impl SelfReferential {
    /// Wraps `data`.
    pub fn new(data: String) -> (sr: SelfReferential)
        ensures
            sr.data@ == data@,
    {
        SelfReferential { data }
    }

    /// The text the value refers to: its own.
    pub fn referenced(&self) -> (t: &String)
        ensures
            t@ == self.data@,
    {
        &self.data
    }
}

} // verus!
