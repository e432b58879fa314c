//! The lines that the log-writing futures append to their files.

use vstd::prelude::*;
use crate::step::PollResult;

verus! {

/// The line written for `entry`: the entry followed by a newline.
pub fn lined_entry(entry: &str) -> (r: String)
    ensures
        r@ == entry@.push('\n'),
{
    let mut line = entry.to_owned();
    proof {
        reveal_strlit("\n");
    }
    line.append("\n");
    line
}

/// The entries written for `name` when it logs in and when it logs out:
/// the name followed by " login", and the name followed by " logout".
pub fn session_entries(name: &str) -> (r: (String, String))
    ensures
        r.0@ == name@ + " login"@,
        r.1@ == name@ + " logout"@,
{
    let mut login = name.to_owned();
    login.append(" login");
    let mut logout = name.to_owned();
    logout.append(" logout");
    (login, logout)
}

/// What a log-writing future answers to a poll: `Pending` when another
/// future held the file's lock, and `Ready(Ok(true))` once it has taken the
/// lock and made its write, whether or not the write succeeded.
pub fn write_outcome(lock_taken: bool) -> (r: PollResult<Result<bool, String>>)
    ensures
        lock_taken ==> r == PollResult::<Result<bool, String>>::Ready(Ok(true)),
        !lock_taken ==> r == PollResult::<Result<bool, String>>::Pending,
{
    if lock_taken {
        PollResult::Ready(Ok(true))
    } else {
        PollResult::Pending
    }
}

} // verus!
