//! Helpers around the agents' locks.
use vstd::prelude::*;
use vstd::string::*;

verus! {

/// The error of a lock that could not be taken in `context`, after one retry.
pub fn lock_failure_message(context: &str) -> (r: String)
    ensures
        r@ == "Failed to acquire lock in "@ + context@,
{
    let mut r = String::from_str("Failed to acquire lock in ");
    r.append(context);
    r
}

} // verus!
