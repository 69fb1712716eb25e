use vstd::prelude::*;
use crate::counter::Fault;

verus! {

/// What came of one attempt at a critical section. An attempt never waits for
/// the lock: where somebody else holds it, the attempt ends at once and it is
/// for the caller to ask again.
#[derive(Debug, PartialEq, Eq)]
pub enum Attempt<T> {
    /// Access was given, and this is what came of it.
    Granted(T),
    /// Somebody else holds the lock. Nothing was done.
    Busy,
    /// The attempt met a fault. A fault is never recovered from.
    Failed(Fault),
}

/// How many sections an actor still has to make, after an attempt at one of
/// `left`: one fewer where access was given, as many where the lock was busy,
/// and none to count where the attempt met a fault, which ends the actor's
/// work.
pub open spec fn left_after<T>(left: u32, section: Attempt<T>) -> Result<u32, Fault> {
    match section {
        Attempt::Granted(_) => Ok(
            if left > 0 {
                (left - 1) as u32
            } else {
                0u32
            },
        ),
        Attempt::Busy => Ok(left),
        Attempt::Failed(f) => Err(f),
    }
}

/// The step of every loop of sections: given how many were left before an
/// attempt and what came of the attempt, says how many are left now, or hands
/// on the fault that ends the loop. The loop is over when none is left.
pub fn after_section<T>(left: u32, section: &Attempt<T>) -> (next: Result<u32, Fault>)
    ensures
        next == left_after(left, *section),
{
    match section {
        Attempt::Granted(_) => {
            if left > 0 {
                Ok(left - 1)
            } else {
                Ok(0)
            }
        },
        Attempt::Busy => Ok(left),
        Attempt::Failed(f) => Err(*f),
    }
}

} // verus!
