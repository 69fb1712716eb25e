use vstd::prelude::*;
use std::sync::Arc;
use std::sync::Mutex;
use std::sync::MutexGuard;
use std::sync::TryLockError;
use crate::attempt::Attempt;
use crate::attempt::after_section;
use crate::counter::Counter;
use crate::counter::Fault;
use crate::counter::incremented;

verus! {

/// `std::sync::Mutex`, carried through verified code as an opaque value.
#[verifier::external_type_specification]
#[verifier::external_body]
#[verifier::reject_recursive_types(T)]
pub struct ExMutex<T: ?Sized>(Mutex<T>);

/// `std::sync::MutexGuard`, carried through verified code as an opaque value.
#[verifier::external_type_specification]
#[verifier::external_body]
#[verifier::reject_recursive_types(T)]
pub struct ExMutexGuard<'a, T: ?Sized + 'a>(MutexGuard<'a, T>);

/// The counter that the holder of a guard has exclusive access to.
pub uninterp spec fn held(g: MutexGuard<'_, Counter>) -> Counter;

/// The counter that a lock was made around. This is a fact of how the lock
/// came to be and stays with it; it says nothing of what the lock guards now,
/// which changes whenever a holder of the handle takes the lock.
pub uninterp spec fn initial_counter(m: Mutex<Counter>) -> Counter;

/// `Mutex::new`: a fresh, unlocked lock around `c`. What it guards later is
/// not claimed: that can change whenever a holder of the handle takes it.
#[verifier::external_body]
fn new_mutex(c: Counter) -> (m: Mutex<Counter>)
    ensures
        initial_counter(m) == c,
{
    Mutex::new(c)
}

/// `Mutex::try_lock`: asks for exclusive access without waiting. Where the
/// lock is free the guard is handed over; where somebody holds it, the calling
/// thread included, the answer is `Busy`; a poisoned lock is reported as
/// `Fault::Poisoned`, and no other fault comes out. Which counter the guard
/// holds is not claimed: it is whatever the last holder left.
#[verifier::external_body]
fn try_acquire<'a>(m: &'a Mutex<Counter>) -> (r: Attempt<MutexGuard<'a, Counter>>)
    ensures
        r matches Attempt::Failed(f) ==> f == Fault::Poisoned,
{
    match m.try_lock() {
        Ok(g) => Attempt::Granted(g),
        Err(TryLockError::WouldBlock) => Attempt::Busy,
        Err(TryLockError::Poisoned(_)) => Attempt::Failed(Fault::Poisoned),
    }
}

/// `DerefMut::deref_mut` of a guard: the held counter, for reading and
/// writing. The reference starts at what the guard holds, and what is left
/// behind it is what the guard holds afterwards.
#[verifier::external_body]
fn held_mut<'a, 'b>(g: &'a mut MutexGuard<'b, Counter>) -> (c: &'a mut Counter)
    ensures
        *c == held(*old(g)),
        held(*final(g)) == *final(c),
{
    &mut **g
}

/// One increment by a holder of the lock: the held counter goes up by one and
/// its new value is returned; at the largest value it stays and the overflow is
/// reported.
pub fn incr_held(g: &mut MutexGuard<'_, Counter>) -> (r: Result<i32, Fault>)
    ensures
        match incremented(held(*old(g))@) {
            Ok(v) => held(*final(g))@ == v && r == Ok::<i32, Fault>(v as i32),
            Err(f) => held(*final(g))@ == held(*old(g))@ && r == Err::<i32, Fault>(f),
        },
{
    let c = held_mut(g);
    c.bump()
}

/// A fresh counter at `initial` behind a lock of its own, in a handle that
/// can be cloned once for each actor that is to share it.
pub fn share(initial: i32) -> (handle: Arc<Mutex<Counter>>)
    ensures
        initial_counter(*handle)@ == initial,
{
    Arc::new(new_mutex(Counter::new(initial)))
}

/// What `incr` makes of the answer to asking for the lock. A granted guard
/// has its counter incremented once and is handed back with the new value, so
/// that what it holds when it is let go is known; where the counter cannot be
/// incremented the guard is let go and the overflow reported. A busy lock and
/// a fault are handed on.
pub fn incr_granted<'a>(asked: Attempt<MutexGuard<'a, Counter>>) -> (r: Attempt<
    (i32, MutexGuard<'a, Counter>),
>)
    ensures
        match asked {
            Attempt::Granted(g) => match incremented(held(g)@) {
                Ok(v) => r matches Attempt::Granted(done) && done.0 == v && held(done.1)@ == v,
                Err(f) => r matches Attempt::Failed(e) && e == f,
            },
            Attempt::Busy => r is Busy,
            Attempt::Failed(f) => r matches Attempt::Failed(e) && e == f,
        },
{
    match asked {
        Attempt::Granted(mut g) => match incr_held(&mut g) {
            Ok(v) => Attempt::Granted((v, g)),
            Err(f) => Attempt::Failed(f),
        },
        Attempt::Busy => Attempt::Busy,
        Attempt::Failed(f) => Attempt::Failed(f),
    }
}

/// One attempt at a critical section: asks for the lock without waiting and,
/// where it is given, adds one to the counter and lets the lock go again.
/// Returns the value it left. The value it finds is whatever the other holders
/// of the handle have made of it, so nothing is promised of the number
/// returned but that it is a successor.
pub fn incr(counter: &Arc<Mutex<Counter>>) -> (r: Attempt<i32>)
    ensures
        r matches Attempt::Granted(v) ==> v > i32::MIN,
{
    match incr_granted(try_acquire(counter)) {
        Attempt::Granted(done) => Attempt::Granted(done.0),
        Attempt::Busy => Attempt::Busy,
        Attempt::Failed(f) => Attempt::Failed(f),
    }
}

/// Makes up to `n` increments, each in a critical section of its own so that
/// the other actors can take the lock in between. It goes on until all are
/// made, or the lock is found busy, or a fault ends it, and returns how many
/// are still to make: none where it made them all. A caller that is left with
/// some waits and asks for those.
pub fn increment_n_times(counter: &Arc<Mutex<Counter>>, n: u32) -> (r: Result<u32, Fault>)
    ensures
        n == 0 ==> r == Ok::<u32, Fault>(0),
        r matches Ok(left) ==> left <= n,
{
    let mut left: u32 = n;
    while left > 0
        invariant
            left <= n,
        decreases left,
    {
        let section = incr(counter);
        match after_section(left, &section) {
            Ok(next) => {
                if next == left {
                    return Ok(left);
                }
                left = next;
            },
            Err(f) => {
                return Err(f);
            },
        }
    }
    Ok(0)
}

/// What `current` makes of the answer to asking for the lock: the value of the
/// counter that a granted guard holds; a busy lock and a fault are handed on.
pub fn current_granted(asked: Attempt<MutexGuard<'_, Counter>>) -> (r: Attempt<i32>)
    ensures
        r == match asked {
            Attempt::Granted(g) => Attempt::Granted(held(g).count),
            Attempt::Busy => Attempt::Busy,
            Attempt::Failed(f) => Attempt::Failed(f),
        },
{
    match asked {
        Attempt::Granted(mut g) => Attempt::Granted(held_mut(&mut g).value()),
        Attempt::Busy => Attempt::Busy,
        Attempt::Failed(f) => Attempt::Failed(f),
    }
}

/// One attempt at reading the counter: asks for the lock without waiting and,
/// where it is given, reads the counter and lets the lock go again. The only
/// fault is a poisoned lock.
pub fn current(counter: &Arc<Mutex<Counter>>) -> (r: Attempt<i32>)
    ensures
        r matches Attempt::Failed(f) ==> f == Fault::Poisoned,
{
    current_granted(try_acquire(counter))
}

} // verus!
