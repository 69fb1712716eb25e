use vstd::prelude::*;
use std::sync::Arc;
use std::sync::RwLock;
use std::sync::RwLockReadGuard;
use std::sync::RwLockWriteGuard;
use std::sync::TryLockError;
use crate::attempt::Attempt;
use crate::counter::Fault;
use crate::counter::incremented;
use crate::report::read_line;
use crate::report::read_report;
use crate::report::write_line;
use crate::report::write_report;

verus! {

/// `std::sync::RwLock`, carried through verified code as an opaque value.
#[verifier::external_type_specification]
#[verifier::external_body]
#[verifier::reject_recursive_types(T)]
pub struct ExRwLock<T: ?Sized>(RwLock<T>);

/// `std::sync::RwLockReadGuard`, carried through verified code as an opaque
/// value.
#[verifier::external_type_specification]
#[verifier::external_body]
#[verifier::reject_recursive_types(T)]
pub struct ExRwLockReadGuard<'a, T: ?Sized>(RwLockReadGuard<'a, T>);

/// `std::sync::RwLockWriteGuard`, carried through verified code as an opaque
/// value.
#[verifier::external_type_specification]
#[verifier::external_body]
#[verifier::reject_recursive_types(T)]
pub struct ExRwLockWriteGuard<'a, T: ?Sized + 'a>(RwLockWriteGuard<'a, T>);

/// The integer that the holder of read access sees. It stays as it is for as
/// long as the guard lives, since no writer is let in meanwhile.
pub uninterp spec fn seen(g: RwLockReadGuard<'_, i32>) -> i32;

/// The integer that the holder of write access has to itself.
pub uninterp spec fn owned(g: RwLockWriteGuard<'_, i32>) -> i32;

/// The integer that a reader/writer lock was made around. This is a fact of
/// how the lock came to be and stays with it; it says nothing of what the lock
/// guards now, which changes whenever a writer takes it.
pub uninterp spec fn initial_value(lock: RwLock<i32>) -> i32;

/// `RwLock::new`: a fresh, unlocked reader/writer lock around `v`. What it
/// guards later is not claimed: that can change whenever a writer takes it.
#[verifier::external_body]
fn new_rwlock(v: i32) -> (lock: RwLock<i32>)
    ensures
        initial_value(lock) == v,
{
    RwLock::new(v)
}

/// `RwLock::try_read`: asks for shared access without waiting. Where it can
/// be had the guard is handed over; where it cannot at this moment, the answer
/// is `Busy`; a poisoned lock is reported as `Fault::Poisoned`, and no other
/// fault comes out. Which integer the guard shows is not claimed.
#[verifier::external_body]
fn try_acquire_read<'a>(lock: &'a RwLock<i32>) -> (r: Attempt<RwLockReadGuard<'a, i32>>)
    ensures
        r matches Attempt::Failed(f) ==> f == Fault::Poisoned,
{
    match lock.try_read() {
        Ok(g) => Attempt::Granted(g),
        Err(TryLockError::WouldBlock) => Attempt::Busy,
        Err(TryLockError::Poisoned(_)) => Attempt::Failed(Fault::Poisoned),
    }
}

/// `RwLock::try_write`: asks for exclusive access without waiting. Where the
/// lock is free the guard is handed over; where anybody holds it, the calling
/// thread included, the answer is `Busy`; a poisoned lock is reported as
/// `Fault::Poisoned`, and no other fault comes out. Which integer the guard
/// holds is not claimed.
#[verifier::external_body]
fn try_acquire_write<'a>(lock: &'a RwLock<i32>) -> (r: Attempt<RwLockWriteGuard<'a, i32>>)
    ensures
        r matches Attempt::Failed(f) ==> f == Fault::Poisoned,
{
    match lock.try_write() {
        Ok(g) => Attempt::Granted(g),
        Err(TryLockError::WouldBlock) => Attempt::Busy,
        Err(TryLockError::Poisoned(_)) => Attempt::Failed(Fault::Poisoned),
    }
}

/// `Deref::deref` of a read guard: the integer it shows.
#[verifier::external_body]
fn seen_value(g: &RwLockReadGuard<'_, i32>) -> (v: i32)
    ensures
        v == seen(*g),
{
    **g
}

/// `DerefMut::deref_mut` of a write guard: the owned integer, for reading and
/// writing. The reference starts at what the guard holds, and what is left
/// behind it is what the guard holds afterwards.
#[verifier::external_body]
fn owned_mut<'a, 'b>(g: &'a mut RwLockWriteGuard<'b, i32>) -> (v: &'a mut i32)
    ensures
        *v == owned(*old(g)),
        owned(*final(g)) == *final(v),
{
    &mut **g
}

/// A fresh integer at `initial` behind a reader/writer lock of its own, in a
/// handle that can be cloned once for each actor that is to share it.
pub fn cell(initial: i32) -> (handle: Arc<RwLock<i32>>)
    ensures
        initial_value(*handle) == initial,
{
    Arc::new(new_rwlock(initial))
}

/// The line for what a holder of read access sees.
pub fn observe_held(g: &RwLockReadGuard<'_, i32>) -> (line: String)
    ensures
        line@ == read_report(seen(*g) as int),
{
    read_line(seen_value(g))
}

/// One increment by the holder of write access: the owned integer goes up by
/// one and the line that reports its new value is returned; at the largest
/// value it stays and the overflow is reported.
pub fn advance_held(g: &mut RwLockWriteGuard<'_, i32>) -> (r: Result<String, Fault>)
    ensures
        match incremented(owned(*old(g)) as int) {
            Ok(v) => owned(*final(g)) == v && r is Ok && r.unwrap()@ == write_report(v),
            Err(f) => owned(*final(g)) == owned(*old(g)) && r == Err::<String, Fault>(f),
        },
{
    let v = owned_mut(g);
    if *v < i32::MAX {
        *v = *v + 1;
        Ok(write_line(*v))
    } else {
        Err(Fault::Overflow)
    }
}

/// What `observe` makes of the answer to asking for read access: a granted
/// guard is handed back with the line for what it shows; a busy lock and a
/// fault are handed on.
pub fn observe_granted<'a>(asked: Attempt<RwLockReadGuard<'a, i32>>) -> (r: Attempt<
    (String, RwLockReadGuard<'a, i32>),
>)
    ensures
        match asked {
            Attempt::Granted(g) => r matches Attempt::Granted(seeing) && seeing.1 == g
                && seeing.0@ == read_report(seen(g) as int),
            Attempt::Busy => r is Busy,
            Attempt::Failed(f) => r matches Attempt::Failed(e) && e == f,
        },
{
    match asked {
        Attempt::Granted(g) => {
            let line = observe_held(&g);
            Attempt::Granted((line, g))
        },
        Attempt::Busy => Attempt::Busy,
        Attempt::Failed(f) => Attempt::Failed(f),
    }
}

/// What `advance` makes of the answer to asking for write access: a granted
/// guard has its integer incremented once and is handed back with the line for
/// the new value; where the integer cannot be incremented the guard is let go
/// and the overflow reported. A busy lock and a fault are handed on.
pub fn advance_granted<'a>(asked: Attempt<RwLockWriteGuard<'a, i32>>) -> (r: Attempt<
    (String, RwLockWriteGuard<'a, i32>),
>)
    ensures
        match asked {
            Attempt::Granted(g) => match incremented(owned(g) as int) {
                Ok(v) => r matches Attempt::Granted(holding) && owned(holding.1) == v
                    && holding.0@ == write_report(v),
                Err(f) => r matches Attempt::Failed(e) && e == f,
            },
            Attempt::Busy => r is Busy,
            Attempt::Failed(f) => r matches Attempt::Failed(e) && e == f,
        },
{
    match asked {
        Attempt::Granted(mut g) => match advance_held(&mut g) {
            Ok(line) => Attempt::Granted((line, g)),
            Err(f) => Attempt::Failed(f),
        },
        Attempt::Busy => Attempt::Busy,
        Attempt::Failed(f) => Attempt::Failed(f),
    }
}

/// One attempt at a read: asks for shared access without waiting and, where
/// it is given, returns the line for the value seen, with the guard, so that
/// the caller can emit the line before it lets go of the access. The only
/// fault is a poisoned lock.
pub fn observe<'a>(lock: &'a Arc<RwLock<i32>>) -> (r: Attempt<(String, RwLockReadGuard<'a, i32>)>)
    ensures
        r matches Attempt::Granted(seeing) ==> seeing.0@ == read_report(seen(seeing.1) as int),
        r matches Attempt::Failed(f) ==> f == Fault::Poisoned,
{
    observe_granted(try_acquire_read(lock))
}

/// One attempt at a write: asks for exclusive access without waiting and,
/// where it is given, adds one and returns the line for the new value, with
/// the guard, so that the caller can emit the line before it lets go of the
/// access.
pub fn advance<'a>(lock: &'a Arc<RwLock<i32>>) -> (r: Attempt<(String, RwLockWriteGuard<'a, i32>)>)
    ensures
        r matches Attempt::Granted(holding) ==> holding.0@ == write_report(
            owned(holding.1) as int,
        ) && owned(holding.1) > i32::MIN,
{
    advance_granted(try_acquire_write(lock))
}

} // verus!
