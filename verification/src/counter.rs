use vstd::prelude::*;

verus! {

/// Why an access to a guarded integer did not complete.
#[derive(Clone, Copy, Debug, PartialEq, Eq, Structural)]
pub enum Fault {
    /// An earlier holder of the lock ended abnormally inside its critical
    /// section, so the guarded value can no longer be relied on.
    Poisoned,
    /// The guarded integer is at its largest value and cannot be incremented.
    Overflow,
}

/// The integer that the exclusive-counter demonstration guards.
#[derive(Debug, PartialEq, Eq, Structural)]
pub struct Counter {
    pub count: i32,
}

impl View for Counter {
    type V = int;

    open spec fn view(&self) -> int {
        self.count as int
    }
}

/// What one increment makes of the guarded value `v`: the next integer, or an
/// overflow where there is none.
pub open spec fn incremented(v: int) -> Result<int, Fault> {
    if v < i32::MAX {
        Ok(v + 1)
    } else {
        Err(Fault::Overflow)
    }
}

impl Counter {
    /// A counter that starts at `initial`.
    pub fn new(initial: i32) -> (c: Counter)
        ensures
            c@ == initial,
    {
        Counter { count: initial }
    }

    /// The current value.
    pub fn value(&self) -> (v: i32)
        ensures
            v == self@,
    {
        self.count
    }

    /// The work of one critical section: adds one and returns the new value.
    /// At the largest value nothing changes and the overflow is reported.
    pub fn bump(&mut self) -> (r: Result<i32, Fault>)
        ensures
            match incremented(old(self)@) {
                Ok(v) => final(self)@ == v && r == Ok::<i32, Fault>(final(self).count),
                Err(f) => final(self)@ == old(self)@ && r == Err::<i32, Fault>(f),
            },
    {
        if self.count < i32::MAX {
            self.count = self.count + 1;
            Ok(self.count)
        } else {
            Err(Fault::Overflow)
        }
    }
}

} // verus!
