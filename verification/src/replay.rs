use vstd::prelude::*;
use crate::counter::Counter;
use crate::counter::Fault;
use crate::counter::incremented;

verus! {

/// How many increments each actor of the exclusive-counter demonstration
/// makes.
pub const ROUNDS: u32 = 50;

/// The two actors that share the counter.
#[derive(Clone, Copy, Debug, PartialEq, Eq, Structural)]
pub enum Actor {
    /// The worker that the demonstration starts.
    Worker,
    /// The context that started it.
    Caller,
}

/// One grant of the lock, and what its holder did with it.
#[derive(Clone, Copy, Debug, PartialEq, Eq, Structural)]
pub enum Grant {
    /// The actor held the lock for one critical section and made one
    /// increment.
    Increment(Actor),
    /// The actor was given the lock and ended abnormally while it held it.
    Abandon(Actor),
}

/// What a run leaves behind: the value of the counter after the grants in
/// their order, or the fault that ended the run. A fault is final: once the
/// lock is poisoned, or an increment has overflowed, no later grant changes
/// the outcome.
pub open spec fn outcome(initial: int, grants: Seq<Grant>) -> Result<int, Fault>
    decreases grants.len(),
{
    if grants.len() == 0 {
        Ok(initial)
    } else {
        match outcome(initial, grants.drop_last()) {
            Ok(v) => match grants.last() {
                Grant::Increment(_) => incremented(v),
                Grant::Abandon(_) => Err(Fault::Poisoned),
            },
            Err(f) => Err(f),
        }
    }
}

/// How many increments `who` makes in the run.
pub open spec fn increments_by(grants: Seq<Grant>, who: Actor) -> nat
    decreases grants.len(),
{
    if grants.len() == 0 {
        0
    } else {
        increments_by(grants.drop_last(), who) + if grants.last() == Grant::Increment(who) {
            1nat
        } else {
            0nat
        }
    }
}

/// No holder of the lock ends abnormally in the run.
pub open spec fn undisturbed(grants: Seq<Grant>) -> bool {
    forall|i: int| 0 <= i < grants.len() ==> #[trigger] grants[i] is Increment
}

proof fn lemma_fault_stays(initial: int, grants: Seq<Grant>, k: int)
    requires
        0 <= k <= grants.len(),
        outcome(initial, grants.take(k)) is Err,
    ensures
        outcome(initial, grants) == outcome(initial, grants.take(k)),
    decreases grants.len() - k,
{
    if k == grants.len() {
        assert(grants.take(k) =~= grants);
    } else {
        assert(grants.take(k + 1).drop_last() =~= grants.take(k));
        lemma_fault_stays(initial, grants, k + 1);
    }
}

proof fn lemma_undisturbed_before(grants: Seq<Grant>)
    requires
        undisturbed(grants),
        grants.len() > 0,
    ensures
        undisturbed(grants.drop_last()),
{
    let before = grants.drop_last();
    assert forall|i: int| 0 <= i < before.len() implies #[trigger] before[i] is Increment by {
        assert(before[i] == grants[i]);
    }
}

/// Every section counts: an undisturbed run leaves the counter as many above
/// where it started as it has grants, whoever holds them, and an empty run
/// leaves it as it was. (The sum has to fit the counter.)
pub proof fn every_section_counts(initial: int, grants: Seq<Grant>)
    requires
        undisturbed(grants),
        initial + grants.len() <= i32::MAX,
    ensures
        outcome(initial, grants) == Ok::<int, Fault>(initial + grants.len()),
    decreases grants.len(),
{
    if grants.len() > 0 {
        let before = grants.drop_last();
        lemma_undisturbed_before(grants);
        every_section_counts(initial, before);
        assert(grants.last() == grants[grants.len() - 1]);
    }
}

/// An undisturbed run is bounded: it has as many grants as its two actors make
/// increments between them.
pub proof fn run_length(grants: Seq<Grant>)
    requires
        undisturbed(grants),
    ensures
        increments_by(grants, Actor::Worker) + increments_by(grants, Actor::Caller)
            == grants.len(),
    decreases grants.len(),
{
    if grants.len() > 0 {
        let before = grants.drop_last();
        lemma_undisturbed_before(grants);
        run_length(before);
        assert(grants.last() == grants[grants.len() - 1]);
    }
}

/// Replays the exclusive-counter demonstration under a given order of grants:
/// a counter that starts at `initial` goes through the critical sections in
/// that order, and its final value is read. The result is the outcome of the
/// run: the final value, or the fault that ended it.
pub fn counter(initial: i32, grants: &Vec<Grant>) -> (r: Result<i32, Fault>)
    ensures
        match outcome(initial as int, grants@) {
            Ok(v) => r == Ok::<i32, Fault>(v as i32) && i32::MIN <= v <= i32::MAX,
            Err(f) => r == Err::<i32, Fault>(f),
        },
{
    let mut shared = Counter::new(initial);
    let mut i: usize = 0;
    proof {
        assert(grants@.take(0).len() == 0);
    }
    while i < grants.len()
        invariant
            i <= grants.len(),
            outcome(initial as int, grants@.take(i as int)) == Ok::<int, Fault>(shared@),
        decreases grants.len() - i,
    {
        proof {
            assert(grants@.take(i + 1).drop_last() =~= grants@.take(i as int));
            assert(grants@.take(i + 1).last() == grants@[i as int]);
        }
        match grants[i] {
            Grant::Increment(_) => {
                match shared.bump() {
                    Ok(_) => {},
                    Err(f) => {
                        proof {
                            lemma_fault_stays(initial as int, grants@, i + 1);
                        }
                        return Err(f);
                    },
                }
            },
            Grant::Abandon(_) => {
                proof {
                    lemma_fault_stays(initial as int, grants@, i + 1);
                }
                return Err(Fault::Poisoned);
            },
        }
        i = i + 1;
    }
    proof {
        assert(grants@.take(i as int) =~= grants@);
    }
    Ok(shared.value())
}

/// No update is lost: where two actors make `n` increments each and nobody
/// ends abnormally, the counter ends at `initial + 2 * n`, in whatever order
/// the lock was granted. (The sum has to fit the counter.)
pub proof fn no_lost_updates(initial: int, grants: Seq<Grant>, n: nat)
    requires
        undisturbed(grants),
        increments_by(grants, Actor::Worker) == n,
        increments_by(grants, Actor::Caller) == n,
        initial + 2 * n <= i32::MAX,
    ensures
        outcome(initial, grants) == Ok::<int, Fault>(initial + 2 * n),
{
    run_length(grants);
    every_section_counts(initial, grants);
}

/// The demonstration as it is run, with `ROUNDS` increments by each actor,
/// ends one hundred above where it started, in whatever order the lock was
/// granted. (The sum has to fit the counter.)
pub proof fn demonstration_adds_one_hundred(initial: int, grants: Seq<Grant>)
    requires
        undisturbed(grants),
        increments_by(grants, Actor::Worker) == ROUNDS,
        increments_by(grants, Actor::Caller) == ROUNDS,
        initial + 100 <= i32::MAX,
    ensures
        outcome(initial, grants) == Ok::<int, Fault>(initial + 100),
{
    no_lost_updates(initial, grants, ROUNDS as nat);
}

/// One section is one grant: what a holder's increment makes of the value
/// it finds is what the replay makes of that one grant.
pub proof fn one_section_is_one_grant(found: int, who: Actor)
    ensures
        outcome(found, seq![Grant::Increment(who)]) == incremented(found),
{
    let one = seq![Grant::Increment(who)];
    assert(one.drop_last().len() == 0);
    assert(one.last() == Grant::Increment(who));
    assert(outcome(found, one.drop_last()) == Ok::<int, Fault>(found));
}

/// Runs compose: a run followed by another leaves what the second makes of
/// what the first left, and a fault of the first is the fault of the whole.
pub proof fn runs_compose(initial: int, first: Seq<Grant>, then: Seq<Grant>)
    ensures
        outcome(initial, first + then) == match outcome(initial, first) {
            Ok(v) => outcome(v, then),
            Err(f) => Err(f),
        },
    decreases then.len(),
{
    if then.len() == 0 {
        assert(first + then =~= first);
    } else {
        assert((first + then).drop_last() =~= first + then.drop_last());
        assert((first + then).last() == then.last());
        runs_compose(initial, first, then.drop_last());
    }
}

/// Poison is final: once a holder has ended abnormally inside its critical
/// section, every later access finds a fault and no value. Where the run was
/// sound up to that grant, the fault is the poisoned lock.
pub proof fn poison_is_final(initial: int, grants: Seq<Grant>, at: int, later: int)
    requires
        0 <= at < later <= grants.len(),
        grants[at] is Abandon,
    ensures
        outcome(initial, grants.take(later)) is Err,
        outcome(initial, grants.take(at)) is Ok ==> outcome(initial, grants.take(later)) == Err::<
            int,
            Fault,
        >(Fault::Poisoned),
{
    let upto = grants.take(later);
    assert(upto.take(at + 1).drop_last() =~= grants.take(at));
    assert(upto.take(at + 1).last() == grants[at]);
    assert(upto.take(at) =~= grants.take(at));
    if outcome(initial, grants.take(at)) is Err {
        lemma_fault_stays(initial, upto, at);
    } else {
        lemma_fault_stays(initial, upto, at + 1);
    }
}

} // verus!
