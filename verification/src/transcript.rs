use vstd::prelude::*;
use crate::counter::Fault;
use crate::counter::incremented;
use crate::report::read_line;
use crate::report::read_report;
use crate::report::write_line;
use crate::report::write_report;

verus! {

/// How many readers the read/write demonstration starts.
pub const READERS: usize = 10;

/// How many reads each reader makes, and how many writes the writer makes.
pub const PASSES: u32 = 20;

/// Who is given access in one turn of the read/write demonstration.
#[derive(Clone, Copy, Debug, PartialEq, Eq, Structural)]
pub enum Party {
    /// The reader of that number.
    Reader(usize),
    /// The writer.
    Writer,
}

/// One turn of the read/write demonstration, and what the party did with it.
#[derive(Clone, Copy, Debug, PartialEq, Eq, Structural)]
pub enum Turn {
    /// The party held access for one pass: a reader looked at the value, the
    /// writer added one to it.
    Pass(Party),
    /// The party was given access and ended abnormally while it held it. The
    /// replay counts the lock as poisoned from then on, whoever the party was.
    Abandon(Party),
}

/// How many passes of the run are the writer's.
pub open spec fn writes(turns: Seq<Turn>) -> nat
    decreases turns.len(),
{
    if turns.len() == 0 {
        0
    } else {
        writes(turns.drop_last()) + if turns.last() == Turn::Pass(Party::Writer) {
            1nat
        } else {
            0nat
        }
    }
}

/// How many passes of the run are those of the reader `who`.
pub open spec fn reads_by(turns: Seq<Turn>, who: nat) -> nat
    decreases turns.len(),
{
    if turns.len() == 0 {
        0
    } else {
        reads_by(turns.drop_last(), who) + if turns.last() matches Turn::Pass(Party::Reader(w))
            && w == who {
            1nat
        } else {
            0nat
        }
    }
}

/// What a run leaves behind: the value after the turns in their order, from
/// zero, or the fault that ended the run. A fault is final: once a party has
/// ended abnormally while it held access, or an increment has overflowed, no
/// later turn changes the outcome.
pub open spec fn value_after(turns: Seq<Turn>) -> Result<int, Fault>
    decreases turns.len(),
{
    if turns.len() == 0 {
        Ok(0)
    } else {
        match value_after(turns.drop_last()) {
            Ok(v) => match turns.last() {
                Turn::Pass(Party::Reader(_)) => Ok(v),
                Turn::Pass(Party::Writer) => incremented(v),
                Turn::Abandon(_) => Err(Fault::Poisoned),
            },
            Err(f) => Err(f),
        }
    }
}

/// No party ends abnormally in the run.
pub open spec fn undisturbed(turns: Seq<Turn>) -> bool {
    forall|i: int| 0 <= i < turns.len() ==> #[trigger] turns[i] is Pass
}

/// The value that the party of turn `i` finds in a sound run: what the
/// writer's passes before it have made of zero.
pub open spec fn found_at(turns: Seq<Turn>, i: int) -> nat {
    writes(turns.take(i))
}

/// The line that turn `i` of a sound run emits: a reader reports the value it
/// finds, the writer the value it leaves. An abandoned turn emits none.
pub open spec fn line_at(turns: Seq<Turn>, i: int) -> Seq<char> {
    match turns[i] {
        Turn::Pass(Party::Reader(_)) => read_report(found_at(turns, i) as int),
        Turn::Pass(Party::Writer) => write_report(found_at(turns, i) as int + 1),
        Turn::Abandon(_) => Seq::empty(),
    }
}

/// The run is the whole demonstration for `readers` readers and `passes`
/// passes: the writer makes `passes` passes, so does each of the readers,
/// nobody else makes any, and nobody ends abnormally.
pub open spec fn complete(turns: Seq<Turn>, readers: nat, passes: nat) -> bool {
    &&& undisturbed(turns)
    &&& writes(turns) == passes
    &&& forall|who: nat| who < readers ==> #[trigger] reads_by(turns, who) == passes
    &&& forall|i: int|
        0 <= i < turns.len() ==> (#[trigger] turns[i] matches Turn::Pass(Party::Reader(who))
            ==> who < readers)
}

/// How many passes of the run are those of a reader with a number under `k`.
spec fn reads_below(turns: Seq<Turn>, k: nat) -> nat
    decreases turns.len(),
{
    if turns.len() == 0 {
        0
    } else {
        reads_below(turns.drop_last(), k) + if turns.last() matches Turn::Pass(Party::Reader(w))
            && w < k {
            1nat
        } else {
            0nat
        }
    }
}

proof fn lemma_one_more_reader(turns: Seq<Turn>, k: nat)
    ensures
        reads_below(turns, k + 1) == reads_below(turns, k) + reads_by(turns, k),
    decreases turns.len(),
{
    if turns.len() > 0 {
        lemma_one_more_reader(turns.drop_last(), k);
    }
}

proof fn lemma_no_reader_below_zero(turns: Seq<Turn>)
    ensures
        reads_below(turns, 0) == 0,
    decreases turns.len(),
{
    if turns.len() > 0 {
        lemma_no_reader_below_zero(turns.drop_last());
    }
}

proof fn lemma_readers_alike(turns: Seq<Turn>, k: nat, passes: nat)
    requires
        forall|who: nat| who < k ==> #[trigger] reads_by(turns, who) == passes,
    ensures
        reads_below(turns, k) == k * passes,
    decreases k,
{
    if k == 0 {
        lemma_no_reader_below_zero(turns);
    } else {
        let j = (k - 1) as nat;
        lemma_readers_alike(turns, j, passes);
        lemma_one_more_reader(turns, j);
        assert(reads_by(turns, j) == passes);
        assert(k * passes == j * passes + passes) by (nonlinear_arith)
            requires
                k == j + 1,
        ;
    }
}

proof fn lemma_undisturbed_before(turns: Seq<Turn>)
    requires
        undisturbed(turns),
        turns.len() > 0,
    ensures
        undisturbed(turns.drop_last()),
{
    let before = turns.drop_last();
    assert forall|i: int| 0 <= i < before.len() implies #[trigger] before[i] is Pass by {
        assert(before[i] == turns[i]);
    }
}

proof fn lemma_every_pass_has_a_party(turns: Seq<Turn>, k: nat)
    requires
        undisturbed(turns),
        forall|i: int|
            0 <= i < turns.len() ==> (#[trigger] turns[i] matches Turn::Pass(Party::Reader(who))
                ==> who < k),
    ensures
        turns.len() == writes(turns) + reads_below(turns, k),
    decreases turns.len(),
{
    if turns.len() > 0 {
        let before = turns.drop_last();
        lemma_undisturbed_before(turns);
        assert forall|i: int| 0 <= i < before.len() implies (#[trigger] before[i] matches Turn::Pass(
            Party::Reader(who),
        ) ==> who < k) by {
            assert(before[i] == turns[i]);
        }
        lemma_every_pass_has_a_party(before, k);
        assert(turns.last() == turns[turns.len() - 1]);
    }
}

proof fn lemma_writes_grow(turns: Seq<Turn>, i: int)
    requires
        0 <= i <= turns.len(),
    ensures
        writes(turns.take(i)) <= writes(turns),
    decreases turns.len() - i,
{
    if i == turns.len() {
        assert(turns.take(i) =~= turns);
    } else {
        assert(turns.take(i + 1).drop_last() =~= turns.take(i));
        lemma_writes_grow(turns, i + 1);
    }
}

proof fn lemma_fault_stays(turns: Seq<Turn>, k: int)
    requires
        0 <= k <= turns.len(),
        value_after(turns.take(k)) is Err,
    ensures
        value_after(turns) == value_after(turns.take(k)),
    decreases turns.len() - k,
{
    if k == turns.len() {
        assert(turns.take(k) =~= turns);
    } else {
        assert(turns.take(k + 1).drop_last() =~= turns.take(k));
        lemma_fault_stays(turns, k + 1);
    }
}

proof fn lemma_sound_prefix(turns: Seq<Turn>, k: int)
    requires
        0 <= k <= turns.len(),
        value_after(turns) is Ok,
    ensures
        value_after(turns.take(k)) is Ok,
{
    if value_after(turns.take(k)) is Err {
        lemma_fault_stays(turns, k);
    }
}

/// A sound run is one in which nobody ends abnormally, and the value it
/// leaves is the number of the writer's passes.
pub proof fn sound_run_counts_writes(turns: Seq<Turn>)
    ensures
        value_after(turns) matches Ok(v) ==> undisturbed(turns) && v == writes(turns),
        undisturbed(turns) && writes(turns) <= i32::MAX ==> value_after(turns) == Ok::<int, Fault>(
            writes(turns) as int,
        ),
    decreases turns.len(),
{
    if turns.len() > 0 {
        let before = turns.drop_last();
        sound_run_counts_writes(before);
        assert(turns.last() == turns[turns.len() - 1]);
        if value_after(turns) is Ok {
            assert forall|i: int| 0 <= i < turns.len() implies #[trigger] turns[i] is Pass by {
                if i < before.len() {
                    assert(before[i] == turns[i]);
                }
            }
        }
        if undisturbed(turns) {
            lemma_undisturbed_before(turns);
        }
    }
}

/// Replays the read/write demonstration under a given order of turns: the
/// value starts at zero, each reader's pass reports it and each pass of the
/// writer raises it by one and reports it. The result holds the lines in the
/// order in which they were emitted, one for each turn, or the fault that ended
/// the run: the poisoned lock where a party ended abnormally, the overflow where
/// the value could not be raised.
pub fn read_write(turns: &Vec<Turn>) -> (r: Result<Vec<String>, Fault>)
    ensures
        match value_after(turns@) {
            Ok(v) => r is Ok && r.unwrap().len() == turns.len() && forall|i: int|
                0 <= i < turns.len() ==> (#[trigger] r.unwrap()[i])@ == line_at(turns@, i),
            Err(f) => r is Err && r.unwrap_err() == f,
        },
{
    let mut lines: Vec<String> = Vec::new();
    let mut value: i32 = 0;
    let mut i: usize = 0;
    proof {
        assert(turns@.take(0).len() == 0);
    }
    while i < turns.len()
        invariant
            i <= turns.len(),
            lines.len() == i,
            value_after(turns@.take(i as int)) == Ok::<int, Fault>(value as int),
            value == writes(turns@.take(i as int)),
            forall|k: int| 0 <= k < i ==> (#[trigger] lines[k])@ == line_at(turns@, k),
        decreases turns.len() - i,
    {
        proof {
            assert(turns@.take(i + 1).drop_last() =~= turns@.take(i as int));
            assert(turns@.take(i + 1).last() == turns@[i as int]);
        }
        match turns[i] {
            Turn::Pass(Party::Reader(_)) => {
                lines.push(read_line(value));
            },
            Turn::Pass(Party::Writer) => {
                if value == i32::MAX {
                    proof {
                        lemma_fault_stays(turns@, i + 1);
                    }
                    return Err(Fault::Overflow);
                }
                value = value + 1;
                lines.push(write_line(value));
            },
            Turn::Abandon(_) => {
                proof {
                    lemma_fault_stays(turns@, i + 1);
                }
                return Err(Fault::Poisoned);
            },
        }
        i = i + 1;
    }
    proof {
        assert(turns@.take(i as int) =~= turns@);
    }
    Ok(lines)
}

/// No read is torn: in a sound run, what a reader reports is the value that
/// the turns before it left, one of the values that the writer committed,
/// never less than zero and never more than the writes of the whole run.
pub proof fn reads_are_committed(turns: Seq<Turn>, i: int)
    requires
        0 <= i < turns.len(),
        turns[i] matches Turn::Pass(Party::Reader(_)),
        value_after(turns) is Ok,
    ensures
        line_at(turns, i) == read_report(found_at(turns, i) as int),
        value_after(turns.take(i)) == Ok::<int, Fault>(found_at(turns, i) as int),
        0 <= found_at(turns, i) <= writes(turns),
{
    lemma_writes_grow(turns, i);
    lemma_sound_prefix(turns, i);
    sound_run_counts_writes(turns.take(i));
}

/// In the demonstration as it is run, where the writer makes `PASSES` writes,
/// every reader reports a value from 0 to 20.
pub proof fn reads_stay_in_range(turns: Seq<Turn>, i: int)
    requires
        0 <= i < turns.len(),
        turns[i] matches Turn::Pass(Party::Reader(_)),
        value_after(turns) is Ok,
        writes(turns) == PASSES,
    ensures
        0 <= found_at(turns, i) <= 20,
        line_at(turns, i) == read_report(found_at(turns, i) as int),
{
    reads_are_committed(turns, i);
}

/// Poison is final: once a party has ended abnormally while it held access,
/// every later turn finds a fault and no value, and the run as a whole ends in
/// a fault. Where the run was sound up to that turn, the fault is the poisoned
/// lock.
pub proof fn abandoned_access_is_final(turns: Seq<Turn>, at: int, later: int)
    requires
        0 <= at < later <= turns.len(),
        turns[at] is Abandon,
    ensures
        value_after(turns.take(later)) is Err,
        value_after(turns) is Err,
        value_after(turns.take(at)) is Ok ==> value_after(turns.take(later)) == Err::<int, Fault>(
            Fault::Poisoned,
        ) && value_after(turns) == Err::<int, Fault>(Fault::Poisoned),
{
    let upto = turns.take(later);
    assert(upto.take(at + 1).drop_last() =~= turns.take(at));
    assert(upto.take(at + 1).last() == turns[at]);
    assert(upto.take(at) =~= turns.take(at));
    if value_after(turns.take(at)) is Err {
        lemma_fault_stays(upto, at);
    } else {
        lemma_fault_stays(upto, at + 1);
    }
    lemma_fault_stays(turns, later);
}

/// A complete run is bounded and sound: with `readers` readers and `passes`
/// passes it has exactly `(readers + 1) * passes` turns, whatever their order,
/// and the value it leaves is `passes`.
pub proof fn complete_run_length(turns: Seq<Turn>, readers: nat, passes: nat)
    requires
        complete(turns, readers, passes),
    ensures
        turns.len() == (readers + 1) * passes,
        passes <= i32::MAX ==> value_after(turns) == Ok::<int, Fault>(passes as int),
{
    lemma_every_pass_has_a_party(turns, readers);
    lemma_readers_alike(turns, readers, passes);
    assert((readers + 1) * passes == readers * passes + passes) by (nonlinear_arith);
    sound_run_counts_writes(turns);
}

} // verus!
