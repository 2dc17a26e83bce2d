//! The state a shared signal queue guards, and the decisions its
//! waiters make.
//!
//! In the running system the record sequence sits behind a mutex with
//! a condition variable beside it: producers append under the lock and
//! notify, a consumer waits until data appears or a timeout elapses.
//! The lock, the blocking and the clock stay outside this crate; what
//! is verified here is the guarded state itself — appends keep every
//! record, in order — and the verdict a waiter reaches after a wakeup,
//! which a spurious wakeup cannot turn into a false release.

use vstd::prelude::*;
use vstd::seq_lib::lemma_multiset_commutative;

use crate::interleave::is_serialization;
use crate::interleave::lemma_serialization_preserves_contents;
use crate::interleave::total_contents;
use crate::interleave::total_len;

verus! {

/// The mutex-guarded state of a shared signal queue: an ordered
/// sequence of opaque records. Exactly one thread holds it at a time;
/// every mutation happens through its methods while it is held.
pub struct SharedSignalQueue {
    records: Vec<String>,
}

/// What a waiter concludes after waking up under the lock.
#[derive(Clone, Copy, Debug, PartialEq, Eq, Structural)]
pub enum WaitVerdict {
    /// Records are there: stop waiting and consume them.
    Proceed,
    /// The wakeup was spurious or the data already taken: wait again.
    KeepWaiting,
    /// The bounded wait elapsed without data: report the timeout. Not
    /// an error — a normal outcome the caller branches on.
    TimedOut,
}

/// The verdict a waiter must reach when it holds the lock again after
/// a wakeup: a timeout is reported as such, otherwise the wait ends
/// exactly when the queue is non-empty.
pub open spec fn wait_verdict(len: nat, timed_out: bool) -> WaitVerdict {
    if timed_out {
        WaitVerdict::TimedOut
    } else if len > 0 {
        WaitVerdict::Proceed
    } else {
        WaitVerdict::KeepWaiting
    }
}

impl SharedSignalQueue {
    /// The guarded record sequence, oldest first.
    pub closed spec fn records(&self) -> Seq<String> {
        self.records@
    }

    /// An empty queue.
    pub fn new() -> (q: Self)
        ensures
            q.records() == Seq::<String>::empty(),
    {
        SharedSignalQueue { records: Vec::new() }
    }

    /// Number of records currently queued.
    pub fn len(&self) -> (n: usize)
        ensures
            n == self.records().len(),
    {
        self.records.len()
    }

    /// Whether the wait predicate fails: no record queued.
    pub fn is_empty(&self) -> (r: bool)
        ensures
            r == (self.records().len() == 0),
    {
        self.records.len() == 0
    }

    /// Appends one record behind all earlier ones. Called only while
    /// the lock is held, so appends never interleave partial writes.
    pub fn append(&mut self, record: String)
        ensures
            final(self).records() == old(self).records().push(record),
    {
        self.records.push(record);
    }

    /// Appends a producer's whole batch, oldest first.
    pub fn append_all(&mut self, records: Vec<String>)
        ensures
            final(self).records() == old(self).records() + records@,
    {
        let n = records.len();
        let mut i: usize = 0;
        let mut rest = records;
        proof {
            assert(old(self).records() + rest@.take(0) =~= old(self).records());
        }
        while i < n
            invariant
                n == rest@.len(),
                i <= n,
                self.records() == old(self).records() + rest@.take(i as int),
            decreases n - i,
        {
            let record = rest[i].clone();
            proof {
                assert(rest@[i as int]@ == record@);
                assert((old(self).records() + rest@.take(i as int)).push(rest@[i as int])
                    =~= old(self).records() + rest@.take(i as int + 1));
            }
            self.append(record);
            i = i + 1;
        }
        proof {
            assert(old(self).records() + rest@.take(n as int) =~= old(self).records() + rest@);
        }
    }

    /// Hands every queued record to the consumer and leaves the queue
    /// empty, ready for the next round of waiting.
    pub fn take_all(&mut self) -> (taken: Vec<String>)
        ensures
            taken@ == old(self).records(),
            final(self).records() == Seq::<String>::empty(),
    {
        let mut taken: Vec<String> = Vec::new();
        core::mem::swap(&mut taken, &mut self.records);
        taken
    }

    /// The verdict after a wakeup: called with the lock re-acquired,
    /// with `timed_out` true when a bounded wait elapsed first.
    pub fn assess_wakeup(&self, timed_out: bool) -> (v: WaitVerdict)
        ensures
            v == wait_verdict(self.records().len(), timed_out),
    {
        if timed_out {
            WaitVerdict::TimedOut
        } else if self.records.len() > 0 {
            WaitVerdict::Proceed
        } else {
            WaitVerdict::KeepWaiting
        }
    }
}

/// A waiter that follows the verdict is released only with the
/// predicate true: it proceeds exactly when records are queued and no
/// timeout cut the wait short, so a spurious wakeup of an empty queue
/// sends it back to waiting, and an elapsed bound is always reported.
pub proof fn lemma_wakeup_needs_data(len: nat, timed_out: bool)
    ensures
        wait_verdict(len, timed_out) is Proceed <==> (!timed_out && len > 0),
        wait_verdict(len, timed_out) is TimedOut <==> timed_out,
        wait_verdict(len, timed_out) is KeepWaiting <==> (!timed_out && len == 0),
{
}

/// What a serialized run of appends leaves behind: each append pushes
/// one record onto what is there.
pub open spec fn apply_appends(q: Seq<String>, records: Seq<String>) -> Seq<String>
    decreases records.len(),
{
    if records.len() == 0 {
        q
    } else {
        apply_appends(q.push(records.first()), records.drop_first())
    }
}

/// A run of appends is concatenation: the records land behind the
/// existing ones, in the order they were appended.
pub proof fn lemma_apply_appends_is_concat(q: Seq<String>, records: Seq<String>)
    ensures
        apply_appends(q, records) == q + records,
    decreases records.len(),
{
    if records.len() == 0 {
        assert(q + records =~= q);
    } else {
        lemma_apply_appends_is_concat(q.push(records.first()), records.drop_first());
        assert(q.push(records.first()) + records.drop_first() =~= q + records);
    }
}

/// Mutual exclusion pays off: any number of producers' appends,
/// serialized by the lock into whichever order it admitted them, leave
/// a queue holding exactly the records they all brought — none lost,
/// none duplicated — and the queue grows by exactly their count.
pub proof fn lemma_no_append_lost(
    init: Seq<String>,
    producers: Seq<Seq<String>>,
    s: Seq<String>,
)
    requires
        is_serialization(producers, s),
    ensures
        apply_appends(init, s).len() == init.len() + total_len(producers),
        apply_appends(init, s).to_multiset() =~= init.to_multiset().add(
            total_contents(producers),
        ),
{
    broadcast use vstd::multiset::group_multiset_axioms;

    lemma_apply_appends_is_concat(init, s);
    lemma_serialization_preserves_contents(producers, s);
    lemma_multiset_commutative(init, s);
}

} // verus!
