//! # TRANSACTION TABLE
//!
//! The transactions that an entity has opened and that wait for their reply.
//! Each is known by its system bytes, of which no two open transactions
//! share a value, and each has a time by which the reply is due.
use vstd::prelude::*;

verus! {

/// ## PROCEDURE KIND
///
/// The procedures that wait for a reply.
#[derive(Clone, Copy, Debug, PartialEq, Eq, Structural)]
pub enum ProcedureKind {
    /// Waits for Select.rsp, for the time T6.
    Select,
    /// Waits for Deselect.rsp, for the time T6.
    Deselect,
    /// Waits for Linktest.rsp, for the time T6.
    Linktest,
    /// Waits for a reply data message, for the time T3.
    Data,
}

/// ## PENDING REPLY
///
/// One open transaction.
#[derive(Clone, Copy, Debug, PartialEq, Eq, Structural)]
pub struct PendingReply {
    /// The system bytes of the primary message, which the reply repeats.
    pub system: u32,
    /// The procedure that waits.
    pub kind: ProcedureKind,
    /// The time, in milliseconds, after which the transaction has expired.
    pub deadline: u64,
}

impl PendingReply {
    /// Whether the transaction has expired at a given time. It has not while
    /// the time is at or before its deadline.
    pub open spec fn spec_expired(self, now: u64) -> bool {
        self.deadline < now
    }

    /// Whether the transaction has expired at a given time.
    #[verifier::when_used_as_spec(spec_expired)]
    pub fn expired(self, now: u64) -> (r: bool)
        ensures
            r == self.spec_expired(now),
    {
        self.deadline < now
    }
}

/// The place of the first transaction with given system bytes; the number of
/// transactions where there is none.
pub open spec fn index_of(entries: Seq<PendingReply>, system: u32) -> int
    decreases entries.len(),
{
    if entries.len() == 0 {
        0
    } else if entries[0].system == system {
        0
    } else {
        1 + index_of(entries.drop_first(), system)
    }
}

/// Whether a transaction with given system bytes is open.
pub open spec fn is_pending(entries: Seq<PendingReply>, system: u32) -> bool {
    index_of(entries, system) < entries.len()
}

/// Whether no two transactions share their system bytes.
pub open spec fn distinct(entries: Seq<PendingReply>) -> bool {
    forall|i: int, j: int|
        0 <= i < j < entries.len() ==> (#[trigger] entries[i]).system != (
        #[trigger] entries[j]).system
}

/// The place of the first transaction that has expired at a given time; the
/// number of transactions where none has.
pub open spec fn first_expired(entries: Seq<PendingReply>, now: u64) -> int
    decreases entries.len(),
{
    if entries.len() == 0 {
        0
    } else if entries[0].spec_expired(now) {
        0
    } else {
        1 + first_expired(entries.drop_first(), now)
    }
}

/// Whether a time is the earliest deadline among the transactions.
pub open spec fn is_earliest_deadline(entries: Seq<PendingReply>, deadline: u64) -> bool {
    &&& exists|i: int| 0 <= i < entries.len() && (#[trigger] entries[i]).deadline == deadline
    &&& forall|i: int| 0 <= i < entries.len() ==> deadline <= (#[trigger] entries[i]).deadline
}

/// The place that `index_of` gives is that of a transaction with the system
/// bytes, before which none has them, or is the number of transactions.
pub proof fn lemma_index_of(entries: Seq<PendingReply>, system: u32)
    ensures
        0 <= index_of(entries, system) <= entries.len(),
        is_pending(entries, system) ==> entries[index_of(entries, system)].system == system,
        forall|k: int|
            0 <= k < index_of(entries, system) ==> (#[trigger] entries[k]).system != system,
    decreases entries.len(),
{
    if entries.len() > 0 && entries[0].system != system {
        let rest = entries.drop_first();
        lemma_index_of(rest, system);
        assert forall|k: int| 0 <= k < index_of(entries, system) implies (
        #[trigger] entries[k]).system != system by {
            if k > 0 {
                assert(entries[k] == rest[k - 1]);
            }
        }
    }
}

/// A place at which the system bytes stand and before which they do not is
/// the place that `index_of` gives; so is the number of transactions where
/// they stand nowhere.
pub proof fn lemma_index_of_is(entries: Seq<PendingReply>, system: u32, i: int)
    requires
        0 <= i <= entries.len(),
        forall|k: int| 0 <= k < i ==> (#[trigger] entries[k]).system != system,
        i < entries.len() ==> entries[i].system == system,
    ensures
        index_of(entries, system) == i,
    decreases entries.len(),
{
    if entries.len() > 0 {
        if i == 0 {
        } else {
            assert(entries[0].system != system);
            let rest = entries.drop_first();
            assert forall|k: int| 0 <= k < i - 1 implies (#[trigger] rest[k]).system != system by {
                assert(rest[k] == entries[k + 1]);
            }
            lemma_index_of_is(rest, system, i - 1);
        }
    }
}

/// The place that `first_expired` gives is that of a transaction that has
/// expired, before which none has, or is the number of transactions.
pub proof fn lemma_first_expired(entries: Seq<PendingReply>, now: u64)
    ensures
        0 <= first_expired(entries, now) <= entries.len(),
        first_expired(entries, now) < entries.len() ==> entries[first_expired(
            entries,
            now,
        )].spec_expired(now),
        forall|k: int|
            0 <= k < first_expired(entries, now) ==> !(#[trigger] entries[k]).spec_expired(now),
    decreases entries.len(),
{
    if entries.len() > 0 && !entries[0].spec_expired(now) {
        let rest = entries.drop_first();
        lemma_first_expired(rest, now);
        assert forall|k: int| 0 <= k < first_expired(entries, now) implies !(
        #[trigger] entries[k]).spec_expired(now) by {
            if k > 0 {
                assert(entries[k] == rest[k - 1]);
            }
        }
    }
}

/// A place at which a transaction has expired and before which none has is
/// the place that `first_expired` gives; so is the number of transactions
/// where none has expired.
pub proof fn lemma_first_expired_is(entries: Seq<PendingReply>, now: u64, i: int)
    requires
        0 <= i <= entries.len(),
        forall|k: int| 0 <= k < i ==> !(#[trigger] entries[k]).spec_expired(now),
        i < entries.len() ==> entries[i].spec_expired(now),
    ensures
        first_expired(entries, now) == i,
    decreases entries.len(),
{
    if entries.len() > 0 {
        if i == 0 {
        } else {
            assert(!entries[0].spec_expired(now));
            let rest = entries.drop_first();
            assert forall|k: int| 0 <= k < i - 1 implies !(#[trigger] rest[k]).spec_expired(
                now,
            ) by {
                assert(rest[k] == entries[k + 1]);
            }
            lemma_first_expired_is(rest, now, i - 1);
        }
    }
}

/// While the time is at or before the deadline of every transaction, none
/// has expired.
pub proof fn lemma_not_expired_before_deadline(entries: Seq<PendingReply>, now: u64)
    requires
        forall|i: int| 0 <= i < entries.len() ==> now <= (#[trigger] entries[i]).deadline,
    ensures
        first_expired(entries, now) == entries.len(),
        forall|i: int| 0 <= i < entries.len() ==> !(#[trigger] entries[i]).spec_expired(now),
{
    lemma_first_expired_is(entries, now, entries.len() as int);
}

/// Among distinct transactions, taking one out leaves its system bytes open
/// no more, and leaves every other transaction as open as it was.
pub proof fn lemma_remove(entries: Seq<PendingReply>, i: int, system: u32)
    requires
        distinct(entries),
        0 <= i < entries.len(),
    ensures
        distinct(entries.remove(i)),
        !is_pending(entries.remove(i), entries[i].system),
        system != entries[i].system ==> is_pending(entries.remove(i), system) == is_pending(
            entries,
            system,
        ),
{
    let rest = entries.remove(i);
    assert forall|a: int, b: int| 0 <= a < b < rest.len() implies (#[trigger] rest[a]).system != (
    #[trigger] rest[b]).system by {
        let a0 = if a < i {
            a
        } else {
            a + 1
        };
        let b0 = if b < i {
            b
        } else {
            b + 1
        };
        assert(rest[a] == entries[a0]);
        assert(rest[b] == entries[b0]);
    }
    assert forall|k: int| 0 <= k < rest.len() implies (#[trigger] rest[k]).system
        != entries[i].system by {
        let k0 = if k < i {
            k
        } else {
            k + 1
        };
        assert(rest[k] == entries[k0]);
    }
    lemma_index_of_is(rest, entries[i].system, rest.len() as int);
    if system != entries[i].system {
        lemma_index_of(entries, system);
        lemma_index_of(rest, system);
        let p = index_of(entries, system);
        let q = index_of(rest, system);
        if p < entries.len() {
            let p0 = if p < i {
                p
            } else {
                p - 1
            };
            assert(rest[p0] == entries[p]);
            if q >= rest.len() {
                assert(rest[p0].system != system);
            }
        }
        if q < rest.len() {
            let q0 = if q < i {
                q
            } else {
                q + 1
            };
            assert(rest[q] == entries[q0]);
            if p >= entries.len() {
                assert(entries[q0].system != system);
            }
        }
    }
}

/// Among distinct transactions, opening one whose system bytes are not open
/// leaves them distinct, opens those system bytes, and leaves every other
/// transaction as open as it was.
pub proof fn lemma_push(entries: Seq<PendingReply>, entry: PendingReply, system: u32)
    requires
        distinct(entries),
        !is_pending(entries, entry.system),
    ensures
        distinct(entries.push(entry)),
        is_pending(entries.push(entry), entry.system),
        index_of(entries.push(entry), entry.system) == entries.len(),
        system != entry.system ==> is_pending(entries.push(entry), system) == is_pending(
            entries,
            system,
        ),
        system != entry.system ==> index_of(entries.push(entry), system) == if is_pending(
            entries,
            system,
        ) {
            index_of(entries, system)
        } else {
            entries.len() as int + 1
        },
{
    let more = entries.push(entry);
    lemma_index_of(entries, entry.system);
    assert forall|a: int, b: int| 0 <= a < b < more.len() implies (#[trigger] more[a]).system != (
    #[trigger] more[b]).system by {
        if b == entries.len() {
            assert(more[a] == entries[a]);
        } else {
            assert(more[a] == entries[a]);
            assert(more[b] == entries[b]);
        }
    }
    assert forall|k: int| 0 <= k < entries.len() implies (#[trigger] more[k]).system
        != entry.system by {
        assert(more[k] == entries[k]);
    }
    lemma_index_of_is(more, entry.system, entries.len() as int);
    if system != entry.system {
        lemma_index_of(entries, system);
        let p = index_of(entries, system);
        if p < entries.len() {
            assert forall|k: int| 0 <= k < p implies (#[trigger] more[k]).system != system by {
                assert(more[k] == entries[k]);
            }
            assert(more[p] == entries[p]);
            lemma_index_of_is(more, system, p);
        } else {
            assert forall|k: int| 0 <= k < more.len() implies (#[trigger] more[k]).system
                != system by {
                if k < entries.len() {
                    assert(more[k] == entries[k]);
                }
            }
            lemma_index_of_is(more, system, more.len() as int);
        }
    }
}

/// No transaction is open where there are none.
pub proof fn lemma_empty(system: u32)
    ensures
        distinct(Seq::<PendingReply>::empty()),
        !is_pending(Seq::<PendingReply>::empty(), system),
{
}

/// ## TRANSACTION TABLE
///
/// The open transactions, in the order in which they were opened.
#[derive(Debug)]
pub struct TransactionTable {
    entries: Vec<PendingReply>,
}

impl View for TransactionTable {
    type V = Seq<PendingReply>;

    closed spec fn view(&self) -> Seq<PendingReply> {
        self.entries@
    }
}

impl TransactionTable {
    /// Whether the table is well formed: no two of its transactions share
    /// their system bytes.
    pub open spec fn wf(&self) -> bool {
        distinct(self@)
    }

    /// The table without transactions.
    pub fn new() -> (r: TransactionTable)
        ensures
            r@ == Seq::<PendingReply>::empty(),
            r.wf(),
    {
        TransactionTable { entries: Vec::new() }
    }

    /// The number of open transactions.
    pub fn len(&self) -> (r: usize)
        ensures
            r == self@.len(),
    {
        self.entries.len()
    }

    /// The place of the first transaction with given system bytes; the
    /// number of transactions where there is none.
    pub fn position(&self, system: u32) -> (r: usize)
        ensures
            r == index_of(self@, system),
            r <= self@.len(),
    {
        let mut i: usize = 0;
        while i < self.entries.len()
            invariant
                i <= self.entries@.len(),
                forall|k: int| 0 <= k < i ==> (#[trigger] self.entries@[k]).system != system,
            decreases self.entries@.len() - i,
        {
            if self.entries[i].system == system {
                proof {
                    lemma_index_of_is(self@, system, i as int);
                }
                return i;
            }
            i = i + 1;
        }
        proof {
            lemma_index_of_is(self@, system, i as int);
        }
        i
    }

    /// The open transaction with given system bytes, if there is one.
    pub fn find(&self, system: u32) -> (r: Option<PendingReply>)
        ensures
            r == if is_pending(self@, system) {
                Some(self@[index_of(self@, system)])
            } else {
                None
            },
    {
        let i = self.position(system);
        if i < self.entries.len() {
            Some(self.entries[i])
        } else {
            None
        }
    }

    /// Opens a transaction, unless one with its system bytes is open. Says
    /// whether it did.
    pub fn insert(&mut self, entry: PendingReply) -> (r: bool)
        requires
            old(self).wf(),
        ensures
            final(self).wf(),
            r == !is_pending(old(self)@, entry.system),
            final(self)@ == if r {
                old(self)@.push(entry)
            } else {
                old(self)@
            },
    {
        let i = self.position(entry.system);
        if i < self.entries.len() {
            false
        } else {
            proof {
                lemma_push(self@, entry, entry.system);
            }
            self.entries.push(entry);
            true
        }
    }

    /// Takes out the transaction with given system bytes, if one is open.
    pub fn remove(&mut self, system: u32) -> (r: Option<PendingReply>)
        requires
            old(self).wf(),
        ensures
            final(self).wf(),
            r == if is_pending(old(self)@, system) {
                Some(old(self)@[index_of(old(self)@, system)])
            } else {
                None
            },
            final(self)@ == if is_pending(old(self)@, system) {
                old(self)@.remove(index_of(old(self)@, system))
            } else {
                old(self)@
            },
    {
        let i = self.position(system);
        if i < self.entries.len() {
            proof {
                lemma_remove(self@, i as int, system);
            }
            let entry = self.entries.remove(i);
            Some(entry)
        } else {
            None
        }
    }

    /// The first transaction, in the order of opening, that has expired at a
    /// given time, if any has.
    pub fn expired(&self, now: u64) -> (r: Option<PendingReply>)
        ensures
            r == if first_expired(self@, now) < self@.len() {
                Some(self@[first_expired(self@, now)])
            } else {
                None
            },
    {
        let mut i: usize = 0;
        while i < self.entries.len()
            invariant
                i <= self.entries@.len(),
                forall|k: int| 0 <= k < i ==> !(#[trigger] self.entries@[k]).spec_expired(now),
            decreases self.entries@.len() - i,
        {
            if self.entries[i].expired(now) {
                proof {
                    lemma_first_expired_is(self@, now, i as int);
                }
                return Some(self.entries[i]);
            }
            i = i + 1;
        }
        proof {
            lemma_first_expired_is(self@, now, i as int);
        }
        None
    }

    /// The earliest deadline among the open transactions: the time until
    /// which nothing expires. None where no transaction is open.
    pub fn next_deadline(&self) -> (r: Option<u64>)
        ensures
            match r {
                Some(deadline) => is_earliest_deadline(self@, deadline),
                None => self@.len() == 0,
            },
    {
        if self.entries.len() == 0 {
            return None;
        }
        let mut earliest: u64 = self.entries[0].deadline;
        let mut i: usize = 1;
        while i < self.entries.len()
            invariant
                1 <= i <= self.entries@.len(),
                exists|k: int| 0 <= k < i && (#[trigger] self.entries@[k]).deadline == earliest,
                forall|k: int| 0 <= k < i ==> earliest <= (#[trigger] self.entries@[k]).deadline,
            decreases self.entries@.len() - i,
        {
            if self.entries[i].deadline < earliest {
                earliest = self.entries[i].deadline;
            }
            i = i + 1;
        }
        Some(earliest)
    }

    /// Takes out every transaction, in the order of opening.
    pub fn take_all(&mut self) -> (r: Vec<PendingReply>)
        ensures
            r@ == old(self)@,
            final(self)@ == Seq::<PendingReply>::empty(),
            final(self).wf(),
    {
        let mut taken: Vec<PendingReply> = Vec::new();
        let mut i: usize = 0;
        while i < self.entries.len()
            invariant
                i <= self.entries@.len(),
                self.entries@ == old(self).entries@,
                taken@ == self.entries@.subrange(0, i as int),
            decreases self.entries@.len() - i,
        {
            taken.push(self.entries[i]);
            assert(self.entries@.subrange(0, i + 1) =~= self.entries@.subrange(0, i as int).push(
                self.entries@[i as int],
            ));
            i = i + 1;
        }
        assert(self.entries@.subrange(0, i as int) =~= self.entries@);
        self.entries = Vec::new();
        taken
    }
}

} // verus!
