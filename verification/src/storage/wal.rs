//! The write-ahead log: the ordered record of committed mutations, read only
//! when a region is recovered.

use vstd::prelude::*;
use crate::storage::error::WalError;
use crate::storage::memtable::{Entry, SequenceNumber};

verus! {

/// The entries of `log` with a sequence number above `from`, in the order of
/// the log.
pub open spec fn entries_after(log: Seq<Entry>, from: SequenceNumber) -> Seq<Entry>
    decreases log.len(),
{
    if log.len() == 0 {
        Seq::empty()
    } else if log.last().sequence > from {
        entries_after(log.drop_last(), from).push(log.last())
    } else {
        entries_after(log.drop_last(), from)
    }
}

/// A store that keeps a log of mutations.
pub trait LogStore: Sized {
    /// What a replay from the start returns: the mutations that the store
    /// holds, in the order in which they were appended.
    spec fn log(&self) -> Seq<Entry>;

    /// Whether the store keeps what is appended to it.
    spec fn durable(&self) -> bool;

    /// Whether the store has room for the mutations `batch`.
    spec fn accepts(&self, batch: Seq<Entry>) -> bool;

    /// Whether the store is in order. Every store that its constructors hand
    /// out is, and appending keeps it so.
    spec fn inv(&self) -> bool;

    /// Appends the mutations of one batch, all of them or none. What had
    /// room together with the batch has room after it, and a batch that is
    /// refused takes no room.
    fn append(&mut self, batch: &Vec<Entry>) -> (r: Result<(), WalError>)
        requires
            old(self).inv(),
        ensures
            final(self).inv(),
            final(self).durable() == old(self).durable(),
            r is Ok <==> old(self).accepts(batch@),
            match r {
                Ok(()) => {
                    &&& final(self).log() == if old(self).durable() {
                        old(self).log() + batch@
                    } else {
                        old(self).log()
                    }
                    &&& forall|next: Seq<Entry>|
                        old(self).accepts(batch@ + next) ==> #[trigger] final(self).accepts(next)
                },
                Err(_) => {
                    &&& final(self).log() == old(self).log()
                    &&& forall|next: Seq<Entry>|
                        #[trigger] final(self).accepts(next) == old(self).accepts(next)
                },
            },
    ;

    /// The mutations with a sequence number above `from`, in the order in
    /// which they were appended.
    fn replay(&self, from: SequenceNumber) -> (entries: Vec<Entry>)
        requires
            self.inv(),
        ensures
            entries@ == entries_after(self.log(), from),
    ;
}

/// A log that is kept in memory, with room for a fixed number of mutations.
#[derive(Clone, Debug, PartialEq, Eq)]
pub struct MemoryLogStore {
    pub entries: Vec<Entry>,
    pub capacity: usize,
}

impl MemoryLogStore {
    /// An empty log with room for any number of mutations.
    pub fn new() -> (s: MemoryLogStore)
        ensures
            s.entries@.len() == 0,
            s.capacity == usize::MAX,
    {
        MemoryLogStore { entries: Vec::new(), capacity: usize::MAX }
    }

    /// An empty log with room for `capacity` mutations.
    pub fn with_capacity(capacity: usize) -> (s: MemoryLogStore)
        ensures
            s.entries@.len() == 0,
            s.capacity == capacity,
    {
        MemoryLogStore { entries: Vec::new(), capacity }
    }
}

impl LogStore for MemoryLogStore {
    open spec fn log(&self) -> Seq<Entry> {
        self.entries@
    }

    open spec fn durable(&self) -> bool {
        true
    }

    open spec fn accepts(&self, batch: Seq<Entry>) -> bool {
        self.entries@.len() + batch.len() <= self.capacity
    }

    open spec fn inv(&self) -> bool {
        true
    }

    /// Fails with [`WalError::Full`] exactly when the batch does not fit.
    fn append(&mut self, batch: &Vec<Entry>) -> (r: Result<(), WalError>)
        ensures
            final(self).capacity == old(self).capacity,
    {
        if batch.len() > self.capacity || self.entries.len() > self.capacity - batch.len() {
            return Err(WalError::Full);
        }
        let ghost before = self.entries@;
        let mut i: usize = 0;
        while i < batch.len()
            invariant
                i <= batch@.len(),
                self.capacity == old(self).capacity,
                self.entries@ == before + batch@.take(i as int),
            decreases batch@.len() - i,
        {
            self.entries.push(batch[i]);
            proof {
                assert(batch@.take(i + 1) =~= batch@.take(i as int).push(batch@[i as int]));
                assert(self.entries@ =~= before + batch@.take(i + 1));
            }
            i += 1;
        }
        proof {
            assert(batch@.take(batch@.len() as int) =~= batch@);
        }
        Ok(())
    }

    fn replay(&self, from: SequenceNumber) -> (entries: Vec<Entry>) {
        let mut entries: Vec<Entry> = Vec::new();
        let mut i: usize = 0;
        while i < self.entries.len()
            invariant
                i <= self.entries@.len(),
                entries@ == entries_after(self.entries@.take(i as int), from),
            decreases self.entries@.len() - i,
        {
            proof {
                let upto = self.entries@.take(i + 1);
                assert(upto.drop_last() =~= self.entries@.take(i as int));
                assert(upto.last() == self.entries@[i as int]);
            }
            if self.entries[i].sequence > from {
                entries.push(self.entries[i]);
            }
            i += 1;
        }
        proof {
            assert(self.entries@.take(self.entries@.len() as int) =~= self.entries@);
        }
        entries
    }
}

/// A log that keeps nothing: every append succeeds and is forgotten.
#[derive(Clone, Copy, Debug, PartialEq, Eq)]
pub struct NoopLogStore;

impl LogStore for NoopLogStore {
    open spec fn log(&self) -> Seq<Entry> {
        Seq::empty()
    }

    open spec fn durable(&self) -> bool {
        false
    }

    open spec fn accepts(&self, batch: Seq<Entry>) -> bool {
        true
    }

    open spec fn inv(&self) -> bool {
        true
    }

    fn append(&mut self, batch: &Vec<Entry>) -> (r: Result<(), WalError>) {
        Ok(())
    }

    fn replay(&self, from: SequenceNumber) -> (entries: Vec<Entry>) {
        Vec::new()
    }
}

/// In a log whose sequence numbers increase, the mutations above `from` are
/// those behind the first `n`, where the first `n` are the ones at or below
/// `from`.
pub proof fn lemma_entries_after_is_suffix(log: Seq<Entry>, from: SequenceNumber, n: int)
    requires
        0 <= n <= log.len(),
        forall|i: int| 0 <= i < n ==> (#[trigger] log[i]).sequence <= from,
        forall|i: int| n <= i < log.len() ==> (#[trigger] log[i]).sequence > from,
    ensures
        entries_after(log, from) == log.skip(n),
    decreases log.len(),
{
    if log.len() == 0 {
        assert(log.skip(n) =~= Seq::<Entry>::empty());
    } else {
        let front = log.drop_last();
        assert(log.last() == log[log.len() - 1]);
        if n == log.len() {
            assert forall|i: int| 0 <= i < n - 1 implies (#[trigger] front[i]).sequence <= from by {
                assert(front[i] == log[i]);
            }
            lemma_entries_after_is_suffix(front, from, n - 1);
            assert(front.skip(n - 1) =~= Seq::<Entry>::empty());
            assert(log.skip(n) =~= Seq::<Entry>::empty());
        } else {
            assert forall|i: int| 0 <= i < n implies (#[trigger] front[i]).sequence <= from by {
                assert(front[i] == log[i]);
            }
            assert forall|i: int| n <= i < front.len() implies (#[trigger] front[i]).sequence
                > from by {
                assert(front[i] == log[i]);
            }
            lemma_entries_after_is_suffix(front, from, n);
            assert(log.skip(n) =~= front.skip(n).push(log.last()));
        }
    }
}

/// Replaying a log from the same sequence number twice, into two fresh
/// memtables, gives both the same content, and so the same view to every
/// reader.
pub proof fn lemma_replay_is_repeatable<S: LogStore>(
    store: S,
    from: SequenceNumber,
    first: Seq<Entry>,
    second: Seq<Entry>,
    ceiling: SequenceNumber,
)
    requires
        first == entries_after(store.log(), from),
        second == entries_after(store.log(), from),
    ensures
        first == second,
        crate::storage::memtable::snapshot_map(first, ceiling) == crate::storage::memtable::snapshot_map(
            second,
            ceiling,
        ),
{
}

} // verus!
