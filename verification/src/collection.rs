//! The shared buffer of loaded records and the batching reader that fills
//! it.

use vstd::prelude::*;
use crate::history::History;

verus! {

/// Number of records that the reader collects before it hands them to the
/// buffer, and the most that one read of the buffer copies out.
pub const BATCH_SIZE: usize = 100;

/// The records loaded so far, in the order in which the store produced
/// them, and a flag that tells whether loading has finished.
///
/// The buffer only grows, and it stops growing once it is filled.
pub struct HistoryCollection {
    collection: Vec<History>,
    filled: bool,
}

/// A copy of a stretch of the buffer, taken in one look together with the
/// buffer's length and completion flag at that moment.
pub struct BufferSlice {
    start: usize,
    records: Vec<History>,
    length: usize,
    filled: bool,
}

impl BufferSlice {
    #[verifier::type_invariant]
    spec fn in_bounds(&self) -> bool {
        self.start + self.records@.len() <= self.length
    }

    /// Index in the buffer of the first copied record.
    pub closed spec fn start(&self) -> nat {
        self.start as nat
    }

    /// The copied records.
    pub closed spec fn records(&self) -> Seq<History> {
        self.records@
    }

    /// Length of the buffer when the copy was taken.
    pub closed spec fn length(&self) -> nat {
        self.length as nat
    }

    /// Whether the buffer was complete when the copy was taken.
    pub closed spec fn filled(&self) -> bool {
        self.filled
    }

    /// Index in the buffer behind the last copied record.
    pub open spec fn end(&self) -> nat {
        self.start() + self.records().len()
    }

    /// Index in the buffer of the first copied record.
    pub fn first_index(&self) -> (index: usize)
        ensures
            index == self.start(),
    {
        self.start
    }

    /// Index in the buffer behind the last copied record.
    pub fn end_index(&self) -> (index: usize)
        ensures
            index == self.end(),
            index <= self.length(),
    {
        proof {
            use_type_invariant(self);
        }
        self.start + self.records.len()
    }

    /// Length of the buffer when the copy was taken.
    pub fn buffer_len(&self) -> (len: usize)
        ensures
            len == self.length(),
    {
        self.length
    }

    /// Whether the buffer was complete when the copy was taken.
    pub fn buffer_filled(&self) -> (filled: bool)
        ensures
            filled == self.filled(),
    {
        self.filled
    }

    /// The copied records, in buffer order.
    pub fn items(&self) -> (items: &Vec<History>)
        ensures
            items@ == self.records(),
    {
        &self.records
    }
}

impl HistoryCollection {
    /// The records in arrival order.
    pub closed spec fn records(&self) -> Seq<History> {
        self.collection@
    }

    /// Whether loading has finished.
    pub closed spec fn is_filled(&self) -> bool {
        self.filled
    }

    /// What a read of at most `limit` records from `cursor` on copies out:
    /// the records from the cursor up to the limit or the end of the
    /// buffer, whichever comes first. A cursor behind the end reads
    /// nothing.
    pub open spec fn window(&self, cursor: nat, limit: nat) -> Seq<History> {
        let len = self.records().len();
        let from = if cursor <= len { cursor } else { len };
        let to = if from + limit <= len { from + limit } else { len };
        self.records().subrange(from as int, to as int)
    }

    /// The buffer is a later state of `earlier`: every record of `earlier`
    /// is still at its index, a set flag is still set, and a buffer that
    /// was filled has gained nothing.
    pub open spec fn extends(&self, earlier: &HistoryCollection) -> bool {
        &&& earlier.records().is_prefix_of(self.records())
        &&& earlier.is_filled() ==> self.is_filled() && self.records() == earlier.records()
    }

    /// An empty buffer that is still being loaded.
    pub fn new() -> (buffer: Self)
        ensures
            buffer.records() == Seq::<History>::empty(),
            !buffer.is_filled(),
    {
        HistoryCollection { collection: Vec::new(), filled: false }
    }

    /// Adds a batch behind the records already held, keeping its order.
    /// A filled buffer takes nothing more: the batch is dropped and the
    /// result is `false`.
    pub fn append(&mut self, batch: Vec<History>) -> (accepted: bool)
        ensures
            accepted == !old(self).is_filled(),
            accepted ==> final(self).records() == old(self).records() + batch@,
            !accepted ==> final(self).records() == old(self).records(),
            final(self).is_filled() == old(self).is_filled(),
            final(self).extends(old(self)),
    {
        if self.filled {
            return false;
        }
        let mut batch = batch;
        self.collection.append(&mut batch);
        true
    }

    /// Marks loading as finished. The records stay as they are.
    pub fn mark_filled(&mut self)
        ensures
            final(self).is_filled(),
            final(self).records() == old(self).records(),
            final(self).extends(old(self)),
    {
        self.filled = true;
    }

    /// Length and completion flag, read together.
    pub fn snapshot(&self) -> (state: (usize, bool))
        ensures
            state.0 == self.records().len(),
            state.1 == self.is_filled(),
    {
        (self.collection.len(), self.filled)
    }

    /// The record at `index`.
    pub fn at(&self, index: usize) -> (record: &History)
        requires
            index < self.records().len(),
        ensures
            *record == self.records()[index as int],
    {
        &self.collection[index]
    }

    /// Copies out at most `limit` records from `cursor` on, together with
    /// the length and the completion flag that held at that moment.
    pub fn read_from(&self, cursor: usize, limit: usize) -> (slice: BufferSlice)
        ensures
            slice.records() == self.window(cursor as nat, limit as nat),
            slice.start() == if cursor <= self.records().len() {
                cursor as nat
            } else {
                self.records().len()
            },
            slice.length() == self.records().len(),
            slice.filled() == self.is_filled(),
    {
        let len: usize = self.collection.len();
        let from: usize = if cursor <= len { cursor } else { len };
        let to: usize = if limit <= len - from { from + limit } else { len };
        let mut records: Vec<History> = Vec::new();
        let mut i: usize = from;
        while i < to
            invariant
                from <= i <= to <= len,
                len == self.collection@.len(),
                records@ == self.collection@.subrange(from as int, i as int),
            decreases to - i,
        {
            records.push(self.collection[i].clone());
            i += 1;
        }
        BufferSlice { start: from, records, length: len, filled: self.filled }
    }
}

/// Collects rows into batches on their way into the buffer, so that the
/// buffer is touched once per batch and not once per row.
pub struct StoreReader {
    pending: Vec<History>,
}

impl StoreReader {
    /// The rows taken in and not yet handed to the buffer, oldest first.
    pub closed spec fn pending(&self) -> Seq<History> {
        self.pending@
    }

    /// A reader that holds no rows.
    pub fn new() -> (reader: Self)
        ensures
            reader.pending() == Seq::<History>::empty(),
    {
        StoreReader { pending: Vec::new() }
    }

    /// Takes in the next row. The result tells whether a full batch is
    /// waiting to be flushed.
    pub fn add(&mut self, record: History) -> (full: bool)
        ensures
            final(self).pending() == old(self).pending().push(record),
            full == (final(self).pending().len() >= BATCH_SIZE),
    {
        self.pending.push(record);
        self.pending.len() >= BATCH_SIZE
    }

    /// Hands the waiting rows to the buffer in the order in which they
    /// came, and holds none afterwards.
    pub fn flush(&mut self, buffer: &mut HistoryCollection) -> (accepted: bool)
        ensures
            final(self).pending() == Seq::<History>::empty(),
            accepted == !old(buffer).is_filled(),
            accepted ==> final(buffer).records() == old(buffer).records() + old(self).pending(),
            !accepted ==> final(buffer).records() == old(buffer).records(),
            final(buffer).is_filled() == old(buffer).is_filled(),
            final(buffer).extends(old(buffer)),
    {
        let mut batch: Vec<History> = Vec::new();
        std::mem::swap(&mut self.pending, &mut batch);
        buffer.append(batch)
    }

    /// Ends loading: hands over what is still waiting and marks the buffer
    /// as filled, whether or not any row was ever taken in.
    pub fn finish(self, buffer: &mut HistoryCollection)
        ensures
            final(buffer).is_filled(),
            !old(buffer).is_filled() ==> final(buffer).records() == old(buffer).records()
                + self.pending(),
            old(buffer).is_filled() ==> final(buffer).records() == old(buffer).records(),
            final(buffer).extends(old(buffer)),
    {
        let mut reader = self;
        reader.flush(buffer);
        buffer.mark_filled();
    }
}

/// Being a later state is reflexive and transitive, so whatever was read
/// at an index stays there through any run of appends and the final mark,
/// and the completion flag is set at most once.
pub proof fn lemma_extends_is_an_order(
    first: HistoryCollection,
    second: HistoryCollection,
    third: HistoryCollection,
)
    requires
        second.extends(&first),
        third.extends(&second),
    ensures
        first.extends(&first),
        third.extends(&first),
        first.records().len() <= third.records().len(),
        forall|i: int| 0 <= i < first.records().len() ==> third.records()[i] == first.records()[i],
{
}

} // verus!
