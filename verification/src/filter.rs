//! The scope filter: which records of the buffer reach the selector.

use vstd::prelude::*;
use vstd::hash_set::StringHashSet;
use crate::collection::{BufferSlice, HistoryCollection, BATCH_SIZE};
use crate::history::History;
use crate::location::Location;
use crate::stream::{
    in_scope, lemma_stream_concat, lemma_stream_is_no_longer, seen_after, stream, AppState,
    FilterSettings,
};

verus! {

/// Decides whether `entry` belongs to `location`.
pub fn filter_entry(location: &Location, app_state: &AppState, entry: &History) -> (keep: bool)
    ensures
        keep == in_scope(*location, *app_state, *entry),
{
    match location {
        Location::Session => entry.session == app_state.session && entry.host == app_state.machine,
        Location::Directory => entry.dir == app_state.dir && entry.host == app_state.machine,
        Location::Machine => entry.host == app_state.machine,
        Location::Everywhere => true,
    }
}

/// What one step of a pass hands downstream.
pub struct Emission {
    /// The records let through by this step, in buffer order.
    pub records: Vec<History>,
    /// Whether the pass has ended: nothing will follow.
    pub finished: bool,
}

/// One run of the filter over the buffer, for one choice of scope and
/// grouping. It remembers how far it has read and which command texts it
/// has let through, and it never looks at a record twice.
pub struct FilterPass {
    settings: FilterSettings,
    cursor: usize,
    seen: StringHashSet,
    halted: bool,
}

impl FilterPass {
    /// Scope, grouping and environment of this pass.
    pub closed spec fn settings(&self) -> FilterSettings {
        self.settings
    }

    /// Index of the next record of the buffer that the pass has not looked
    /// at.
    pub closed spec fn cursor(&self) -> nat {
        self.cursor as nat
    }

    /// The command texts let through so far.
    pub closed spec fn seen(&self) -> Set<Seq<char>> {
        self.seen@
    }

    /// Whether the pass has ended, by cancellation or at the end of a
    /// filled buffer.
    pub closed spec fn is_halted(&self) -> bool {
        self.halted
    }

    /// Cursor and remembered command texts are those of `other`.
    pub open spec fn same_progress(&self, other: &FilterPass) -> bool {
        &&& self.cursor() == other.cursor()
        &&& self.seen() == other.seen()
    }

    /// What the pass lets through of `records`, in its present state.
    pub open spec fn lets_through(&self, records: Seq<History>) -> Seq<History> {
        stream(self.settings(), self.seen(), records)
    }

    /// What the pass remembers after `records`, in its present state.
    pub open spec fn remembers_after(&self, records: Seq<History>) -> Set<Seq<char>> {
        seen_after(self.settings(), self.seen(), records)
    }

    /// A pass at the start of the buffer that has let nothing through yet.
    pub fn new(location: Location, grouped: bool, app_state: AppState) -> (pass: Self)
        ensures
            pass.settings() == (FilterSettings { location, grouped, app_state }),
            pass.cursor() == 0,
            pass.seen() == Set::<Seq<char>>::empty(),
            !pass.is_halted(),
    {
        FilterPass {
            settings: FilterSettings { location, grouped, app_state },
            cursor: 0,
            seen: StringHashSet::new(),
            halted: false,
        }
    }

    /// Index of the next record to read.
    pub fn position(&self) -> (index: usize)
        ensures
            index == self.cursor(),
    {
        self.cursor
    }

    /// Whether the pass has ended.
    pub fn has_ended(&self) -> (ended: bool)
        ensures
            ended == self.is_halted(),
    {
        self.halted
    }

    /// Ends the pass. From now on it lets nothing through.
    pub fn cancel(&mut self)
        ensures
            final(self).is_halted(),
            final(self).settings() == old(self).settings(),
            final(self).same_progress(old(self)),
    {
        self.halted = true;
    }

    /// Begins a polling step. Cancellation is looked at first: a cancelled
    /// pass ends here. The result is the index from which the buffer is to
    /// be read next, or `None` once the pass has ended.
    pub fn next_read(&mut self, cancelled: bool) -> (from: Option<usize>)
        ensures
            final(self).settings() == old(self).settings(),
            final(self).same_progress(old(self)),
            final(self).is_halted() == (cancelled || old(self).is_halted()),
            from == if final(self).is_halted() {
                None
            } else {
                Some(old(self).cursor() as usize)
            },
    {
        if cancelled {
            self.cancel();
        }
        if self.halted {
            None
        } else {
            Some(self.cursor)
        }
    }

    /// Filters a stretch of the buffer that continues where the pass
    /// stands.
    ///
    /// Every record of the slice is looked at once, in order, and the
    /// cursor moves behind the slice. The pass ends when the slice reaches
    /// the end of a filled buffer. A pass that has ended, or a slice that
    /// does not start at the cursor, changes nothing and yields nothing.
    pub fn scan(&mut self, slice: &BufferSlice) -> (emission: Emission)
        ensures
            final(self).settings() == old(self).settings(),
            old(self).is_halted() ==> {
                &&& emission.records@ == Seq::<History>::empty()
                &&& emission.finished
                &&& final(self).is_halted()
                &&& final(self).same_progress(old(self))
            },
            !old(self).is_halted() && slice.start() != old(self).cursor() ==> {
                &&& emission.records@ == Seq::<History>::empty()
                &&& !emission.finished
                &&& !final(self).is_halted()
                &&& final(self).same_progress(old(self))
            },
            !old(self).is_halted() && slice.start() == old(self).cursor() ==> {
                &&& emission.records@ == old(self).lets_through(slice.records())
                &&& final(self).seen() == old(self).remembers_after(slice.records())
                &&& final(self).cursor() == slice.end()
                &&& final(self).is_halted() == (slice.filled() && slice.end() == slice.length())
                &&& emission.finished == final(self).is_halted()
            },
    {
        if self.halted {
            return Emission { records: Vec::new(), finished: true };
        }
        if slice.first_index() != self.cursor {
            return Emission { records: Vec::new(), finished: false };
        }
        let items = slice.items();
        let end: usize = slice.end_index();
        let ghost start_seen = self.seen@;
        let mut records: Vec<History> = Vec::new();
        let mut i: usize = 0;
        while i < items.len()
            invariant
                0 <= i <= items.len(),
                items@ == slice.records(),
                self.settings == old(self).settings,
                self.cursor == old(self).cursor,
                self.halted == old(self).halted,
                start_seen == old(self).seen@,
                records@ == stream(self.settings, start_seen, items@.take(i as int)),
                self.seen@ == seen_after(self.settings, start_seen, items@.take(i as int)),
            decreases items.len() - i,
        {
            let entry = &items[i];
            proof {
                assert(items@.take(i + 1).drop_last() == items@.take(i as int));
            }
            if filter_entry(&self.settings.location, &self.settings.app_state, entry) && (
            !self.settings.grouped || !self.seen.contains(entry.cmd.as_str())) {
                records.push(entry.clone());
                if self.settings.grouped {
                    self.seen.insert(entry.cmd.clone());
                }
            }
            i += 1;
        }
        proof {
            assert(items@.take(items.len() as int) == items@);
        }
        self.cursor = end;
        self.halted = slice.buffer_filled() && end == slice.buffer_len();
        Emission { records, finished: self.halted }
    }

    /// One polling step against the buffer.
    ///
    /// Cancellation is looked at first: a cancelled pass ends at once and
    /// yields nothing, whatever the buffer holds. Otherwise the step reads
    /// at most one batch from the cursor on and filters it. A cursor
    /// behind the end of the buffer reads nothing and stays.
    pub fn step(&mut self, buffer: &HistoryCollection, cancelled: bool) -> (emission: Emission)
        ensures
            final(self).settings() == old(self).settings(),
            emission.records@.len() <= BATCH_SIZE,
            old(self).cursor() <= final(self).cursor() <= old(self).cursor() + BATCH_SIZE,
            cancelled || old(self).is_halted() ==> {
                &&& emission.records@ == Seq::<History>::empty()
                &&& emission.finished
                &&& final(self).is_halted()
                &&& final(self).same_progress(old(self))
            },
            !cancelled && !old(self).is_halted() && old(self).cursor() <= buffer.records().len()
                ==> {
                let window = buffer.window(old(self).cursor(), BATCH_SIZE as nat);
                &&& emission.records@ == old(self).lets_through(window)
                &&& final(self).seen() == old(self).remembers_after(window)
                &&& final(self).cursor() == old(self).cursor() + window.len()
                &&& final(self).is_halted() == (buffer.is_filled() && final(self).cursor()
                    == buffer.records().len())
                &&& emission.finished == final(self).is_halted()
            },
            !cancelled && !old(self).is_halted() && old(self).cursor() > buffer.records().len()
                ==> {
                &&& emission.records@ == Seq::<History>::empty()
                &&& !emission.finished
                &&& !final(self).is_halted()
                &&& final(self).same_progress(old(self))
            },
    {
        match self.next_read(cancelled) {
            None => Emission { records: Vec::new(), finished: true },
            Some(from) => {
                let slice = buffer.read_from(from, BATCH_SIZE);
                proof {
                    lemma_stream_is_no_longer(self.settings(), self.seen(), slice.records());
                }
                self.scan(&slice)
            },
        }
    }
}

/// Runs one whole pass over what the buffer holds and returns what it lets
/// through: the records in scope, in arrival order, and with grouping only
/// the first of each command text.
pub fn filter_entries(
    history_collection: &HistoryCollection,
    location: &Location,
    app_state: AppState,
    grouped: bool,
) -> (emitted: Vec<History>)
    ensures
        emitted@ == stream(
            FilterSettings { location: *location, grouped, app_state },
            Set::<Seq<char>>::empty(),
            history_collection.records(),
        ),
{
    let ghost settings = FilterSettings { location: *location, grouped, app_state };
    let ghost all = history_collection.records();
    let mut pass = FilterPass::new(*location, grouped, app_state);
    let mut emitted: Vec<History> = Vec::new();
    let (len, _) = history_collection.snapshot();
    while pass.position() < len
        invariant
            pass.settings() == settings,
            all == history_collection.records(),
            len == all.len(),
            pass.cursor() <= len,
            !pass.is_halted() || pass.cursor() == len,
            emitted@ == stream(settings, Set::<Seq<char>>::empty(), all.take(pass.cursor() as int)),
            pass.seen() == seen_after(
                settings,
                Set::<Seq<char>>::empty(),
                all.take(pass.cursor() as int),
            ),
        decreases len - pass.cursor(),
    {
        let ghost from = pass.cursor() as int;
        let ghost window = history_collection.window(pass.cursor(), BATCH_SIZE as nat);
        let mut emission = pass.step(history_collection, false);
        proof {
            lemma_stream_concat(settings, Set::<Seq<char>>::empty(), all.take(from), window);
            assert(all.take(from) + window == all.take(from + window.len()));
        }
        emitted.append(&mut emission.records);
    }
    proof {
        assert(all.take(len as int) == all);
    }
    emitted
}

} // verus!
