//! What a filter pass lets through, as a function of the records it looks
//! at, and what follows from that definition.

use vstd::prelude::*;
use crate::history::History;
use crate::location::Location;
use crate::text::{i64_value, parse_i64};

verus! {

/// Where the search was started: read once, before a pass begins.
pub struct AppState {
    pub session: i64,
    pub dir: String,
    pub machine: String,
}

impl AppState {
    /// Builds the snapshot from what the environment reports. The session
    /// identifier must be a decimal integer of 64 bits; with any other
    /// text there is no snapshot.
    pub fn new(session_id: &str, dir: String, machine: String) -> (state: Option<AppState>)
        ensures
            match state {
                Some(state) => {
                    &&& i64_value(session_id@) == Some(state.session)
                    &&& state.dir == dir
                    &&& state.machine == machine
                },
                None => i64_value(session_id@) is None,
            },
    {
        match parse_i64(session_id) {
            Some(session) => Some(AppState { session, dir, machine }),
            None => None,
        }
    }
}

/// What a pass is run with. None of it changes while the pass lives.
pub struct FilterSettings {
    /// The scope that records must belong to.
    pub location: Location,
    /// Whether each command text is let through only once.
    pub grouped: bool,
    /// The environment that records are compared with.
    pub app_state: AppState,
}

/// The scope predicate: whether `entry` belongs to `location` as seen from
/// `app_state`.
pub open spec fn in_scope(location: Location, app_state: AppState, entry: History) -> bool {
    match location {
        Location::Session => entry.session == app_state.session && entry.host@
            == app_state.machine@,
        Location::Directory => entry.dir@ == app_state.dir@ && entry.host@ == app_state.machine@,
        Location::Machine => entry.host@ == app_state.machine@,
        Location::Everywhere => true,
    }
}

impl FilterSettings {
    /// Whether `entry` belongs to the scope of these settings.
    pub open spec fn admits(self, entry: History) -> bool {
        in_scope(self.location, self.app_state, entry)
    }

    /// Whether a pass lets `entry` through, given the command texts it has
    /// let through before.
    pub open spec fn emits(self, seen: Set<Seq<char>>, entry: History) -> bool {
        self.admits(entry) && (self.grouped ==> !seen.contains(entry.cmd@))
    }
}

/// The command texts that a pass remembers after it has looked at
/// `records` in order, starting from `seen`. Without grouping it
/// remembers nothing new.
pub open spec fn seen_after(settings: FilterSettings, seen: Set<Seq<char>>, records: Seq<History>)
    -> Set<Seq<char>>
    decreases records.len(),
{
    if records.len() == 0 {
        seen
    } else {
        let before = seen_after(settings, seen, records.drop_last());
        if settings.grouped && settings.emits(before, records.last()) {
            before.insert(records.last().cmd@)
        } else {
            before
        }
    }
}

/// The records that a pass lets through when it looks at `records` in
/// order, starting from `seen`: those in scope, and with grouping only
/// those whose command text it has not let through before.
pub open spec fn stream(settings: FilterSettings, seen: Set<Seq<char>>, records: Seq<History>)
    -> Seq<History>
    decreases records.len(),
{
    if records.len() == 0 {
        Seq::empty()
    } else {
        let earlier = stream(settings, seen, records.drop_last());
        let before = seen_after(settings, seen, records.drop_last());
        if settings.emits(before, records.last()) {
            earlier.push(records.last())
        } else {
            earlier
        }
    }
}

/// For each record of `stream`, the index in `records` that it was taken
/// from.
pub open spec fn origins(settings: FilterSettings, seen: Set<Seq<char>>, records: Seq<History>)
    -> Seq<int>
    decreases records.len(),
{
    if records.len() == 0 {
        Seq::empty()
    } else {
        let earlier = origins(settings, seen, records.drop_last());
        let before = seen_after(settings, seen, records.drop_last());
        if settings.emits(before, records.last()) {
            earlier.push(records.len() - 1)
        } else {
            earlier
        }
    }
}

/// Whether the record at index `k` is one that a pass must let through:
/// it is in scope and, with grouping, its command text was not seen before
/// the pass and belongs to no earlier record in scope.
pub open spec fn survives(
    settings: FilterSettings,
    seen: Set<Seq<char>>,
    records: Seq<History>,
    k: int,
) -> bool {
    &&& 0 <= k < records.len()
    &&& settings.admits(records[k])
    &&& settings.grouped ==> {
        &&& !seen.contains(records[k].cmd@)
        &&& forall|j: int|
            0 <= j < k && settings.admits(#[trigger] records[j]) ==> records[j].cmd@
                != records[k].cmd@
    }
}

/// Looking at a run of records in two parts gives what looking at it in
/// one part gives: the second part continues with what the first
/// remembered. How the buffer is cut into polling steps therefore does not
/// change what comes out.
pub proof fn lemma_stream_concat(
    settings: FilterSettings,
    seen: Set<Seq<char>>,
    first: Seq<History>,
    second: Seq<History>,
)
    ensures
        seen_after(settings, seen, first + second) == seen_after(
            settings,
            seen_after(settings, seen, first),
            second,
        ),
        stream(settings, seen, first + second) == stream(settings, seen, first) + stream(
            settings,
            seen_after(settings, seen, first),
            second,
        ),
    decreases second.len(),
{
    if second.len() > 0 {
        lemma_stream_concat(settings, seen, first, second.drop_last());
        assert((first + second).drop_last() == first + second.drop_last());
    }
}

/// A pass lets through no more records than it looks at.
pub proof fn lemma_stream_is_no_longer(
    settings: FilterSettings,
    seen: Set<Seq<char>>,
    records: Seq<History>,
)
    ensures
        stream(settings, seen, records).len() <= records.len(),
    decreases records.len(),
{
    if records.len() > 0 {
        lemma_stream_is_no_longer(settings, seen, records.drop_last());
    }
}

/// With grouping, a pass remembers exactly the command texts it started
/// with and those of the records in scope that it has looked at.
pub proof fn lemma_seen_after_members(
    settings: FilterSettings,
    seen: Set<Seq<char>>,
    records: Seq<History>,
    command: Seq<char>,
)
    ensures
        !settings.grouped ==> seen_after(settings, seen, records) == seen,
        settings.grouped ==> (seen_after(settings, seen, records).contains(command) <==> (
        seen.contains(command) || exists|j: int|
            0 <= j < records.len() && settings.admits(#[trigger] records[j]) && records[j].cmd@
                == command)),
    decreases records.len(),
{
    if records.len() > 0 {
        let prefix = records.drop_last();
        lemma_seen_after_members(settings, seen, prefix, command);
        lemma_seen_after_members(settings, seen, prefix, records.last().cmd@);
        if settings.grouped {
            let last = records.len() - 1;
            assert(forall|j: int| 0 <= j < prefix.len() ==> prefix[j] == records[j]);
            if seen_after(settings, seen, records).contains(command) && !seen.contains(command) {
                if seen_after(settings, seen, prefix).contains(command) {
                    let j = choose|j: int|
                        0 <= j < prefix.len() && settings.admits(#[trigger] prefix[j])
                            && prefix[j].cmd@ == command;
                    assert(settings.admits(records[j]) && records[j].cmd@ == command);
                } else {
                    assert(settings.admits(records[last]) && records[last].cmd@ == command);
                }
            }
            if exists|j: int|
                0 <= j < records.len() && settings.admits(#[trigger] records[j]) && records[j].cmd@
                    == command {
                let j = choose|j: int|
                    0 <= j < records.len() && settings.admits(#[trigger] records[j])
                        && records[j].cmd@ == command;
                if j < last {
                    assert(settings.admits(prefix[j]) && prefix[j].cmd@ == command);
                }
            }
        }
    }
}

/// Every record that comes out was taken from the records that went in,
/// at the index that `origins` names, and these indices grow strictly:
/// what comes out is in arrival order, never rearranged.
pub proof fn lemma_stream_keeps_arrival_order(
    settings: FilterSettings,
    seen: Set<Seq<char>>,
    records: Seq<History>,
)
    ensures
        origins(settings, seen, records).len() == stream(settings, seen, records).len(),
        forall|i: int|
            0 <= i < stream(settings, seen, records).len() ==> {
                &&& 0 <= #[trigger] origins(settings, seen, records)[i] < records.len()
                &&& stream(settings, seen, records)[i] == records[origins(
                    settings,
                    seen,
                    records,
                )[i]]
            },
        forall|i: int, j: int|
            0 <= i < j < stream(settings, seen, records).len() ==> #[trigger] origins(
                settings,
                seen,
                records,
            )[i] < #[trigger] origins(settings, seen, records)[j],
    decreases records.len(),
{
    if records.len() > 0 {
        let prefix = records.drop_last();
        lemma_stream_keeps_arrival_order(settings, seen, prefix);
        assert(forall|j: int| 0 <= j < prefix.len() ==> prefix[j] == records[j]);
    }
}

/// The records that come out are exactly those that survive: an index is
/// among the origins if and only if its record is in scope and, with
/// grouping, is the first in scope with its command text.
pub proof fn lemma_origins_are_survivors(
    settings: FilterSettings,
    seen: Set<Seq<char>>,
    records: Seq<History>,
    k: int,
)
    ensures
        origins(settings, seen, records).contains(k) <==> survives(settings, seen, records, k),
    decreases records.len(),
{
    let picked = origins(settings, seen, records);
    if records.len() == 0 {
        assert(!picked.contains(k));
    } else {
        let prefix = records.drop_last();
        let last = records.len() - 1;
        let earlier = origins(settings, seen, prefix);
        let before = seen_after(settings, seen, prefix);
        lemma_origins_are_survivors(settings, seen, prefix, k);
        lemma_stream_keeps_arrival_order(settings, seen, prefix);
        lemma_seen_after_members(settings, seen, prefix, records[last].cmd@);
        assert(forall|j: int| 0 <= j < prefix.len() ==> prefix[j] == records[j]);
        if k == last {
            assert(!earlier.contains(k));
            if settings.emits(before, records[last]) {
                assert(picked == earlier.push(last));
                assert(picked[picked.len() - 1] == k);
                if settings.grouped {
                    assert forall|j: int|
                        0 <= j < k && settings.admits(#[trigger] records[j]) implies records[j].cmd@
                        != records[k].cmd@ by {
                        assert(settings.admits(prefix[j]));
                    }
                }
            } else {
                assert(picked == earlier);
                if settings.admits(records[last]) && !seen.contains(records[last].cmd@) {
                    let j = choose|j: int|
                        0 <= j < prefix.len() && settings.admits(#[trigger] prefix[j])
                            && prefix[j].cmd@ == records[last].cmd@;
                    assert(settings.admits(records[j]));
                }
            }
        } else {
            if settings.emits(before, records[last]) {
                assert(picked == earlier.push(last));
                if earlier.contains(k) {
                    let i = choose|i: int| 0 <= i < earlier.len() && earlier[i] == k;
                    assert(picked[i] == k);
                }
                if picked.contains(k) {
                    let i = choose|i: int| 0 <= i < picked.len() && picked[i] == k;
                    assert(earlier[i] == k);
                }
            }
            assert(picked.contains(k) <==> earlier.contains(k));
            if 0 <= k < last {
                assert(prefix[k] == records[k]);
                assert(survives(settings, seen, prefix, k) <==> survives(
                    settings,
                    seen,
                    records,
                    k,
                ));
            }
        }
    }
}

/// Every record that comes out belongs to the scope of the pass.
pub proof fn lemma_stream_is_in_scope(
    settings: FilterSettings,
    seen: Set<Seq<char>>,
    records: Seq<History>,
    i: int,
)
    requires
        0 <= i < stream(settings, seen, records).len(),
    ensures
        settings.admits(stream(settings, seen, records)[i]),
{
    lemma_stream_keeps_arrival_order(settings, seen, records);
    let k = origins(settings, seen, records)[i];
    lemma_origins_are_survivors(settings, seen, records, k);
}

/// The scope `Everywhere` does not look at the environment: two passes
/// that differ only in session, host and directory let the same records
/// through, and without grouping that is every record.
pub proof fn lemma_everywhere_takes_all(
    grouped: bool,
    one: AppState,
    other: AppState,
    seen: Set<Seq<char>>,
    records: Seq<History>,
)
    ensures
        ({
            let here = FilterSettings { location: Location::Everywhere, grouped, app_state: one };
            let there = FilterSettings {
                location: Location::Everywhere,
                grouped,
                app_state: other,
            };
            &&& stream(here, seen, records) == stream(there, seen, records)
            &&& seen_after(here, seen, records) == seen_after(there, seen, records)
            &&& !grouped ==> stream(here, seen, records) == records
        }),
    decreases records.len(),
{
    if records.len() > 0 {
        lemma_everywhere_takes_all(grouped, one, other, seen, records.drop_last());
    }
}

/// The least index whose record is in scope and has the command text of
/// the record at `k`.
spec fn first_in_scope(settings: FilterSettings, records: Seq<History>, k: int) -> int
    decreases k,
{
    if k <= 0 {
        0
    } else if exists|j: int|
        0 <= j < k && settings.admits(#[trigger] records[j]) && records[j].cmd@ == records[k].cmd@ {
        first_in_scope(
            settings,
            records,
            choose|j: int|
                0 <= j < k && settings.admits(#[trigger] records[j]) && records[j].cmd@
                    == records[k].cmd@,
        )
    } else {
        k
    }
}

/// `first_in_scope` names a record in scope with the same command text
/// that no such record precedes.
proof fn lemma_first_in_scope(settings: FilterSettings, records: Seq<History>, k: int)
    requires
        0 <= k < records.len(),
        settings.admits(records[k]),
    ensures
        0 <= first_in_scope(settings, records, k) <= k,
        settings.admits(records[first_in_scope(settings, records, k)]),
        records[first_in_scope(settings, records, k)].cmd@ == records[k].cmd@,
        forall|j: int|
            0 <= j < first_in_scope(settings, records, k) && settings.admits(#[trigger] records[j])
                ==> records[j].cmd@ != records[k].cmd@,
    decreases k,
{
    if k > 0 && exists|j: int|
        0 <= j < k && settings.admits(#[trigger] records[j]) && records[j].cmd@ == records[k].cmd@ {
        let j = choose|j: int|
            0 <= j < k && settings.admits(#[trigger] records[j]) && records[j].cmd@
                == records[k].cmd@;
        lemma_first_in_scope(settings, records, j);
    }
}

/// With grouping, no two records that come out of one pass share their
/// command text, none has a text that the pass had seen before, and of the
/// records in scope with one text it is the earliest that comes out.
pub proof fn lemma_grouped_stream_is_unique(
    settings: FilterSettings,
    seen: Set<Seq<char>>,
    records: Seq<History>,
)
    requires
        settings.grouped,
    ensures
        forall|i: int, j: int|
            0 <= i < j < stream(settings, seen, records).len() ==> (#[trigger] stream(
                settings,
                seen,
                records,
            )[i]).cmd@ != (#[trigger] stream(settings, seen, records)[j]).cmd@,
        forall|i: int|
            0 <= i < stream(settings, seen, records).len() ==> !seen.contains(
                (#[trigger] stream(settings, seen, records)[i]).cmd@,
            ),
        forall|i: int, j: int|
            0 <= i < stream(settings, seen, records).len() && 0 <= j < origins(
                settings,
                seen,
                records,
            )[i] && settings.admits(#[trigger] records[j]) ==> records[j].cmd@ != (
            #[trigger] stream(settings, seen, records)[i]).cmd@,
        forall|k: int|
            0 <= k < records.len() && settings.admits(#[trigger] records[k]) && !seen.contains(
                records[k].cmd@,
            ) ==> exists|i: int|
                0 <= i < stream(settings, seen, records).len() && (#[trigger] stream(
                    settings,
                    seen,
                    records,
                )[i]).cmd@ == records[k].cmd@,
{
    let out = stream(settings, seen, records);
    let picked = origins(settings, seen, records);
    lemma_stream_keeps_arrival_order(settings, seen, records);
    assert forall|i: int| 0 <= i < out.len() implies survives(
        settings,
        seen,
        records,
        #[trigger] picked[i],
    ) by {
        lemma_origins_are_survivors(settings, seen, records, picked[i]);
    }
    assert forall|i: int, j: int| 0 <= i < j < out.len() implies (#[trigger] out[i]).cmd@ != (
    #[trigger] out[j]).cmd@ by {
        assert(survives(settings, seen, records, picked[i]));
        assert(survives(settings, seen, records, picked[j]));
        assert(picked[i] < picked[j]);
        assert(settings.admits(records[picked[i]]));
    }
    assert forall|i: int| 0 <= i < out.len() implies !seen.contains((#[trigger] out[i]).cmd@) by {
        assert(survives(settings, seen, records, picked[i]));
    }
    assert forall|i: int, j: int|
        0 <= i < out.len() && 0 <= j < picked[i] && settings.admits(
            #[trigger] records[j],
        ) implies records[j].cmd@ != (#[trigger] out[i]).cmd@ by {
        assert(survives(settings, seen, records, picked[i]));
    }
    assert forall|k: int|
        0 <= k < records.len() && settings.admits(#[trigger] records[k]) && !seen.contains(
            records[k].cmd@,
        ) implies exists|i: int|
        0 <= i < out.len() && (#[trigger] out[i]).cmd@ == records[k].cmd@ by {
        lemma_first_in_scope(settings, records, k);
        let f = first_in_scope(settings, records, k);
        assert(survives(settings, seen, records, f));
        lemma_origins_are_survivors(settings, seen, records, f);
        let i = choose|i: int| 0 <= i < picked.len() && picked[i] == f;
        assert(out[i].cmd@ == records[k].cmd@);
    }
}

/// Without grouping, what comes out is every record in scope, duplicates
/// included, in the order of arrival.
pub proof fn lemma_ungrouped_stream_is_filter(
    settings: FilterSettings,
    seen: Set<Seq<char>>,
    records: Seq<History>,
)
    requires
        !settings.grouped,
    ensures
        stream(settings, seen, records) == records.filter(|r: History| settings.admits(r)),
        seen_after(settings, seen, records) == seen,
    decreases records.len(),
{
    reveal(Seq::filter);
    if records.len() > 0 {
        lemma_ungrouped_stream_is_filter(settings, seen, records.drop_last());
    }
}

} // verus!
