//! Sessions in flight, and the registry that holds them.
//!
//! A session is one replay of a transcript. It is kept in the registry from
//! the moment it is created until it is retired; a lookup hands out a copy, so
//! that only the registry's own operations change what it holds.

use crate::interface::{copy_records, record_views, RecordView, TranscriptRecord};
use vstd::prelude::*;

verus! {

/// The ways in which a session's records reach their consumer.
#[derive(Clone, Copy, Debug, PartialEq, Eq, Structural)]
pub enum SinkKind {
    /// The records are pushed over a connection that the consumer opens.
    LivePush,
    /// The records are posted to a fixed HTTP endpoint.
    Webhook,
}

/// What a session holds, as plain values.
pub ghost struct SessionView {
    pub filename: Seq<char>,
    pub records: Seq<RecordView>,
    pub cursor: nat,
    pub sink_kind: SinkKind,
}

impl SessionView {
    /// The cursor counts delivered records, so it never passes their number.
    pub open spec fn wf(self) -> bool {
        self.cursor <= self.records.len()
    }

    /// Whether every record has been delivered.
    pub open spec fn complete(self) -> bool {
        self.cursor == self.records.len()
    }

    /// The session after the delivery of one more record.
    pub open spec fn advanced(self) -> SessionView {
        SessionView { cursor: self.cursor + 1, ..self }
    }
}

/// One replay of a transcript: its records, and a cursor that counts how
/// many of them have been delivered.
#[derive(Debug)]
pub struct RewindSession {
    filename: String,
    records: Vec<TranscriptRecord>,
    current_index: usize,
    sink_kind: SinkKind,
}

impl View for RewindSession {
    type V = SessionView;

    closed spec fn view(&self) -> SessionView {
        SessionView {
            filename: self.filename@,
            records: record_views(self.records@),
            cursor: self.current_index as nat,
            sink_kind: self.sink_kind,
        }
    }
}

impl RewindSession {
    #[verifier::type_invariant]
    spec fn cursor_in_bounds(&self) -> bool {
        self.current_index <= self.records@.len()
    }

    /// A session over `records` of which nothing has been delivered yet.
    pub fn new(filename: String, records: Vec<TranscriptRecord>, sink_kind: SinkKind) -> (session:
        Self)
        ensures
            session@ == (SessionView {
                filename: filename@,
                records: record_views(records@),
                cursor: 0,
                sink_kind,
            }),
    {
        RewindSession { filename, records, current_index: 0, sink_kind }
    }

    /// The name of the transcript file that the records came from.
    pub fn filename(&self) -> (name: &str)
        ensures
            name@ == self@.filename,
    {
        self.filename.as_str()
    }

    /// The records of the session, in transcript order.
    pub fn records(&self) -> (records: &Vec<TranscriptRecord>)
        ensures
            record_views(records@) == self@.records,
    {
        &self.records
    }

    /// How many records the session has.
    pub fn len(&self) -> (n: usize)
        ensures
            n == self@.records.len(),
    {
        self.records.len()
    }

    /// How many records have been delivered.
    pub fn current_index(&self) -> (cursor: usize)
        ensures
            cursor == self@.cursor,
            self@.wf(),
    {
        proof {
            use_type_invariant(self);
        }
        self.current_index
    }

    /// How the records reach their consumer.
    pub fn sink_kind(&self) -> (kind: SinkKind)
        ensures
            kind == self@.sink_kind,
    {
        self.sink_kind
    }

    /// Whether every record has been delivered.
    pub fn is_complete(&self) -> (done: bool)
        ensures
            done == self@.complete(),
            self@.wf(),
    {
        proof {
            use_type_invariant(self);
        }
        self.current_index == self.records.len()
    }

    /// The record that is delivered next, if one is left.
    pub fn current(&self) -> (record: Option<&TranscriptRecord>)
        ensures
            self@.wf(),
            match record {
                Some(r) => !self@.complete() && r@ == self@.records[self@.cursor as int],
                None => self@.complete(),
            },
    {
        proof {
            use_type_invariant(self);
        }
        if self.current_index < self.records.len() {
            Some(&self.records[self.current_index])
        } else {
            None
        }
    }

    /// Counts one more record as delivered.
    pub fn advance(&mut self)
        requires
            !old(self)@.complete(),
        ensures
            final(self)@ == old(self)@.advanced(),
            final(self)@.wf(),
        no_unwind
    {
        proof {
            use_type_invariant(&*self);
        }
        let n: usize = self.records.len();
        assert(self.current_index < n);
        self.current_index = self.current_index + 1;
    }
}

impl Clone for RewindSession {
    fn clone(&self) -> (copy: Self)
        ensures
            copy@ == self@,
    {
        proof {
            use_type_invariant(self);
        }
        RewindSession {
            filename: self.filename.clone(),
            records: copy_records(&self.records),
            current_index: self.current_index,
            sink_kind: self.sink_kind,
        }
    }
}

/// One entry of the registry: a session under its identifier.
#[derive(Debug)]
struct Entry {
    id: String,
    session: RewindSession,
}

/// The map that a run of entries stands for. A later entry for an identifier
/// would replace an earlier one; the registry never holds two.
spec fn entries_map(entries: Seq<Entry>) -> Map<Seq<char>, SessionView>
    decreases entries.len(),
{
    if entries.len() == 0 {
        Map::empty()
    } else {
        entries_map(entries.drop_last()).insert(entries.last().id@, entries.last().session@)
    }
}

/// No two entries share an identifier.
spec fn distinct_ids(entries: Seq<Entry>) -> bool {
    forall|i: int, j: int|
        0 <= i < j < entries.len() ==> (#[trigger] entries[i]).id@ != (#[trigger] entries[j]).id@
}

/// Whether an entry of `entries` is filed under `id`.
spec fn has_id(entries: Seq<Entry>, id: Seq<char>) -> bool {
    exists|i: int| 0 <= i < entries.len() && (#[trigger] entries[i]).id@ == id
}

/// The map of a run of entries has exactly the identifiers of the entries
/// as its keys, and they are finitely many.
proof fn lemma_entries_domain(entries: Seq<Entry>, id: Seq<char>)
    ensures
        entries_map(entries).contains_key(id) <==> has_id(entries, id),
        entries_map(entries).dom().finite(),
    decreases entries.len(),
{
    if entries.len() > 0 {
        let shorter = entries.drop_last();
        lemma_entries_domain(shorter, id);
        if has_id(shorter, id) {
            let i = choose|i: int| 0 <= i < shorter.len() && (#[trigger] shorter[i]).id@ == id;
            assert(entries[i].id@ == id);
        }
        if has_id(entries, id) {
            let i = choose|i: int| 0 <= i < entries.len() && (#[trigger] entries[i]).id@ == id;
            if i < shorter.len() {
                assert(shorter[i].id@ == id);
            }
        }
        if entries.last().id@ == id {
            assert(entries[entries.len() - 1].id@ == id);
        }
    }
}

/// Where no two entries share an identifier, the map gives for the
/// identifier of each entry the session of that entry.
proof fn lemma_entry_lookup(entries: Seq<Entry>, i: int)
    requires
        distinct_ids(entries),
        0 <= i < entries.len(),
    ensures
        entries_map(entries).contains_key(entries[i].id@),
        entries_map(entries)[entries[i].id@] == entries[i].session@,
    decreases entries.len(),
{
    let shorter = entries.drop_last();
    if i < entries.len() - 1 {
        assert(distinct_ids(shorter)) by {
            assert forall|a: int, b: int| 0 <= a < b < shorter.len() implies (
            #[trigger] shorter[a]).id@ != (#[trigger] shorter[b]).id@ by {
                assert(shorter[a] == entries[a] && shorter[b] == entries[b]);
            }
        }
        lemma_entry_lookup(shorter, i);
        assert(shorter[i] == entries[i]);
        assert(entries[i].id@ != entries[entries.len() - 1].id@);
    }
}

/// Where no two entries share an identifier, taking one entry out takes
/// its identifier out of the map and leaves the rest as it was.
proof fn lemma_entry_removed(entries: Seq<Entry>, i: int)
    requires
        distinct_ids(entries),
        0 <= i < entries.len(),
    ensures
        distinct_ids(entries.remove(i)),
        entries_map(entries.remove(i)) == entries_map(entries).remove(entries[i].id@),
    decreases entries.len(),
{
    let rest = entries.remove(i);
    assert(distinct_ids(rest)) by {
        assert forall|a: int, b: int| 0 <= a < b < rest.len() implies (#[trigger] rest[a]).id@ != (
        #[trigger] rest[b]).id@ by {
            let a0 = if a < i {
                a
            } else {
                a + 1
            };
            let b0 = if b < i {
                b
            } else {
                b + 1
            };
            assert(rest[a] == entries[a0] && rest[b] == entries[b0]);
        }
    }
    let shorter = entries.drop_last();
    if i == entries.len() - 1 {
        assert(rest == shorter);
        lemma_entries_domain(shorter, entries[i].id@);
        if has_id(shorter, entries[i].id@) {
            let k = choose|k: int|
                0 <= k < shorter.len() && (#[trigger] shorter[k]).id@ == entries[i].id@;
            assert(shorter[k] == entries[k]);
        }
        assert(entries_map(shorter).insert(entries[i].id@, entries[i].session@).remove(
            entries[i].id@,
        ) == entries_map(shorter));
    } else {
        assert(distinct_ids(shorter)) by {
            assert forall|a: int, b: int| 0 <= a < b < shorter.len() implies (
            #[trigger] shorter[a]).id@ != (#[trigger] shorter[b]).id@ by {
                assert(shorter[a] == entries[a] && shorter[b] == entries[b]);
            }
        }
        lemma_entry_removed(shorter, i);
        assert(shorter[i] == entries[i]);
        assert(rest.drop_last() == shorter.remove(i));
        assert(rest.last() == entries.last());
        assert(entries[i].id@ != entries[entries.len() - 1].id@);
        assert(entries_map(shorter).remove(entries[i].id@).insert(
            entries.last().id@,
            entries.last().session@,
        ) == entries_map(shorter).insert(entries.last().id@, entries.last().session@).remove(
            entries[i].id@,
        ));
    }
}

/// The sessions in flight, each under its identifier.
///
/// The registry is a plain owned value: whoever shares it between tasks puts
/// it behind one lock and holds that lock for a single call at a time.
#[derive(Debug)]
pub struct SessionRegistry {
    entries: Vec<Entry>,
}

impl View for SessionRegistry {
    type V = Map<Seq<char>, SessionView>;

    closed spec fn view(&self) -> Map<Seq<char>, SessionView> {
        entries_map(self.entries@)
    }
}

impl SessionRegistry {
    #[verifier::type_invariant]
    spec fn one_entry_per_id(&self) -> bool {
        distinct_ids(self.entries@)
    }

    /// A registry that holds no session.
    pub fn new() -> (registry: Self)
        ensures
            registry@ == Map::<Seq<char>, SessionView>::empty(),
    {
        SessionRegistry { entries: Vec::new() }
    }

    /// Hands out the entries and leaves the registry empty, for a change
    /// that the caller files back in one piece.
    fn take_entries(&mut self) -> (entries: Vec<Entry>)
        ensures
            entries@ == old(self).entries@,
            final(self).entries@.len() == 0,
    {
        let mut entries: Vec<Entry> = Vec::new();
        std::mem::swap(&mut self.entries, &mut entries);
        entries
    }

    /// Where the entry for `id` stands, if there is one.
    fn position(&self, id: &String) -> (found: Option<usize>)
        ensures
            match found {
                Some(i) => i < self.entries@.len() && self.entries@[i as int].id@ == id@,
                None => !has_id(self.entries@, id@),
            },
    {
        let mut i: usize = 0;
        while i < self.entries.len()
            invariant
                i <= self.entries@.len(),
                forall|k: int| 0 <= k < i ==> (#[trigger] self.entries@[k]).id@ != id@,
            decreases self.entries@.len() - i,
        {
            if self.entries[i].id == *id {
                return Some(i);
            }
            i = i + 1;
        }
        None
    }

    /// Files `session` under `id`. A session that was filed under the same
    /// identifier before is replaced.
    pub fn create(&mut self, id: String, session: RewindSession)
        ensures
            final(self)@ == old(self)@.insert(id@, session@),
    {
        proof {
            use_type_invariant(&*self);
        }
        let found = self.position(&id);
        let mut entries = self.take_entries();
        match found {
            Some(i) => {
                proof {
                    lemma_entry_removed(entries@, i as int);
                }
                entries.remove(i);
            },
            None => {},
        }
        let ghost kept = entries@;
        proof {
            lemma_entries_domain(kept, id@);
        }
        entries.push(Entry { id, session });
        proof {
            assert(entries@.drop_last() == kept);
            assert(distinct_ids(entries@)) by {
                assert forall|a: int, b: int| 0 <= a < b < entries@.len() implies (
                #[trigger] entries@[a]).id@ != (#[trigger] entries@[b]).id@ by {
                    assert(entries@[a] == kept[a]);
                    if b < kept.len() {
                        assert(entries@[b] == kept[b]);
                    }
                }
            }
            assert(old(self)@.remove(id@).insert(id@, session@) == old(self)@.insert(
                id@,
                session@,
            ));
            if !old(self)@.contains_key(id@) {
                assert(old(self)@.remove(id@) == old(self)@);
            }
        }
        self.entries = entries;
    }

    /// A copy of the session filed under `id`, if there is one.
    pub fn get(&self, id: &str) -> (session: Option<RewindSession>)
        ensures
            match session {
                Some(s) => self@.contains_key(id@) && s@ == self@[id@],
                None => !self@.contains_key(id@),
            },
    {
        proof {
            use_type_invariant(self);
            lemma_entries_domain(self.entries@, id@);
        }
        let key = id.to_owned();
        match self.position(&key) {
            Some(i) => {
                proof {
                    lemma_entry_lookup(self.entries@, i as int);
                }
                Some(self.entries[i].session.clone())
            },
            None => None,
        }
    }

    /// Whether a session is filed under `id`.
    pub fn contains(&self, id: &str) -> (found: bool)
        ensures
            found == self@.contains_key(id@),
    {
        proof {
            lemma_entries_domain(self.entries@, id@);
        }
        let key = id.to_owned();
        self.position(&key).is_some()
    }

    /// Takes the session filed under `id` out of the registry, and says
    /// whether there was one. Removing an identifier that is not filed
    /// changes nothing.
    pub fn remove(&mut self, id: &str) -> (removed: bool)
        ensures
            final(self)@ == old(self)@.remove(id@),
            removed == old(self)@.contains_key(id@),
    {
        proof {
            use_type_invariant(&*self);
            lemma_entries_domain(self.entries@, id@);
        }
        let key = id.to_owned();
        match self.position(&key) {
            Some(i) => {
                let mut entries = self.take_entries();
                proof {
                    lemma_entry_removed(entries@, i as int);
                }
                entries.remove(i);
                self.entries = entries;
                true
            },
            None => {
                assert(old(self)@.remove(id@) == old(self)@);
                false
            },
        }
    }

    /// How many sessions are in flight.
    pub fn len(&self) -> (n: usize)
        ensures
            n == self@.len(),
    {
        proof {
            use_type_invariant(self);
            lemma_entries_count(self.entries@);
        }
        self.entries.len()
    }

    /// Whether no session is in flight.
    pub fn is_empty(&self) -> (empty: bool)
        ensures
            empty == (self@.len() == 0),
    {
        self.len() == 0
    }
}

/// Where no two entries share an identifier, the map has as many keys as
/// there are entries.
proof fn lemma_entries_count(entries: Seq<Entry>)
    requires
        distinct_ids(entries),
    ensures
        entries_map(entries).dom().finite(),
        entries_map(entries).len() == entries.len(),
    decreases entries.len(),
{
    if entries.len() > 0 {
        let shorter = entries.drop_last();
        assert(distinct_ids(shorter)) by {
            assert forall|a: int, b: int| 0 <= a < b < shorter.len() implies (
            #[trigger] shorter[a]).id@ != (#[trigger] shorter[b]).id@ by {
                assert(shorter[a] == entries[a] && shorter[b] == entries[b]);
            }
        }
        lemma_entries_count(shorter);
        lemma_entries_domain(shorter, entries.last().id@);
        if has_id(shorter, entries.last().id@) {
            let k = choose|k: int|
                0 <= k < shorter.len() && (#[trigger] shorter[k]).id@ == entries.last().id@;
            assert(shorter[k] == entries[k]);
            assert(entries[k].id@ != entries[entries.len() - 1].id@);
        }
    } else {
        assert(entries_map(entries).dom() =~= Set::<Seq<char>>::empty());
    }
}

/// Once a session is retired, every lookup of its identifier finds nothing,
/// however often it is made, and retiring it again changes nothing.
pub proof fn lemma_lookup_after_retirement(sessions: Map<Seq<char>, SessionView>, id: Seq<char>)
    ensures
        !sessions.remove(id).contains_key(id),
        sessions.remove(id).remove(id) == sessions.remove(id),
{
    assert(sessions.remove(id).remove(id) =~= sessions.remove(id));
}

/// Retiring one session leaves every other session as it was.
pub proof fn lemma_retirement_is_local(
    sessions: Map<Seq<char>, SessionView>,
    id: Seq<char>,
    other: Seq<char>,
)
    requires
        other != id,
    ensures
        sessions.remove(id).contains_key(other) == sessions.contains_key(other),
        sessions.contains_key(other) ==> sessions.remove(id)[other] == sessions[other],
{
}

/// A session is found under its identifier from the moment it is created.
pub proof fn lemma_lookup_after_creation(
    sessions: Map<Seq<char>, SessionView>,
    id: Seq<char>,
    session: SessionView,
)
    ensures
        sessions.insert(id, session).contains_key(id),
        sessions.insert(id, session)[id] == session,
{
}

} // verus!
