//! Pacing: how long to wait before each record.
//!
//! The time codes of a transcript count seconds from its start. A replay
//! waits, before each record, for the time that lies between the record
//! before it and itself; where the codes stand still or run backwards it does
//! not wait at all.

use crate::interface::{record_views, RecordView, TranscriptRecord};
use crate::timecode::{parse_time_to_time, timecode_seconds};
use vstd::prelude::*;

verus! {

/// The second offset at which a record stands in its transcript.
pub open spec fn offset_of(record: RecordView) -> int {
    timecode_seconds(record.time_code)
}

/// The offsets of a run of records, in the same order.
pub open spec fn offsets_of(records: Seq<RecordView>) -> Seq<int> {
    Seq::new(records.len(), |i: int| offset_of(records[i]))
}

/// The offset from which the wait before the record at `i` is measured: that
/// of the record before it, or zero for the first.
pub open spec fn offset_before(offsets: Seq<int>, i: int) -> int {
    if i <= 0 {
        0
    } else {
        offsets[i - 1]
    }
}

/// The wait between two offsets: their distance, or nothing where the later
/// one is not ahead.
pub open spec fn wait_between(last: int, current: int) -> nat {
    if current > last {
        (current - last) as nat
    } else {
        0
    }
}

/// The seconds to wait before the record at `i`.
pub open spec fn wait_before(offsets: Seq<int>, i: int) -> nat {
    wait_between(offset_before(offsets, i), offsets[i])
}

/// The waits of a whole replay, one before each record.
pub open spec fn wait_schedule(offsets: Seq<int>) -> Seq<nat> {
    Seq::new(offsets.len(), |i: int| wait_before(offsets, i))
}

/// The seconds that have passed when the record at `i` goes out: the waits
/// up to and including its own.
pub open spec fn elapsed_at(offsets: Seq<int>, i: int) -> int
    decreases i + 1,
{
    if i < 0 {
        0
    } else {
        elapsed_at(offsets, i - 1) + wait_before(offsets, i)
    }
}

/// Whether the offsets start at or after zero and never run backwards.
pub open spec fn ascending(offsets: Seq<int>) -> bool {
    &&& forall|i: int| 0 <= i < offsets.len() ==> 0 <= #[trigger] offsets[i]
    &&& forall|i: int, j: int| 0 <= i <= j < offsets.len() ==> offsets[i] <= offsets[j]
}

/// No record goes out before its offset has passed, whatever the time codes
/// are.
pub proof fn lemma_never_early(offsets: Seq<int>, i: int)
    requires
        0 <= i < offsets.len(),
    ensures
        elapsed_at(offsets, i) >= offsets[i],
        elapsed_at(offsets, i) >= 0,
    decreases i,
{
    if i > 0 {
        lemma_never_early(offsets, i - 1);
    } else {
        assert(elapsed_at(offsets, -1) == 0);
    }
}

/// Where the time codes never run backwards, every record goes out exactly
/// at its offset.
pub proof fn lemma_on_time(offsets: Seq<int>, i: int)
    requires
        ascending(offsets),
        0 <= i < offsets.len(),
    ensures
        elapsed_at(offsets, i) == offsets[i],
    decreases i,
{
    if i > 0 {
        lemma_on_time(offsets, i - 1);
    } else {
        assert(elapsed_at(offsets, -1) == 0);
    }
}

/// The seconds to wait between the offset `last` and the offset `current`.
pub fn wait_seconds(last: i64, current: i64) -> (seconds: u64)
    ensures
        seconds == wait_between(last as int, current as int),
{
    if current > last {
        (current as i128 - last as i128) as u64
    } else {
        0
    }
}

/// The waits of a replay of `records`, one before each record, in seconds.
pub fn pacing_waits(records: &Vec<TranscriptRecord>) -> (waits: Vec<u64>)
    ensures
        waits@.len() == records@.len(),
        forall|i: int|
            0 <= i < waits@.len() ==> #[trigger] waits@[i] == wait_schedule(
                offsets_of(record_views(records@)),
            )[i],
{
    let ghost offsets = offsets_of(record_views(records@));
    let mut waits: Vec<u64> = Vec::new();
    let mut last: i64 = 0;
    let mut i: usize = 0;
    while i < records.len()
        invariant
            i <= records@.len(),
            offsets == offsets_of(record_views(records@)),
            waits@.len() == i,
            last == offset_before(offsets, i as int),
            forall|k: int| 0 <= k < i ==> #[trigger] waits@[k] == wait_schedule(offsets)[k],
        decreases records@.len() - i,
    {
        let current = parse_time_to_time(records[i].time_code.as_str());
        assert(current == offsets[i as int]);
        waits.push(wait_seconds(last, current));
        last = current;
        i = i + 1;
    }
    waits
}

} // verus!
