//! The records of a transcript and the envelopes they travel in.

use crate::registry::{SessionRegistry, SessionView};
use crate::replay::{Replay, ReplayView};
use vstd::prelude::*;

verus! {

/// What a transcript record says, as plain text.
pub ghost struct RecordView {
    pub time_code: Seq<char>,
    pub speaker: Seq<char>,
    pub sentence: Seq<char>,
}

/// One line of a transcript: who said what, and when. The time code is kept
/// as written, so that a consumer sees the transcript's own format.
#[derive(Debug)]
pub struct TranscriptRecord {
    /// Elapsed time since the start of the transcript, as written there.
    pub time_code: String,
    /// Speaker name.
    pub speaker: String,
    /// Transcript sentence.
    pub sentence: String,
}

impl View for TranscriptRecord {
    type V = RecordView;

    open spec fn view(&self) -> RecordView {
        RecordView {
            time_code: self.time_code@,
            speaker: self.speaker@,
            sentence: self.sentence@,
        }
    }
}

impl Clone for TranscriptRecord {
    fn clone(&self) -> (copy: Self)
        ensures
            copy == *self,
    {
        TranscriptRecord {
            time_code: self.time_code.clone(),
            speaker: self.speaker.clone(),
            sentence: self.sentence.clone(),
        }
    }
}

impl PartialEq for TranscriptRecord {
    fn eq(&self, other: &Self) -> (same: bool) {
        self.time_code == other.time_code && self.speaker == other.speaker && self.sentence
            == other.sentence
    }
}

impl vstd::std_specs::cmp::PartialEqSpecImpl for TranscriptRecord {
    open spec fn obeys_eq_spec() -> bool {
        true
    }

    open spec fn eq_spec(&self, other: &Self) -> bool {
        self@ == other@
    }
}

/// The views of a run of records, in the same order.
pub open spec fn record_views(records: Seq<TranscriptRecord>) -> Seq<RecordView> {
    Seq::new(records.len(), |i: int| records[i]@)
}

/// What a transcript file holds, as plain values.
pub ghost struct TranscriptFileView {
    pub filename: Seq<char>,
    pub records: Seq<RecordView>,
}

/// A transcript as it was loaded: the name of its file and its records in
/// the order of the file.
#[derive(Debug)]
pub struct TranscriptFile {
    /// Filename of the transcript.
    pub filename: String,
    /// The records, in file order.
    pub records: Vec<TranscriptRecord>,
}

impl View for TranscriptFile {
    type V = TranscriptFileView;

    open spec fn view(&self) -> TranscriptFileView {
        TranscriptFileView { filename: self.filename@, records: record_views(self.records@) }
    }
}

/// What an envelope holds, as plain values.
pub ghost struct EnvelopeView {
    pub session_id: Seq<char>,
    pub body: RecordView,
}

/// The envelope in which one record is posted to a webhook: the session it
/// belongs to, and the record.
#[derive(Debug)]
pub struct BroadcastMessage {
    /// The session that the record belongs to.
    pub session_id: String,
    /// Transcript record body.
    pub body: TranscriptRecord,
}

impl View for BroadcastMessage {
    type V = EnvelopeView;

    open spec fn view(&self) -> EnvelopeView {
        EnvelopeView { session_id: self.session_id@, body: self.body@ }
    }
}

impl Clone for BroadcastMessage {
    fn clone(&self) -> (copy: Self)
        ensures
            copy == *self,
    {
        BroadcastMessage { session_id: self.session_id.clone(), body: self.body.clone() }
    }
}

impl PartialEq for BroadcastMessage {
    fn eq(&self, other: &Self) -> (same: bool) {
        self.session_id == other.session_id && self.body == other.body
    }
}

impl vstd::std_specs::cmp::PartialEqSpecImpl for BroadcastMessage {
    open spec fn obeys_eq_spec() -> bool {
        true
    }

    open spec fn eq_spec(&self, other: &Self) -> bool {
        self@ == other@
    }
}

/// The envelope in which one record is pushed over a live connection: the
/// session it belongs to, and the record.
#[derive(Debug)]
pub struct WebSocketMessage {
    /// The session that the record belongs to.
    pub session_id: String,
    /// Transcript record body.
    pub body: TranscriptRecord,
}

impl View for WebSocketMessage {
    type V = EnvelopeView;

    open spec fn view(&self) -> EnvelopeView {
        EnvelopeView { session_id: self.session_id@, body: self.body@ }
    }
}

impl Clone for WebSocketMessage {
    fn clone(&self) -> (copy: Self)
        ensures
            copy == *self,
    {
        WebSocketMessage { session_id: self.session_id.clone(), body: self.body.clone() }
    }
}

impl PartialEq for WebSocketMessage {
    fn eq(&self, other: &Self) -> (same: bool) {
        self.session_id == other.session_id && self.body == other.body
    }
}

impl vstd::std_specs::cmp::PartialEqSpecImpl for WebSocketMessage {
    open spec fn obeys_eq_spec() -> bool {
        true
    }

    open spec fn eq_spec(&self, other: &Self) -> bool {
        self@ == other@
    }
}

/// The text frame that closes a live replay after its last record.
pub const SESSION_COMPLETE: &'static str = "SESSION_COMPLETE";

/// The text frame that answers a connection for a session that is not in
/// flight.
pub const SESSION_NOT_FOUND: &'static str = "SESSION_NOT_FOUND";

/// The status that the closing request of a webhook replay reports.
pub const STATUS_COMPLETE: &'static str = "complete";

/// The object that is posted to a webhook after the last record.
#[derive(Debug)]
pub struct CompletionNotice {
    /// Always `STATUS_COMPLETE`.
    pub status: String,
}

/// One record on its way to a sink, in the envelope of that sink.
#[derive(Debug)]
pub enum Outbound {
    /// To be posted to the webhook as a JSON object.
    Post(BroadcastMessage),
    /// To be pushed over the live connection as a JSON text frame.
    Frame(WebSocketMessage),
}

/// A record on its way, as plain values.
pub ghost enum OutboundView {
    Post(EnvelopeView),
    Frame(EnvelopeView),
}

impl View for Outbound {
    type V = OutboundView;

    open spec fn view(&self) -> OutboundView {
        match self {
            Outbound::Post(message) => OutboundView::Post(message@),
            Outbound::Frame(message) => OutboundView::Frame(message@),
        }
    }
}

/// The signal that closes a replay, in the form of its sink.
#[derive(Debug)]
pub enum CompletionSignal {
    /// To be posted to the webhook as a JSON object.
    Post(CompletionNotice),
    /// To be pushed over the live connection as a text frame, as it stands.
    Sentinel(String),
}

/// A closing signal, as plain values.
pub ghost enum CompletionView {
    Post { status: Seq<char> },
    Sentinel { text: Seq<char> },
}

impl View for CompletionSignal {
    type V = CompletionView;

    open spec fn view(&self) -> CompletionView {
        match self {
            CompletionSignal::Post(notice) => CompletionView::Post { status: notice.status@ },
            CompletionSignal::Sentinel(text) => CompletionView::Sentinel { text: text@ },
        }
    }
}

/// A sink: something that takes the records of a session for delivery.
///
/// Every sink files the session in the registry, where it stays until its
/// replay retires it. A sink that delivers on its own hands back the replay
/// to be driven at once; one that waits for its consumer hands back nothing,
/// and the replay begins when the consumer connects.
pub trait Broadcaster {
    /// The session that this sink files for `records`.
    spec fn session_for(&self, records: Seq<TranscriptRecord>) -> SessionView;

    /// Whether this sink delivers on its own, without waiting for a
    /// consumer.
    spec fn delivers_at_once(&self) -> bool;

    /// Takes `records` for delivery under the identifier `session_id`.
    fn broadcast(
        &self,
        registry: &mut SessionRegistry,
        session_id: String,
        records: Vec<TranscriptRecord>,
    ) -> (replay: Option<Replay>)
        ensures
            final(registry)@ == old(registry)@.insert(session_id@, self.session_for(records@)),
            match replay {
                Some(replay) => self.delivers_at_once() && replay@ == ReplayView::initial(
                    session_id@,
                    self.session_for(records@),
                ) && replay@.wf(),
                None => !self.delivers_at_once(),
            },
    ;
}

/// A copy of `records`, record for record.
pub fn copy_records(records: &Vec<TranscriptRecord>) -> (copy: Vec<TranscriptRecord>)
    ensures
        copy@ == records@,
{
    let copy = records.clone();
    assert(copy@ =~= records@);
    copy
}

} // verus!
