//! The scheduler of one replay.
//!
//! A replay takes the records of a session to their sink, one after the
//! other: it waits for the time between two records, delivers, and after the
//! last record sends a closing signal and retires the session. The waiting,
//! the sending and the lock on the registry are the driver's business; this
//! module decides what is done next. The driver asks for the pending action,
//! performs it, and reports back.

use crate::delivery::{
    completion_failure, judge_completion, judge_record, record_failure, DeliveryOutcome,
    ReplayError,
};
use crate::interface::{
    BroadcastMessage, CompletionNotice, CompletionSignal, CompletionView, EnvelopeView, Outbound,
    OutboundView, RecordView, TranscriptRecord, WebSocketMessage, SESSION_COMPLETE,
    STATUS_COMPLETE,
};
use crate::pacing::{offset_before, offsets_of, wait_before, wait_schedule, wait_seconds};
use crate::registry::{RewindSession, SessionRegistry, SessionView, SinkKind};
use crate::timecode::parse_time_to_time;
use vstd::prelude::*;

verus! {

/// Where a replay stands.
#[derive(Clone, Copy, Debug, PartialEq, Eq, Structural)]
pub enum ReplayPhase {
    /// The wait before the next record is due.
    Pacing,
    /// The next record is due for delivery.
    Sending,
    /// All records are delivered; the closing signal is due.
    Completing,
    /// Nothing more is sent; the session is due to leave the registry.
    Retiring,
    /// The session is retired and the result stands.
    Finished,
}

/// The envelope of `record` for the sink `sink`.
pub open spec fn outbound_for(sink: SinkKind, session_id: Seq<char>, record: RecordView)
    -> OutboundView {
    match sink {
        SinkKind::Webhook => OutboundView::Post(EnvelopeView { session_id, body: record }),
        SinkKind::LivePush => OutboundView::Frame(EnvelopeView { session_id, body: record }),
    }
}

/// The closing signal for the sink `sink`.
pub open spec fn completion_for(sink: SinkKind) -> CompletionView {
    match sink {
        SinkKind::Webhook => CompletionView::Post { status: STATUS_COMPLETE@ },
        SinkKind::LivePush => CompletionView::Sentinel { text: SESSION_COMPLETE@ },
    }
}

/// What the driver of a replay is asked to do, as plain values.
pub ghost enum ActionView {
    Wait { seconds: nat },
    Deliver { message: OutboundView },
    Complete { signal: CompletionView },
    Retire,
    Finished { failure: Option<ReplayError> },
}

/// What the driver reports back.
pub ghost enum DriverStep {
    /// The wait is over.
    Waited,
    /// A message was handed to the transport, with this outcome.
    Delivered(DeliveryOutcome),
    /// The session was taken out of the registry.
    Retired,
}

/// The state of a replay, as plain values.
pub ghost struct ReplayView {
    pub session_id: Seq<char>,
    pub session: SessionView,
    pub phase: ReplayPhase,
    pub failure: Option<ReplayError>,
}

impl ReplayView {
    /// How many records have been delivered.
    pub open spec fn cursor(self) -> nat {
        self.session.cursor
    }

    /// The records of the session.
    pub open spec fn records(self) -> Seq<RecordView> {
        self.session.records
    }

    /// Whether nothing more will be sent.
    pub open spec fn closed(self) -> bool {
        self.phase == ReplayPhase::Retiring || self.phase == ReplayPhase::Finished
    }

    /// What holds of every replay: the cursor stays within the records;
    /// while records are going out one is left; the closing signal is due
    /// only when none is left; and a replay that has closed without a
    /// failure has delivered every record.
    pub open spec fn wf(self) -> bool {
        &&& self.session.wf()
        &&& (self.phase == ReplayPhase::Pacing || self.phase == ReplayPhase::Sending)
            ==> !self.session.complete()
        &&& self.phase == ReplayPhase::Completing ==> self.session.complete()
        &&& !self.closed() ==> self.failure is None
        &&& self.closed() && self.failure is None ==> self.session.complete()
    }

    /// The replay of `session` before anything has been done.
    pub open spec fn initial(session_id: Seq<char>, session: SessionView) -> ReplayView {
        ReplayView {
            session_id,
            session,
            phase: if session.complete() {
                ReplayPhase::Completing
            } else {
                ReplayPhase::Pacing
            },
            failure: None,
        }
    }

    /// What the driver is asked to do next.
    pub open spec fn pending(self) -> ActionView {
        match self.phase {
            ReplayPhase::Pacing => ActionView::Wait {
                seconds: wait_before(offsets_of(self.records()), self.cursor() as int),
            },
            ReplayPhase::Sending => ActionView::Deliver {
                message: outbound_for(
                    self.session.sink_kind,
                    self.session_id,
                    self.records()[self.cursor() as int],
                ),
            },
            ReplayPhase::Completing => ActionView::Complete {
                signal: completion_for(self.session.sink_kind),
            },
            ReplayPhase::Retiring => ActionView::Retire,
            ReplayPhase::Finished => ActionView::Finished { failure: self.failure },
        }
    }

    /// The replay after a wait: the record is due.
    pub open spec fn after_wait(self) -> ReplayView {
        if self.phase == ReplayPhase::Pacing {
            ReplayView { phase: ReplayPhase::Sending, ..self }
        } else {
            self
        }
    }

    /// The replay after a delivery. An accepted record moves the cursor on;
    /// a failure closes the replay where it stands.
    pub open spec fn after_delivery(self, outcome: DeliveryOutcome) -> ReplayView {
        match self.phase {
            ReplayPhase::Sending => match record_failure(self.session.sink_kind, outcome) {
                Some(error) => ReplayView {
                    phase: ReplayPhase::Retiring,
                    failure: Some(error),
                    ..self
                },
                None => {
                    let session = self.session.advanced();
                    ReplayView {
                        session,
                        phase: if session.complete() {
                            ReplayPhase::Completing
                        } else {
                            ReplayPhase::Pacing
                        },
                        ..self
                    }
                },
            },
            ReplayPhase::Completing => ReplayView {
                phase: ReplayPhase::Retiring,
                failure: completion_failure(self.session.sink_kind, outcome),
                ..self
            },
            _ => self,
        }
    }

    /// The replay after its session has left the registry.
    pub open spec fn after_retirement(self) -> ReplayView {
        if self.phase == ReplayPhase::Retiring {
            ReplayView { phase: ReplayPhase::Finished, ..self }
        } else {
            self
        }
    }

    /// The replay after one report of the driver.
    pub open spec fn step(self, report: DriverStep) -> ReplayView {
        match report {
            DriverStep::Waited => self.after_wait(),
            DriverStep::Delivered(outcome) => self.after_delivery(outcome),
            DriverStep::Retired => self.after_retirement(),
        }
    }

    /// The replay after a run of reports.
    pub open spec fn run(self, reports: Seq<DriverStep>) -> ReplayView
        decreases reports.len(),
    {
        if reports.len() == 0 {
            self
        } else {
            self.run(reports.drop_last()).step(reports.last())
        }
    }

    /// Whether the report `report` is one that takes the session out of the
    /// registry.
    pub open spec fn retires(self, report: DriverStep) -> bool {
        report is Retired && self.phase == ReplayPhase::Retiring
    }

    /// How often the session left the registry in the course of a run.
    pub open spec fn retirements(self, reports: Seq<DriverStep>) -> nat
        decreases reports.len(),
    {
        if reports.len() == 0 {
            0
        } else {
            let before = self.run(reports.drop_last());
            self.retirements(reports.drop_last()) + if before.retires(reports.last()) {
                1nat
            } else {
                0nat
            }
        }
    }

    /// Whether the report `report` is the one with which the last record is
    /// delivered.
    pub open spec fn completes(self, report: DriverStep) -> bool {
        !self.session.complete() && self.step(report).session.complete()
    }

    /// How often the cursor arrived at the number of records in the course
    /// of a run.
    pub open spec fn completions(self, reports: Seq<DriverStep>) -> nat
        decreases reports.len(),
    {
        if reports.len() == 0 {
            0
        } else {
            let before = self.run(reports.drop_last());
            self.completions(reports.drop_last()) + if before.completes(reports.last()) {
                1nat
            } else {
                0nat
            }
        }
    }

    /// Whether the report `report` is about a record that was sent.
    pub open spec fn attempts(self, report: DriverStep) -> bool {
        report is Delivered && self.phase == ReplayPhase::Sending
    }

    /// The records that were sent in the course of a run, in the order in
    /// which they went out, whatever became of them.
    pub open spec fn sent(self, reports: Seq<DriverStep>) -> Seq<RecordView>
        decreases reports.len(),
    {
        if reports.len() == 0 {
            Seq::empty()
        } else {
            let before = self.run(reports.drop_last());
            if before.attempts(reports.last()) {
                self.sent(reports.drop_last()).push(before.records()[before.cursor() as int])
            } else {
                self.sent(reports.drop_last())
            }
        }
    }

    /// Whether the replay was given up over a record.
    pub open spec fn lost_a_record(self) -> bool {
        self.failure is Some && !self.session.complete()
    }
}

/// One report keeps a replay in order, leaves its session's identity and
/// records alone, and moves the cursor on by one record at most: by one
/// exactly when a record was sent and was not refused.
pub proof fn lemma_step(replay: ReplayView, report: DriverStep)
    requires
        replay.wf(),
    ensures
        replay.step(report).wf(),
        replay.step(report).session_id == replay.session_id,
        replay.step(report).records() == replay.records(),
        replay.step(report).session.sink_kind == replay.session.sink_kind,
        replay.step(report).session.filename == replay.session.filename,
        replay.step(report).cursor() == replay.cursor() + if replay.attempts(report)
            && !replay.step(report).lost_a_record() {
            1nat
        } else {
            0nat
        },
{
}

/// The cursor never goes back and never passes the number of records,
/// whatever the driver reports and in whatever order.
pub proof fn lemma_cursor_monotone(replay: ReplayView, reports: Seq<DriverStep>)
    requires
        replay.wf(),
    ensures
        replay.run(reports).wf(),
        replay.run(reports).session_id == replay.session_id,
        replay.run(reports).records() == replay.records(),
        replay.run(reports).session.sink_kind == replay.session.sink_kind,
        replay.cursor() <= replay.run(reports).cursor() <= replay.records().len(),
    decreases reports.len(),
{
    if reports.len() > 0 {
        lemma_cursor_monotone(replay, reports.drop_last());
        lemma_step(replay.run(reports.drop_last()), reports.last());
    }
}

/// Once a replay has closed, nothing is sent any more: whatever the driver
/// reports, the cursor and the failure stay as they are, and the one thing
/// left to do is to retire the session.
pub proof fn lemma_closed_stays_closed(replay: ReplayView, reports: Seq<DriverStep>)
    requires
        replay.closed(),
    ensures
        replay.run(reports).closed(),
        replay.run(reports).session == replay.session,
        replay.run(reports).failure == replay.failure,
        replay.run(reports).pending() is Retire || replay.run(reports).pending() is Finished,
        replay.sent(reports).len() == 0,
    decreases reports.len(),
{
    if reports.len() > 0 {
        lemma_closed_stays_closed(replay, reports.drop_last());
    }
}

/// A replay that is given up over a record closes at once, with the cursor
/// on that record.
pub proof fn lemma_failure_closes(replay: ReplayView, outcome: DeliveryOutcome)
    requires
        replay.wf(),
        replay.phase == ReplayPhase::Sending,
        record_failure(replay.session.sink_kind, outcome) is Some,
    ensures
        replay.after_delivery(outcome).phase == ReplayPhase::Retiring,
        replay.after_delivery(outcome).failure == record_failure(
            replay.session.sink_kind,
            outcome,
        ),
        replay.after_delivery(outcome).cursor() == replay.cursor(),
        replay.after_delivery(outcome).lost_a_record(),
{
}

/// The session leaves the registry once at most, and a replay that has
/// finished has retired its session exactly once.
pub proof fn lemma_retired_once(replay: ReplayView, reports: Seq<DriverStep>)
    requires
        replay.wf(),
        replay.phase != ReplayPhase::Finished,
    ensures
        replay.retirements(reports) <= 1,
        replay.retirements(reports) == 1 <==> replay.run(reports).phase == ReplayPhase::Finished,
    decreases reports.len(),
{
    if reports.len() > 0 {
        lemma_retired_once(replay, reports.drop_last());
    }
}

/// The records go out in the order of the transcript, none is left out and
/// none goes out twice: what was sent in a run is the stretch of the records
/// that begins at the cursor. Its length is the way the cursor has gone, and
/// one more where the replay was given up over a record.
pub proof fn lemma_sent_in_order(replay: ReplayView, reports: Seq<DriverStep>)
    requires
        replay.wf(),
        replay.failure is None,
    ensures
        replay.sent(reports).len() == replay.run(reports).cursor() - replay.cursor()
            + if replay.run(reports).lost_a_record() {
            1int
        } else {
            0int
        },
        replay.cursor() + replay.sent(reports).len() <= replay.records().len(),
        replay.sent(reports) == replay.records().subrange(
            replay.cursor() as int,
            (replay.cursor() + replay.sent(reports).len()) as int,
        ),
    decreases reports.len(),
{
    if reports.len() > 0 {
        let shorter = reports.drop_last();
        let before = replay.run(shorter);
        lemma_sent_in_order(replay, shorter);
        lemma_cursor_monotone(replay, shorter);
        lemma_step(before, reports.last());
        if before.attempts(reports.last()) {
            assert(!before.lost_a_record());
            assert(replay.sent(shorter).len() == before.cursor() - replay.cursor());
            assert(replay.sent(reports) == replay.sent(shorter).push(
                replay.records()[before.cursor() as int],
            ));
            assert(replay.records().subrange(
                replay.cursor() as int,
                (replay.cursor() + replay.sent(shorter).len()) as int,
            ).push(replay.records()[before.cursor() as int]) == replay.records().subrange(
                replay.cursor() as int,
                (replay.cursor() + replay.sent(shorter).len() + 1) as int,
            ));
        }
    } else {
        assert(replay.sent(reports) == replay.records().subrange(
            replay.cursor() as int,
            replay.cursor() as int,
        ));
    }
}

/// The cursor arrives at the number of records once at most, and exactly
/// once in a run that takes a session with records left to the end of them.
pub proof fn lemma_completed_once(replay: ReplayView, reports: Seq<DriverStep>)
    requires
        replay.wf(),
    ensures
        replay.completions(reports) <= 1,
        replay.completions(reports) == 1 <==> !replay.session.complete() && replay.run(
            reports,
        ).session.complete(),
    decreases reports.len(),
{
    if reports.len() > 0 {
        let shorter = reports.drop_last();
        lemma_completed_once(replay, shorter);
        lemma_cursor_monotone(replay, shorter);
        lemma_step(replay.run(shorter), reports.last());
    }
}

/// A replay that finishes without a failure has sent every record from its
/// cursor on, each once and in order, and has retired its session once.
pub proof fn lemma_finished_replay(replay: ReplayView, reports: Seq<DriverStep>)
    requires
        replay.wf(),
        replay.phase != ReplayPhase::Finished,
        replay.failure is None,
        replay.run(reports).phase == ReplayPhase::Finished,
        replay.run(reports).failure is None,
    ensures
        replay.run(reports).cursor() == replay.records().len(),
        replay.sent(reports) == replay.records().skip(replay.cursor() as int),
        replay.retirements(reports) == 1,
        replay.completions(reports) == if replay.session.complete() {
            0nat
        } else {
            1nat
        },
{
    lemma_completed_once(replay, reports);
    lemma_cursor_monotone(replay, reports);
    lemma_sent_in_order(replay, reports);
    lemma_retired_once(replay, reports);
    assert(replay.records().skip(replay.cursor() as int) == replay.records().subrange(
        replay.cursor() as int,
        replay.records().len() as int,
    ));
}

/// Before each record the driver is asked to wait for the time between the
/// record before it and itself, and never for less than nothing.
pub proof fn lemma_waits_follow_schedule(replay: ReplayView)
    requires
        replay.wf(),
        replay.phase == ReplayPhase::Pacing,
    ensures
        replay.pending() == (ActionView::Wait {
            seconds: wait_schedule(offsets_of(replay.records()))[replay.cursor() as int],
        }),
{
}

/// What the driver of a replay is asked to do.
#[derive(Debug)]
pub enum ReplayAction {
    /// Wait for so many seconds, then report that the wait is over.
    Wait { seconds: u64 },
    /// Deliver this record, then report the outcome.
    Deliver(Outbound),
    /// Deliver the closing signal, then report the outcome.
    Complete(CompletionSignal),
    /// Take the session out of the registry: call `Replay::retire`.
    Retire,
    /// The replay is over, with this result.
    Finished(Result<(), ReplayError>),
}

impl View for ReplayAction {
    type V = ActionView;

    open spec fn view(&self) -> ActionView {
        match self {
            ReplayAction::Wait { seconds } => ActionView::Wait { seconds: *seconds as nat },
            ReplayAction::Deliver(message) => ActionView::Deliver { message: message@ },
            ReplayAction::Complete(signal) => ActionView::Complete { signal: signal@ },
            ReplayAction::Retire => ActionView::Retire,
            ReplayAction::Finished(result) => ActionView::Finished {
                failure: match result {
                    Ok(_) => None,
                    Err(error) => Some(*error),
                },
            },
        }
    }
}

/// How a replay closed: why it was given up, if it was, and whether its
/// session has left the registry.
#[derive(Clone, Copy, Debug)]
struct Closing {
    failure: Option<ReplayError>,
    retired: bool,
}

/// One replay under way.
#[derive(Debug)]
pub struct Replay {
    session_id: String,
    session: RewindSession,
    waited: bool,
    closing: Option<Closing>,
}

impl View for Replay {
    type V = ReplayView;

    closed spec fn view(&self) -> ReplayView {
        ReplayView {
            session_id: self.session_id@,
            session: self.session@,
            phase: match self.closing {
                Some(closing) => if closing.retired {
                    ReplayPhase::Finished
                } else {
                    ReplayPhase::Retiring
                },
                None => if self.session@.complete() {
                    ReplayPhase::Completing
                } else if self.waited {
                    ReplayPhase::Sending
                } else {
                    ReplayPhase::Pacing
                },
            },
            failure: match self.closing {
                Some(closing) => closing.failure,
                None => None,
            },
        }
    }
}

impl Replay {
    #[verifier::type_invariant]
    spec fn consistent(&self) -> bool {
        &&& self.session@.wf()
        &&& (self.closing matches Some(closing) && closing.failure is None)
            ==> self.session@.complete()
    }

    /// Begins the replay of `session` under the identifier `session_id`.
    pub fn start(session_id: String, session: RewindSession) -> (replay: Self)
        ensures
            replay@ == ReplayView::initial(session_id@, session@),
            replay@.wf(),
    {
        // Reading the cursor brings the session's own invariant along.
        let _ = session.current_index();
        Replay { session_id, session, waited: false, closing: None }
    }

    /// The identifier of the session.
    pub fn session_id(&self) -> (id: &str)
        ensures
            id@ == self@.session_id,
    {
        self.session_id.as_str()
    }

    /// The session as it stands, with its cursor.
    pub fn session(&self) -> (session: &RewindSession)
        ensures
            session@ == self@.session,
    {
        &self.session
    }

    /// Where the replay stands.
    pub fn phase(&self) -> (phase: ReplayPhase)
        ensures
            phase == self@.phase,
            self@.wf(),
    {
        proof {
            use_type_invariant(self);
        }
        match self.closing {
            Some(closing) => if closing.retired {
                ReplayPhase::Finished
            } else {
                ReplayPhase::Retiring
            },
            None => if self.session.is_complete() {
                ReplayPhase::Completing
            } else if self.waited {
                ReplayPhase::Sending
            } else {
                ReplayPhase::Pacing
            },
        }
    }

    /// Whether the replay is over.
    pub fn is_finished(&self) -> (done: bool)
        ensures
            done == (self@.phase == ReplayPhase::Finished),
    {
        match self.phase() {
            ReplayPhase::Finished => true,
            _ => false,
        }
    }

    /// Why the replay was given up, if it was.
    pub fn failure(&self) -> (failure: Option<ReplayError>)
        ensures
            failure == self@.failure,
    {
        match self.closing {
            Some(closing) => closing.failure,
            None => None,
        }
    }

    /// The offset of the record that went out last, or zero before the
    /// first.
    fn last_offset(&self) -> (seconds: i64)
        ensures
            seconds == offset_before(offsets_of(self@.records()), self@.cursor() as int),
    {
        let cursor = self.session.current_index();
        if cursor == 0 {
            0
        } else {
            let records = self.session.records();
            let seconds = parse_time_to_time(records[cursor - 1].time_code.as_str());
            assert(seconds == offsets_of(self@.records())[cursor - 1]);
            seconds
        }
    }

    /// The envelope of `record` for the sink of this replay.
    fn envelope(&self, record: &TranscriptRecord) -> (message: Outbound)
        ensures
            message@ == outbound_for(self@.session.sink_kind, self@.session_id, record@),
    {
        match self.session.sink_kind() {
            SinkKind::Webhook => Outbound::Post(
                BroadcastMessage { session_id: self.session_id.clone(), body: record.clone() },
            ),
            SinkKind::LivePush => Outbound::Frame(
                WebSocketMessage { session_id: self.session_id.clone(), body: record.clone() },
            ),
        }
    }

    /// The closing signal for the sink of this replay.
    fn closing_signal(&self) -> (signal: CompletionSignal)
        ensures
            signal@ == completion_for(self@.session.sink_kind),
    {
        match self.session.sink_kind() {
            SinkKind::Webhook => CompletionSignal::Post(
                CompletionNotice { status: STATUS_COMPLETE.to_owned() },
            ),
            SinkKind::LivePush => CompletionSignal::Sentinel(SESSION_COMPLETE.to_owned()),
        }
    }

    /// What the driver is to do next.
    pub fn pending(&self) -> (action: ReplayAction)
        ensures
            action@ == self@.pending(),
            self@.wf(),
    {
        proof {
            use_type_invariant(self);
        }
        match self.closing {
            Some(closing) => {
                if closing.retired {
                    ReplayAction::Finished(
                        match closing.failure {
                            None => Ok(()),
                            Some(error) => Err(error),
                        },
                    )
                } else {
                    ReplayAction::Retire
                }
            },
            None => match self.session.current() {
                Some(record) => {
                    if self.waited {
                        ReplayAction::Deliver(self.envelope(record))
                    } else {
                        let current = parse_time_to_time(record.time_code.as_str());
                        ReplayAction::Wait { seconds: wait_seconds(self.last_offset(), current) }
                    }
                },
                None => ReplayAction::Complete(self.closing_signal()),
            },
        }
    }

    /// Takes note that the wait is over.
    pub fn waited(&mut self)
        ensures
            final(self)@ == old(self)@.after_wait(),
            final(self)@.wf(),
    {
        proof {
            use_type_invariant(&*self);
        }
        match self.phase() {
            ReplayPhase::Pacing => {
                self.waited = true;
            },
            _ => {},
        }
    }

    /// Takes note of what became of the message that was due: the record,
    /// or the closing signal.
    pub fn delivered(&mut self, outcome: DeliveryOutcome)
        ensures
            final(self)@ == old(self)@.after_delivery(outcome),
            final(self)@.wf(),
    {
        proof {
            use_type_invariant(&*self);
        }
        match self.phase() {
            ReplayPhase::Sending => {
                match judge_record(self.session.sink_kind(), outcome) {
                    Some(error) => {
                        self.closing = Some(Closing { failure: Some(error), retired: false });
                    },
                    None => {
                        self.session.advance();
                        self.waited = false;
                    },
                }
            },
            ReplayPhase::Completing => {
                let failure = judge_completion(self.session.sink_kind(), outcome);
                self.closing = Some(Closing { failure, retired: false });
            },
            _ => {},
        }
    }

    /// Takes the session out of `registry`, if that is what is due, and
    /// says whether it did. At any other time nothing happens.
    pub fn retire(&mut self, registry: &mut SessionRegistry) -> (retired: bool)
        ensures
            final(self)@ == old(self)@.after_retirement(),
            final(self)@.wf(),
            retired == (old(self)@.phase == ReplayPhase::Retiring),
            final(registry)@ == if retired {
                old(registry)@.remove(old(self)@.session_id)
            } else {
                old(registry)@
            },
    {
        proof {
            use_type_invariant(&*self);
        }
        match self.closing {
            Some(closing) => {
                if !closing.retired {
                    registry.remove(self.session_id.as_str());
                    self.closing = Some(Closing { failure: closing.failure, retired: true });
                    true
                } else {
                    false
                }
            },
            None => false,
        }
    }
}

} // verus!
