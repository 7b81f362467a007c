//! The bridge: live transcription events, taken from their source and
//! forwarded to a webhook as they come.
//!
//! The bridge connects, authenticates, and then reads frames. Each frame is
//! sorted by its `type`; only transcription frames carry an event, and only
//! events that could be decoded are queued for the forwarder. The forwarder
//! posts each event on its own and goes on whatever becomes of it: a live
//! event cannot be sent again, so losing one must not hold up the rest.
//!
//! Connecting, reading and posting are the driver's business. This module
//! decides what each frame means and what is done with it.

use crate::delivery::{is_success_status, DeliveryOutcome};
use crate::json::{json_members, member_text, read_members, text_of};
use crate::text::{copy_text, joined, same_text, text_view};
use tokio::sync::mpsc::{UnboundedReceiver, UnboundedSender};
use vstd::prelude::*;

verus! {

/// The sending half of tokio's unbounded channel.
#[verifier::external_type_specification]
#[verifier::external_body]
#[verifier::reject_recursive_types(T)]
pub struct ExUnboundedSender<T>(UnboundedSender<T>);

/// The receiving half of tokio's unbounded channel.
#[verifier::external_type_specification]
#[verifier::external_body]
#[verifier::reject_recursive_types(T)]
pub struct ExUnboundedReceiver<T>(UnboundedReceiver<T>);

/// The address of the live transcription source.
pub const SOURCE_URL: &'static str = "wss://api.fireflies.ai";

/// The marker that every forwarded event carries in `source`.
pub const FORWARD_SOURCE: &'static str = "bridge";

/// The seconds after which a request that forwards an event is given up.
pub const REQUEST_TIMEOUT_SECONDS: u64 = 30;

/// The name of the member that tells the kind of a frame.
pub const TYPE_MEMBER: &'static str = "type";

/// The name of the member that holds the event of a transcription frame.
pub const DATA_MEMBER: &'static str = "data";

/// What comes before the token in the authentication payload.
pub const TOKEN_PREFIX: &'static str = "Bearer ";

/// The authentication frame up to its payload.
pub const AUTHENTICATE_HEAD: &'static str = "{\"type\":\"authenticate\",\"data\":";

/// The authentication frame after its payload.
pub const AUTHENTICATE_TAIL: &'static str = "}";

/// What the bridge needs to know: whom to speak for, which transcript to
/// follow, and where to forward what it hears.
#[derive(Debug)]
pub struct FirefliesConfig {
    pub api_token: String,
    pub transcript_id: String,
    pub webhook_url: String,
}

/// A configuration, as plain values.
pub ghost struct ConfigView {
    pub api_token: Seq<char>,
    pub transcript_id: Seq<char>,
    pub webhook_url: Seq<char>,
}

impl View for FirefliesConfig {
    type V = ConfigView;

    open spec fn view(&self) -> ConfigView {
        ConfigView {
            api_token: self.api_token@,
            transcript_id: self.transcript_id@,
            webhook_url: self.webhook_url@,
        }
    }
}

impl Clone for FirefliesConfig {
    fn clone(&self) -> (copy: Self)
        ensures
            copy == *self,
    {
        FirefliesConfig {
            api_token: self.api_token.clone(),
            transcript_id: self.transcript_id.clone(),
            webhook_url: self.webhook_url.clone(),
        }
    }
}

/// What the bridge presents to the source to be let in.
#[derive(Debug)]
pub struct AuthPayload {
    pub token: String,
    pub transcript_id: String,
}

/// An authentication payload, as plain values.
pub ghost struct AuthView {
    pub token: Seq<char>,
    pub transcript_id: Seq<char>,
}

impl View for AuthPayload {
    type V = AuthView;

    open spec fn view(&self) -> AuthView {
        AuthView { token: self.token@, transcript_id: self.transcript_id@ }
    }
}

impl AuthPayload {
    /// The payload for `config`: its token as a bearer token, and its
    /// transcript.
    pub fn for_config(config: &FirefliesConfig) -> (payload: Self)
        ensures
            payload@ == (AuthView {
                token: TOKEN_PREFIX@ + config@.api_token,
                transcript_id: config@.transcript_id,
            }),
    {
        AuthPayload {
            token: joined(TOKEN_PREFIX, config.api_token.as_str()),
            transcript_id: config.transcript_id.clone(),
        }
    }
}

/// The frame that authenticates the bridge, around the JSON text
/// `payload_json` of its payload.
pub fn authenticate_frame(payload_json: &str) -> (frame: String)
    ensures
        frame@ == AUTHENTICATE_HEAD@ + payload_json@ + AUTHENTICATE_TAIL@,
{
    let head = joined(AUTHENTICATE_HEAD, payload_json);
    joined(head.as_str(), AUTHENTICATE_TAIL)
}

/// How sure the source is of an event. The number is kept as the 64 bits of
/// its IEEE 754 form, which is what the bridge passes on; it never computes
/// with it.
#[derive(Clone, Copy, Debug, PartialEq, Eq, Structural)]
pub struct Confidence {
    pub bits: u64,
}

impl Confidence {
    /// The confidence with the bits `bits`.
    pub fn from_bits(bits: u64) -> (confidence: Self)
        ensures
            confidence.bits == bits,
    {
        Confidence { bits }
    }

    /// The bits of the confidence.
    pub fn to_bits(&self) -> (bits: u64)
        ensures
            bits == self.bits,
    {
        self.bits
    }
}

/// One event of the live source: who said what, and when.
#[derive(Debug)]
pub struct TranscriptionEvent {
    pub event_type: String,
    pub timestamp: i64,
    pub speaker: String,
    pub text: String,
    pub confidence: Option<Confidence>,
    pub is_final: Option<bool>,
    pub transcript_id: Option<String>,
}

/// An event, as plain values.
pub ghost struct EventView {
    pub event_type: Seq<char>,
    pub timestamp: int,
    pub speaker: Seq<char>,
    pub text: Seq<char>,
    pub confidence: Option<Confidence>,
    pub is_final: Option<bool>,
    pub transcript_id: Option<Seq<char>>,
}

impl View for TranscriptionEvent {
    type V = EventView;

    open spec fn view(&self) -> EventView {
        EventView {
            event_type: self.event_type@,
            timestamp: self.timestamp as int,
            speaker: self.speaker@,
            text: self.text@,
            confidence: self.confidence,
            is_final: self.is_final,
            transcript_id: text_view(self.transcript_id),
        }
    }
}

impl Clone for TranscriptionEvent {
    fn clone(&self) -> (copy: Self)
        ensures
            copy == *self,
    {
        TranscriptionEvent {
            event_type: self.event_type.clone(),
            timestamp: self.timestamp,
            speaker: self.speaker.clone(),
            text: self.text.clone(),
            confidence: self.confidence,
            is_final: self.is_final,
            transcript_id: copy_text(&self.transcript_id),
        }
    }
}

/// The kinds of frame that the source sends.
#[derive(Clone, Copy, Debug, PartialEq, Eq, Structural)]
pub enum FrameKind {
    /// `auth.success`: the bridge was let in.
    AuthSuccess,
    /// `auth.failed`: the bridge was turned away.
    AuthFailed,
    /// `connection.established`.
    ConnectionEstablished,
    /// `connection.error`.
    ConnectionError,
    /// `transcription.broadcast`: the frame carries an event.
    Transcription,
    /// Any other frame: one of another type, without a type, or no JSON at
    /// all.
    Unrecognized,
}

/// The kind of a frame whose `type` is `frame_type`.
pub open spec fn frame_kind(frame_type: Option<Seq<char>>) -> FrameKind {
    match frame_type {
        Some(name) => {
            if name == "auth.success"@ {
                FrameKind::AuthSuccess
            } else if name == "auth.failed"@ {
                FrameKind::AuthFailed
            } else if name == "connection.established"@ {
                FrameKind::ConnectionEstablished
            } else if name == "connection.error"@ {
                FrameKind::ConnectionError
            } else if name == "transcription.broadcast"@ {
                FrameKind::Transcription
            } else {
                FrameKind::Unrecognized
            }
        },
        None => FrameKind::Unrecognized,
    }
}

/// The kind of the frame `text`: that of the string in its member `type`,
/// where the text is a JSON object with such a member.
pub open spec fn frame_kind_of(text: Seq<char>) -> FrameKind {
    match json_members(text) {
        Some(members) => frame_kind(member_text(members, TYPE_MEMBER@)),
        None => FrameKind::Unrecognized,
    }
}

/// The view of a `type` that may be missing.
pub open spec fn type_view(frame_type: Option<&str>) -> Option<Seq<char>> {
    match frame_type {
        Some(name) => Some(name@),
        None => None,
    }
}

/// Sorts a frame by its `type`.
pub fn classify_type(frame_type: Option<&str>) -> (kind: FrameKind)
    ensures
        kind == frame_kind(type_view(frame_type)),
{
    match frame_type {
        Some(name) => {
            if same_text(name, "auth.success") {
                FrameKind::AuthSuccess
            } else if same_text(name, "auth.failed") {
                FrameKind::AuthFailed
            } else if same_text(name, "connection.established") {
                FrameKind::ConnectionEstablished
            } else if same_text(name, "connection.error") {
                FrameKind::ConnectionError
            } else if same_text(name, "transcription.broadcast") {
                FrameKind::Transcription
            } else {
                FrameKind::Unrecognized
            }
        },
        None => FrameKind::Unrecognized,
    }
}

/// Sorts the frame `text`.
pub fn classify_frame(text: &str) -> (kind: FrameKind)
    ensures
        kind == frame_kind_of(text@),
{
    match read_members(text) {
        Some(members) => match text_of(&members, TYPE_MEMBER) {
            Some(name) => classify_type(Some(name.as_str())),
            None => classify_type(None),
        },
        None => FrameKind::Unrecognized,
    }
}

/// Where the bridge stands.
#[derive(Clone, Copy, Debug, PartialEq, Eq, Structural)]
pub enum BridgeState {
    /// The connection to the source is being made.
    Connecting,
    /// The connection stands; the authentication frame is due.
    Authenticating,
    /// Frames are read as they come.
    Streaming,
    /// The bridge is done.
    Closed,
}

/// What the driver of the bridge is asked to do.
#[derive(Debug)]
pub enum BridgeAction {
    /// Connect to the source at `SOURCE_URL`, then report with `connected`.
    Connect,
    /// Send the authentication frame for this payload, then report with
    /// `authenticated`.
    Authenticate(AuthPayload),
    /// Read the next message, then report with `received`.
    Receive,
    /// Stop: the bridge is closed.
    Stop,
}

/// What the driver is asked to do, as plain values.
pub ghost enum BridgeActionView {
    Connect,
    Authenticate(AuthView),
    Receive,
    Stop,
}

impl View for BridgeAction {
    type V = BridgeActionView;

    open spec fn view(&self) -> BridgeActionView {
        match self {
            BridgeAction::Connect => BridgeActionView::Connect,
            BridgeAction::Authenticate(payload) => BridgeActionView::Authenticate(payload@),
            BridgeAction::Receive => BridgeActionView::Receive,
            BridgeAction::Stop => BridgeActionView::Stop,
        }
    }
}

/// A message as it came from the source.
#[derive(Debug)]
pub enum Inbound {
    /// A text frame.
    Text(String),
    /// The source closed the connection, or the stream of messages ended.
    Close,
    /// Reading failed.
    Failed,
    /// A message of any other kind: binary, ping, pong.
    Other,
}

/// What the bridge makes of a message.
#[derive(Clone, Copy, Debug, PartialEq, Eq, Structural)]
pub enum FrameVerdict {
    /// The frame carries an event: decode it and report with `decoded`.
    Decode,
    /// The frame is of this kind and carries nothing to forward.
    Note(FrameKind),
    /// The message is passed over.
    Skip,
    /// The bridge has closed.
    Stop,
}

/// What is done with a frame of the kind `kind`.
pub open spec fn frame_verdict(kind: FrameKind) -> FrameVerdict {
    if kind == FrameKind::Transcription {
        FrameVerdict::Decode
    } else {
        FrameVerdict::Note(kind)
    }
}

/// What is done with a frame of the kind `kind`: a transcription frame is
/// decoded, any other is noted and carries nothing further.
pub fn verdict_for(kind: FrameKind) -> (verdict: FrameVerdict)
    ensures
        verdict == frame_verdict(kind),
{
    match kind {
        FrameKind::Transcription => FrameVerdict::Decode,
        _ => FrameVerdict::Note(kind),
    }
}

/// What became of the event of a transcription frame.
#[derive(Clone, Copy, Debug, PartialEq, Eq, Structural)]
pub enum FrameReport {
    /// The event was decoded and is in the queue.
    Queued,
    /// The event was decoded, but the queue has no reader any more.
    QueueClosed,
    /// The frame held no event that could be decoded; it is dropped.
    DecodeFailed,
}

/// What became of an event, from whether it could be decoded and whether
/// the queue took it.
pub open spec fn frame_report(decoded: bool, taken: bool) -> FrameReport {
    if !decoded {
        FrameReport::DecodeFailed
    } else if taken {
        FrameReport::Queued
    } else {
        FrameReport::QueueClosed
    }
}

/// What became of an event, from whether it could be decoded and whether
/// the queue took it.
pub fn report_for(decoded: bool, taken: bool) -> (report: FrameReport)
    ensures
        report == frame_report(decoded, taken),
{
    if !decoded {
        FrameReport::DecodeFailed
    } else if taken {
        FrameReport::Queued
    } else {
        FrameReport::QueueClosed
    }
}

/// The state after the attempt to connect.
pub open spec fn after_connect(state: BridgeState, connected: bool) -> BridgeState {
    if state == BridgeState::Connecting {
        if connected {
            BridgeState::Authenticating
        } else {
            BridgeState::Closed
        }
    } else {
        state
    }
}

/// The state after the attempt to send the authentication frame.
pub open spec fn after_authenticate(state: BridgeState, sent: bool) -> BridgeState {
    if state == BridgeState::Authenticating {
        if sent {
            BridgeState::Streaming
        } else {
            BridgeState::Closed
        }
    } else {
        state
    }
}

/// Whether a message ends the stream.
pub open spec fn ends_stream(message: Inbound) -> bool {
    message is Close || message is Failed
}

/// The state after a message.
pub open spec fn after_message(state: BridgeState, message: Inbound) -> BridgeState {
    if state == BridgeState::Streaming && ends_stream(message) {
        BridgeState::Closed
    } else {
        state
    }
}

/// What the bridge makes of a message. Outside of streaming every message
/// is passed over.
pub open spec fn message_verdict(state: BridgeState, message: Inbound) -> FrameVerdict {
    if state != BridgeState::Streaming {
        FrameVerdict::Skip
    } else {
        match message {
            Inbound::Text(text) => frame_verdict(frame_kind_of(text@)),
            Inbound::Close => FrameVerdict::Stop,
            Inbound::Failed => FrameVerdict::Stop,
            Inbound::Other => FrameVerdict::Skip,
        }
    }
}

/// How far a bridge has come: the states in the order in which a bridge
/// passes through them.
pub open spec fn progress(state: BridgeState) -> nat {
    match state {
        BridgeState::Connecting => 0,
        BridgeState::Authenticating => 1,
        BridgeState::Streaming => 2,
        BridgeState::Closed => 3,
    }
}

/// A bridge only moves forward: no report takes it back to a state that it
/// has left, it reaches streaming only by way of connecting and
/// authenticating, and once closed it stays closed.
pub proof fn lemma_bridge_moves_forward(state: BridgeState, ok: bool, message: Inbound)
    ensures
        progress(after_connect(state, ok)) >= progress(state),
        progress(after_authenticate(state, ok)) >= progress(state),
        progress(after_message(state, message)) >= progress(state),
        after_connect(state, ok) == BridgeState::Streaming ==> state == BridgeState::Streaming,
        after_authenticate(state, ok) == BridgeState::Streaming ==> state
            == BridgeState::Streaming || state == BridgeState::Authenticating,
        after_message(state, message) == BridgeState::Streaming ==> state
            == BridgeState::Streaming,
        state == BridgeState::Closed ==> after_connect(state, ok) == BridgeState::Closed
            && after_authenticate(state, ok) == BridgeState::Closed && after_message(
            state,
            message,
        ) == BridgeState::Closed,
{
}

/// Only a streaming bridge asks for an event to be decoded, and only for a
/// transcription frame.
pub proof fn lemma_only_transcriptions_are_decoded(state: BridgeState, message: Inbound)
    requires
        message_verdict(state, message) == FrameVerdict::Decode,
    ensures
        state == BridgeState::Streaming,
        message matches Inbound::Text(text) && frame_kind_of(text@) == FrameKind::Transcription,
{
}

/// The reasons for which a bridge cannot be had.
#[derive(Clone, Copy, Debug, PartialEq, Eq, Structural)]
pub enum BridgeError {
    /// No bridge is known under the identifier.
    UnknownBridge,
    /// The bridge could not be started.
    Unavailable,
}

/// Opens the queue between the bridge and the forwarder with
/// `tokio::sync::mpsc::unbounded_channel`. Nothing is claimed of the two
/// halves.
#[verifier::external_body]
fn open_queue() -> (halves: (
    UnboundedSender<TranscriptionEvent>,
    UnboundedReceiver<TranscriptionEvent>,
)) {
    tokio::sync::mpsc::unbounded_channel()
}

/// Hands `event` to the queue with `UnboundedSender::send`, which never
/// waits. Where the receiving half is closed or gone, `send` refuses the
/// event and hands it back in its error, and so does this: that is what the
/// contract claims. Nothing is claimed of which of the two it will be.
#[verifier::external_body]
fn send_on(sender: &UnboundedSender<TranscriptionEvent>, event: TranscriptionEvent) -> (sent:
    Result<(), TranscriptionEvent>)
    ensures
        sent matches Err(refused) ==> refused == event,
{
    sender.send(event).map_err(|error| error.0)
}

/// The bridge to the live source: what it is configured for, the queue it
/// fills, and where it stands.
pub struct FirefliesBridge {
    pub config: FirefliesConfig,
    pub webhook_sender: UnboundedSender<TranscriptionEvent>,
    pub state: BridgeState,
}

impl FirefliesBridge {
    /// A bridge for `config` that has not connected yet, and the reading
    /// half of its queue.
    pub fn new(config: FirefliesConfig) -> (made: Result<
        (Self, UnboundedReceiver<TranscriptionEvent>),
        BridgeError,
    >)
        ensures
            made matches Ok((bridge, _)) && bridge.config == config && bridge.state
                == BridgeState::Connecting,
    {
        let (sender, receiver) = open_queue();
        Ok((FirefliesBridge { config, webhook_sender: sender, state: BridgeState::Connecting }, receiver))
    }

    /// What the driver is asked to do in the state `state`.
    pub open spec fn action_in(config: ConfigView, state: BridgeState) -> BridgeActionView {
        match state {
            BridgeState::Connecting => BridgeActionView::Connect,
            BridgeState::Authenticating => BridgeActionView::Authenticate(
                AuthView {
                    token: TOKEN_PREFIX@ + config.api_token,
                    transcript_id: config.transcript_id,
                },
            ),
            BridgeState::Streaming => BridgeActionView::Receive,
            BridgeState::Closed => BridgeActionView::Stop,
        }
    }

    /// What the driver is to do next.
    pub fn pending(&self) -> (action: BridgeAction)
        ensures
            action@ == Self::action_in(self.config@, self.state),
    {
        match self.state {
            BridgeState::Connecting => BridgeAction::Connect,
            BridgeState::Authenticating => BridgeAction::Authenticate(
                AuthPayload::for_config(&self.config),
            ),
            BridgeState::Streaming => BridgeAction::Receive,
            BridgeState::Closed => BridgeAction::Stop,
        }
    }

    /// Takes note of whether the connection was made.
    pub fn connected(&mut self, connected: bool)
        ensures
            final(self).state == after_connect(old(self).state, connected),
            final(self).config == old(self).config,
            final(self).webhook_sender == old(self).webhook_sender,
    {
        match self.state {
            BridgeState::Connecting => {
                if connected {
                    self.state = BridgeState::Authenticating;
                } else {
                    self.state = BridgeState::Closed;
                }
            },
            _ => {},
        }
    }

    /// Takes note of whether the authentication frame was sent.
    pub fn authenticated(&mut self, sent: bool)
        ensures
            final(self).state == after_authenticate(old(self).state, sent),
            final(self).config == old(self).config,
            final(self).webhook_sender == old(self).webhook_sender,
    {
        match self.state {
            BridgeState::Authenticating => {
                if sent {
                    self.state = BridgeState::Streaming;
                } else {
                    self.state = BridgeState::Closed;
                }
            },
            _ => {},
        }
    }

    /// Takes note of a message and says what is to be done with it.
    pub fn received(&mut self, message: &Inbound) -> (verdict: FrameVerdict)
        ensures
            verdict == message_verdict(old(self).state, *message),
            final(self).state == after_message(old(self).state, *message),
            final(self).config == old(self).config,
            final(self).webhook_sender == old(self).webhook_sender,
    {
        match self.state {
            BridgeState::Streaming => match message {
                Inbound::Text(text) => verdict_for(classify_frame(text.as_str())),
                Inbound::Close => {
                    self.state = BridgeState::Closed;
                    FrameVerdict::Stop
                },
                Inbound::Failed => {
                    self.state = BridgeState::Closed;
                    FrameVerdict::Stop
                },
                Inbound::Other => FrameVerdict::Skip,
            },
            _ => FrameVerdict::Skip,
        }
    }

    /// Puts `event` into the queue. A queue that has no reader any more
    /// does not take the event: the event then comes back as it was handed
    /// over, so that nothing is lost without the caller knowing.
    pub fn send_event(&self, event: TranscriptionEvent) -> (sent: Result<(), TranscriptionEvent>)
        ensures
            sent matches Err(refused) ==> refused == event,
    {
        send_on(&self.webhook_sender, event)
    }

    /// Takes the event of a transcription frame, if it could be decoded,
    /// and queues it. An event that could not be decoded is dropped; one that
    /// could is handed to the queue exactly once.
    pub fn decoded(&self, event: Option<TranscriptionEvent>) -> (report: FrameReport)
        ensures
            event is None ==> report == FrameReport::DecodeFailed,
            event is Some ==> report == FrameReport::Queued || report
                == FrameReport::QueueClosed,
    {
        match event {
            Some(event) => {
                let taken = self.send_event(event).is_ok();
                report_for(true, taken)
            },
            None => report_for(false, false),
        }
    }
}

/// An event on its way to the webhook, as plain values.
pub ghost struct ForwardView {
    pub source: Seq<char>,
    pub event: EventView,
    pub timestamp: int,
}

/// An event on its way to the webhook: where it comes from, the event, and
/// when the bridge took it up, in seconds since the Unix epoch.
#[derive(Debug)]
pub struct ForwardPayload {
    pub source: String,
    pub event: TranscriptionEvent,
    pub timestamp: i64,
}

impl View for ForwardPayload {
    type V = ForwardView;

    open spec fn view(&self) -> ForwardView {
        ForwardView {
            source: self.source@,
            event: self.event@,
            timestamp: self.timestamp as int,
        }
    }
}

/// What became of a forwarded event.
#[derive(Clone, Copy, Debug, PartialEq, Eq, Structural)]
pub enum ForwardReport {
    /// The webhook took the event.
    Forwarded,
    /// The webhook answered with this status, which is no success.
    Refused(u16),
    /// The request did not get through.
    Failed,
}

/// What became of a forwarded event, from what the transport reported:
/// taken on a success status, refused on any other, failed where the request
/// did not get through.
pub open spec fn forward_report(outcome: DeliveryOutcome) -> ForwardReport {
    match outcome {
        DeliveryOutcome::Sent => ForwardReport::Forwarded,
        DeliveryOutcome::Status(status) => if is_success_status(status) {
            ForwardReport::Forwarded
        } else {
            ForwardReport::Refused(status)
        },
        DeliveryOutcome::TransportError => ForwardReport::Failed,
    }
}

/// Reads the clock with `chrono::Utc::now` and gives the seconds since the
/// Unix epoch with `DateTime::timestamp`. The one thing claimed is that the
/// count is not negative: chrono takes the time as a span since the epoch
/// and does not return for a clock that is set before it.
#[verifier::external_body]
fn unix_now() -> (seconds: i64)
    ensures
        seconds >= 0,
{
    chrono::Utc::now().timestamp()
}

/// The forwarder: it posts each event of the queue to one webhook.
#[derive(Debug)]
pub struct FirefliesWebhookForwarder {
    pub webhook_url: String,
}

impl FirefliesWebhookForwarder {
    /// A forwarder to the webhook at `webhook_url`.
    pub fn new(webhook_url: String) -> (forwarder: Self)
        ensures
            forwarder.webhook_url == webhook_url,
    {
        FirefliesWebhookForwarder { webhook_url }
    }

    /// The payload for `event`, taken up at `timestamp`.
    pub fn payload_at(event: TranscriptionEvent, timestamp: i64) -> (payload: ForwardPayload)
        ensures
            payload@ == (ForwardView {
                source: FORWARD_SOURCE@,
                event: event@,
                timestamp: timestamp as int,
            }),
    {
        ForwardPayload { source: FORWARD_SOURCE.to_owned(), event, timestamp }
    }

    /// The payload for `event`, taken up now.
    pub fn forward_event(&self, event: TranscriptionEvent) -> (payload: ForwardPayload)
        ensures
            payload@.source == FORWARD_SOURCE@,
            payload@.event == event@,
            payload@.timestamp >= 0,
    {
        Self::payload_at(event, unix_now())
    }

    /// What became of a forwarded event. Whatever it is, the forwarder goes
    /// on with the next event.
    pub fn judge(&self, outcome: DeliveryOutcome) -> (report: ForwardReport)
        ensures
            report == forward_report(outcome),
    {
        match outcome {
            DeliveryOutcome::Sent => ForwardReport::Forwarded,
            DeliveryOutcome::Status(status) => {
                if 200 <= status && status < 300 {
                    ForwardReport::Forwarded
                } else {
                    ForwardReport::Refused(status)
                }
            },
            DeliveryOutcome::TransportError => ForwardReport::Failed,
        }
    }
}

/// What keeps several bridges: it starts one for a configuration and names
/// it, stops one by its name, and lists the names of those that run.
pub trait FirefliesBridgeManager {
    /// Starts a bridge for `config` and gives its identifier.
    fn start_bridge(&self, config: FirefliesConfig) -> Result<String, BridgeError>;

    /// Stops the bridge `bridge_id`.
    fn stop_bridge(&self, bridge_id: &str) -> Result<(), BridgeError>;

    /// The identifiers of the bridges that run.
    fn list_bridges(&self) -> Result<Vec<String>, BridgeError>;
}

} // verus!
