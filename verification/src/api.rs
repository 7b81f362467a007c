//! What the trigger endpoints compute: the session they set up, and the
//! answer they give.
//!
//! Loading the transcript and speaking HTTP are the caller's business. The
//! caller hands over the records it loaded and gets back what to answer;
//! where it could not load them, it asks for the answer that says so.

use crate::adapter::webhook::WebhookBroadcaster;
use crate::adapter::websocket::{WebSocketBroadcaster, WebsocketInfo, WebsocketInfoView, LIVE_PATH};
use crate::interface::{record_views, Broadcaster, TranscriptRecord};
use crate::registry::{SessionRegistry, SessionView, SinkKind};
use crate::replay::{Replay, ReplayView};
use crate::text::joined;
use vstd::prelude::*;

verus! {

/// The transcript that is replayed where the request names none.
pub const DEFAULT_FILENAME: &'static str = "intake_call_test.csv";

/// The directory in which the transcripts lie.
pub const TRANSCRIPT_DIRECTORY: &'static str = "transcript/";

/// The transcript that is replayed where the request names none.
pub fn default_filename() -> (filename: String)
    ensures
        filename@ == DEFAULT_FILENAME@,
{
    DEFAULT_FILENAME.to_owned()
}

/// Whether the test webhook is used where the request does not say: it is
/// not.
pub fn default_test() -> (use_test: bool)
    ensures
        !use_test,
{
    false
}

/// Where the transcript `filename` lies.
pub fn transcript_path(filename: &str) -> (path: String)
    ensures
        path@ == TRANSCRIPT_DIRECTORY@ + filename@,
{
    joined(TRANSCRIPT_DIRECTORY, filename)
}

/// Whether `c` is a digit of lower-case hexadecimal.
pub open spec fn is_lower_hex(c: char) -> bool {
    ('0' <= c && c <= '9') || ('a' <= c && c <= 'f')
}

/// Whether `id` has the form of a generated session identifier: 36
/// characters, hyphens after the 8th, 12th, 16th and 20th digit, and
/// lower-case hexadecimal digits everywhere else.
pub open spec fn is_generated_id(id: Seq<char>) -> bool {
    &&& id.len() == 36
    &&& forall|i: int|
        #![trigger id[i]]
        0 <= i < 36 ==> if i == 8 || i == 13 || i == 18 || i == 23 {
            id[i] == '-'
        } else {
            is_lower_hex(id[i])
        }
}

/// Draws a random identifier with `uuid::Uuid::new_v4` and writes it out
/// with its `Display`, which is the hyphenated lower-case form. The contract
/// claims that form and nothing of the digits; two calls may give any two
/// identifiers.
#[verifier::external_body]
fn random_id() -> (id: String)
    ensures
        is_generated_id(id@),
{
    uuid::Uuid::new_v4().to_string()
}

/// A fresh session identifier.
pub fn new_session_id() -> (id: String)
    ensures
        is_generated_id(id@),
{
    random_id()
}

/// The session that a live broadcast of `records` from the file `filename`
/// files.
pub open spec fn live_session_for(filename: Seq<char>, records: Seq<TranscriptRecord>)
    -> SessionView {
    SessionView {
        filename,
        records: record_views(records),
        cursor: 0,
        sink_kind: SinkKind::LivePush,
    }
}

/// Sets up the live broadcast of `records` under the identifier
/// `session_id`: files the session, and gives the coordinates under which
/// its consumer connects to the server at `address`, port `port`.
pub fn file_live_broadcast(
    registry: &mut SessionRegistry,
    session_id: String,
    filename: &str,
    records: Vec<TranscriptRecord>,
    address: &str,
    port: u16,
) -> (info: WebsocketInfo)
    ensures
        final(registry)@ == old(registry)@.insert(
            session_id@,
            live_session_for(filename@, records@),
        ),
        info@ == (WebsocketInfoView {
            websocket_url: address@ + LIVE_PATH@ + session_id@,
            session_id: session_id@,
            port,
        }),
{
    let info = WebsocketInfo::for_session(address, port, session_id.as_str());
    let sink = WebSocketBroadcaster::new(filename.to_owned());
    let _ = sink.broadcast(registry, session_id, records);
    info
}

/// Sets up the live broadcast of `records` under a fresh identifier, which
/// the coordinates name.
pub fn start_live_broadcast(
    registry: &mut SessionRegistry,
    filename: &str,
    records: Vec<TranscriptRecord>,
    address: &str,
    port: u16,
) -> (info: WebsocketInfo)
    ensures
        is_generated_id(info@.session_id),
        final(registry)@ == old(registry)@.insert(
            info@.session_id,
            live_session_for(filename@, records@),
        ),
        info@.websocket_url == address@ + LIVE_PATH@ + info@.session_id,
        info@.port == port,
{
    file_live_broadcast(registry, new_session_id(), filename, records, address, port)
}

/// The name of the environment that a webhook broadcast goes to.
pub open spec fn environment_of(use_test: bool) -> Seq<char> {
    if use_test {
        "test"@
    } else {
        "production"@
    }
}

/// The name of the environment that a webhook broadcast goes to.
pub fn environment_name(use_test: bool) -> (name: &'static str)
    ensures
        name@ == environment_of(use_test),
{
    if use_test {
        "test"
    } else {
        "production"
    }
}

/// The two webhooks that a broadcast can go to.
#[derive(Debug)]
pub struct WebhookTargets {
    /// The webhook of the production environment.
    pub production: String,
    /// The webhook of the test environment.
    pub test: String,
}

impl WebhookTargets {
    /// The webhook that is asked for.
    pub fn select(&self, use_test: bool) -> (url: &str)
        ensures
            url@ == if use_test {
                self.test@
            } else {
                self.production@
            },
    {
        if use_test {
            self.test.as_str()
        } else {
            self.production.as_str()
        }
    }
}

/// The answer to a request for a webhook broadcast, as plain values.
pub ghost struct WebhookAckView {
    pub status: Seq<char>,
    pub message: Seq<char>,
    pub filename: Seq<char>,
    pub webhook_url: Option<Seq<char>>,
    pub environment: Option<Seq<char>>,
}

/// The answer to a request for a webhook broadcast.
#[derive(Debug)]
pub struct WebhookAck {
    /// `success` or `error`.
    pub status: String,
    /// What happened, in words.
    pub message: String,
    /// The transcript that was asked for.
    pub filename: String,
    /// The webhook that the broadcast goes to, where one was started.
    pub webhook_url: Option<String>,
    /// The environment of that webhook, where a broadcast was started.
    pub environment: Option<String>,
}

impl View for WebhookAck {
    type V = WebhookAckView;

    open spec fn view(&self) -> WebhookAckView {
        WebhookAckView {
            status: self.status@,
            message: self.message@,
            filename: self.filename@,
            webhook_url: match self.webhook_url {
                Some(url) => Some(url@),
                None => None,
            },
            environment: match self.environment {
                Some(name) => Some(name@),
                None => None,
            },
        }
    }
}

impl WebhookAck {
    /// Whether the answer reports a broadcast that was started.
    pub open spec fn is_success(&self) -> bool {
        self.status@ == "success"@
    }

    /// The answer for a broadcast that was started.
    pub fn started(filename: &str, webhook_url: &str, use_test: bool) -> (ack: Self)
        ensures
            ack@ == (WebhookAckView {
                status: "success"@,
                message: "Webhook broadcast started"@,
                filename: filename@,
                webhook_url: Some(webhook_url@),
                environment: Some(environment_of(use_test)),
            }),
    {
        WebhookAck {
            status: "success".to_owned(),
            message: "Webhook broadcast started".to_owned(),
            filename: filename.to_owned(),
            webhook_url: Some(webhook_url.to_owned()),
            environment: Some(environment_name(use_test).to_owned()),
        }
    }

    /// The answer where the transcript could not be loaded, for the reason
    /// `reason`.
    pub fn failed(filename: &str, reason: &str) -> (ack: Self)
        ensures
            ack@ == (WebhookAckView {
                status: "error"@,
                message: "Failed to load transcript: "@ + reason@,
                filename: filename@,
                webhook_url: None,
                environment: None,
            }),
    {
        WebhookAck {
            status: "error".to_owned(),
            message: joined("Failed to load transcript: ", reason),
            filename: filename.to_owned(),
            webhook_url: None,
            environment: None,
        }
    }
}

/// The session that a webhook broadcast of `records` files.
pub open spec fn webhook_session_for(records: Seq<TranscriptRecord>) -> SessionView {
    SessionView {
        filename: Seq::empty(),
        records: record_views(records),
        cursor: 0,
        sink_kind: SinkKind::Webhook,
    }
}

/// Sets up the webhook broadcast of `records` under the identifier
/// `session_id`: files the session, and gives the answer to the request, the
/// sink to post to, and the replay to drive.
pub fn start_webhook_broadcast(
    registry: &mut SessionRegistry,
    targets: &WebhookTargets,
    use_test: bool,
    session_id: String,
    filename: &str,
    records: Vec<TranscriptRecord>,
) -> (started: (WebhookAck, WebhookBroadcaster, Replay))
    ensures
        final(registry)@ == old(registry)@.insert(session_id@, webhook_session_for(records@)),
        started.0@ == (WebhookAckView {
            status: "success"@,
            message: "Webhook broadcast started"@,
            filename: filename@,
            webhook_url: Some(started.1.webhook_url@),
            environment: Some(environment_of(use_test)),
        }),
        started.1.webhook_url@ == if use_test {
            targets.test@
        } else {
            targets.production@
        },
        started.2@ == ReplayView::initial(session_id@, webhook_session_for(records@)),
        started.2@.wf(),
{
    let url = targets.select(use_test);
    let ack = WebhookAck::started(filename, url, use_test);
    let sink = WebhookBroadcaster::new(url.to_owned());
    let replay = sink.begin(registry, session_id, records);
    (ack, sink, replay)
}

} // verus!
