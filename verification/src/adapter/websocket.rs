//! The live-push sink: the records of a session are kept for the consumer
//! that connects under the session's identifier, and pushed to it at the pace
//! of the transcript.

use crate::interface::{record_views, Broadcaster, TranscriptRecord, SESSION_NOT_FOUND};
use crate::registry::{RewindSession, SessionRegistry, SessionView, SinkKind};
use crate::replay::{Replay, ReplayView};
use crate::text::joined;
use vstd::prelude::*;
use vstd::string::StrSliceExecFns;

verus! {

/// The path under which a consumer connects, up to the session identifier.
pub const LIVE_PATH: &'static str = "/ws/";

/// The sink that keeps a session ready for the consumer that connects.
#[derive(Debug)]
pub struct WebSocketBroadcaster {
    /// The name of the transcript file that the records come from.
    pub filename: String,
}

impl Broadcaster for WebSocketBroadcaster {
    open spec fn session_for(&self, records: Seq<TranscriptRecord>) -> SessionView {
        SessionView {
            filename: self.filename@,
            records: record_views(records),
            cursor: 0,
            sink_kind: SinkKind::LivePush,
        }
    }

    open spec fn delivers_at_once(&self) -> bool {
        false
    }

    /// Files the session, where it waits for its consumer.
    fn broadcast(
        &self,
        registry: &mut SessionRegistry,
        session_id: String,
        records: Vec<TranscriptRecord>,
    ) -> (replay: Option<Replay>) {
        let session = RewindSession::new(self.filename.clone(), records, SinkKind::LivePush);
        registry.create(session_id, session);
        None
    }
}

/// The session that a consumer finds under `session_id`: one that is in
/// flight and waits for a consumer. A session that a webhook is being served
/// from is not there for a consumer to take.
pub open spec fn live_session(sessions: Map<Seq<char>, SessionView>, session_id: Seq<char>)
    -> Option<SessionView> {
    if sessions.contains_key(session_id) && sessions[session_id].sink_kind == SinkKind::LivePush {
        Some(sessions[session_id])
    } else {
        None
    }
}

/// A consumer that connects after the session was retired finds nothing,
/// and so does one that connects under an identifier that was never filed.
/// A session that waits is found until then.
pub proof fn lemma_consumer_finds_what_waits(
    sessions: Map<Seq<char>, SessionView>,
    session_id: Seq<char>,
    session: SessionView,
)
    ensures
        live_session(sessions.remove(session_id), session_id) is None,
        !sessions.contains_key(session_id) ==> live_session(sessions, session_id) is None,
        session.sink_kind == SinkKind::LivePush ==> live_session(
            sessions.insert(session_id, session),
            session_id,
        ) == Some(session),
{
}

/// What a consumer meets when it connects.
#[derive(Debug)]
pub enum LiveConnection {
    /// No session waits under the identifier: this one frame is sent, and
    /// the connection is closed.
    NotFound(String),
    /// The session is there: its replay is driven over the connection.
    Found(Replay),
}

impl WebSocketBroadcaster {
    /// A sink for the records of the transcript file `filename`.
    pub fn new(filename: String) -> (sink: Self)
        ensures
            sink.filename == filename,
    {
        WebSocketBroadcaster { filename }
    }

    /// Answers a consumer that connects under `session_id`. The registry is
    /// only read: the session stays filed until its replay retires it.
    pub fn connect(registry: &SessionRegistry, session_id: &str) -> (connection: LiveConnection)
        ensures
            match connection {
                LiveConnection::NotFound(frame) => live_session(registry@, session_id@) is None
                    && frame@ == SESSION_NOT_FOUND@,
                LiveConnection::Found(replay) => live_session(registry@, session_id@) == Some(
                    replay@.session,
                ) && replay@ == ReplayView::initial(session_id@, registry@[session_id@])
                    && replay@.wf(),
            },
    {
        match registry.get(session_id) {
            Some(session) => match session.sink_kind() {
                SinkKind::LivePush => LiveConnection::Found(
                    Replay::start(session_id.to_owned(), session),
                ),
                SinkKind::Webhook => LiveConnection::NotFound(SESSION_NOT_FOUND.to_owned()),
            },
            None => LiveConnection::NotFound(SESSION_NOT_FOUND.to_owned()),
        }
    }
}

/// The session identifier that the path of a connection carries: what
/// follows `/ws/`, if the path begins so and anything follows.
pub open spec fn path_session_id(path: Seq<char>) -> Option<Seq<char>> {
    if path.len() > LIVE_PATH@.len() && path.take(LIVE_PATH@.len() as int) == LIVE_PATH@ {
        Some(path.skip(LIVE_PATH@.len() as int))
    } else {
        None
    }
}

/// Reads the session identifier from the path of a connection.
pub fn session_id_from_path(path: &str) -> (session_id: Option<String>)
    ensures
        match session_id {
            Some(id) => path_session_id(path@) == Some(id@),
            None => path_session_id(path@) is None,
        },
{
    proof {
        reveal_strlit("/ws/");
    }
    let n = path.unicode_len();
    if n > 4 && path.get_char(0) == '/' && path.get_char(1) == 'w' && path.get_char(2) == 's'
        && path.get_char(3) == '/' {
        assert(path@.take(4) == LIVE_PATH@);
        assert(path@.skip(4) == path@.subrange(4, n as int));
        Some(path.substring_char(4, n).to_owned())
    } else {
        assert(path@.len() > 4 ==> path@.take(4) != LIVE_PATH@) by {
            if path@.len() > 4 {
                assert(path@.take(4)[0] == path@[0]);
                assert(path@.take(4)[1] == path@[1]);
                assert(path@.take(4)[2] == path@[2]);
                assert(path@.take(4)[3] == path@[3]);
            }
        }
        None
    }
}

/// Where a consumer connects for a session, as plain values.
pub ghost struct WebsocketInfoView {
    pub websocket_url: Seq<char>,
    pub session_id: Seq<char>,
    pub port: u16,
}

/// Where a consumer connects for a session.
#[derive(Debug)]
pub struct WebsocketInfo {
    /// The address of the live connection, session identifier included.
    pub websocket_url: String,
    /// The identifier of the session.
    pub session_id: String,
    /// The port of the live connection.
    pub port: u16,
}

impl View for WebsocketInfo {
    type V = WebsocketInfoView;

    open spec fn view(&self) -> WebsocketInfoView {
        WebsocketInfoView {
            websocket_url: self.websocket_url@,
            session_id: self.session_id@,
            port: self.port,
        }
    }
}

impl WebsocketInfo {
    /// The coordinates of the session `session_id` on the server at
    /// `address`, which listens on `port`.
    pub fn for_session(address: &str, port: u16, session_id: &str) -> (info: Self)
        ensures
            info@ == (WebsocketInfoView {
                websocket_url: address@ + LIVE_PATH@ + session_id@,
                session_id: session_id@,
                port,
            }),
    {
        let base = joined(address, LIVE_PATH);
        WebsocketInfo {
            websocket_url: joined(base.as_str(), session_id),
            session_id: session_id.to_owned(),
            port,
        }
    }

    /// The answer where no session could be set up: no address, no
    /// identifier, port zero.
    pub fn unavailable() -> (info: Self)
        ensures
            info@ == (WebsocketInfoView {
                websocket_url: Seq::empty(),
                session_id: Seq::empty(),
                port: 0,
            }),
    {
        WebsocketInfo { websocket_url: String::new(), session_id: String::new(), port: 0 }
    }
}

/// The path that is handed out for a session leads back to it: the path of
/// the address given for a session carries that session's identifier.
pub proof fn lemma_path_leads_back(session_id: Seq<char>)
    requires
        session_id.len() > 0,
    ensures
        path_session_id(LIVE_PATH@ + session_id) == Some(session_id),
{
    let path = LIVE_PATH@ + session_id;
    assert(path.take(LIVE_PATH@.len() as int) == LIVE_PATH@);
    assert(path.skip(LIVE_PATH@.len() as int) == session_id);
}

} // verus!
