//! The webhook sink: every record is posted to one HTTP endpoint, at the
//! pace of the transcript, without waiting for a consumer.

use crate::interface::{record_views, Broadcaster, TranscriptRecord};
use crate::registry::{RewindSession, SessionRegistry, SessionView, SinkKind};
use crate::replay::{Replay, ReplayView};
use vstd::prelude::*;

verus! {

/// The seconds after which a request to the webhook is given up.
pub const REQUEST_TIMEOUT_SECONDS: u64 = 30;

/// The sink that posts to the webhook at `webhook_url`.
#[derive(Debug)]
pub struct WebhookBroadcaster {
    pub webhook_url: String,
}

impl WebhookBroadcaster {
    /// A sink for the webhook at `webhook_url`.
    pub fn new(webhook_url: String) -> (sink: Self)
        ensures
            sink.webhook_url == webhook_url,
    {
        WebhookBroadcaster { webhook_url }
    }

    /// Files the session of `records` under `session_id` and begins its
    /// replay.
    pub fn begin(
        &self,
        registry: &mut SessionRegistry,
        session_id: String,
        records: Vec<TranscriptRecord>,
    ) -> (replay: Replay)
        ensures
            final(registry)@ == old(registry)@.insert(session_id@, self.session_for(records@)),
            replay@ == ReplayView::initial(session_id@, self.session_for(records@)),
            replay@.wf(),
    {
        let session = RewindSession::new(String::new(), records, SinkKind::Webhook);
        registry.create(session_id.clone(), session.clone());
        Replay::start(session_id, session)
    }
}

impl Broadcaster for WebhookBroadcaster {
    open spec fn session_for(&self, records: Seq<TranscriptRecord>) -> SessionView {
        SessionView {
            filename: Seq::empty(),
            records: record_views(records),
            cursor: 0,
            sink_kind: SinkKind::Webhook,
        }
    }

    open spec fn delivers_at_once(&self) -> bool {
        true
    }

    /// Files the session and hands back its replay, which is to be driven
    /// at once.
    fn broadcast(
        &self,
        registry: &mut SessionRegistry,
        session_id: String,
        records: Vec<TranscriptRecord>,
    ) -> (replay: Option<Replay>) {
        Some(self.begin(registry, session_id, records))
    }
}

} // verus!
