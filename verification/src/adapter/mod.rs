//! The sinks that records are delivered to, and the bridge to a live source.

pub mod fireflies;
pub mod webhook;
pub mod websocket;

pub use fireflies::{
    AuthPayload, FirefliesBridge, FirefliesBridgeManager, FirefliesConfig,
    FirefliesWebhookForwarder, TranscriptionEvent,
};
pub use webhook::WebhookBroadcaster;
pub use websocket::WebSocketBroadcaster;
