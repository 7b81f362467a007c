use restream::adapter::websocket::{session_id_from_path, LiveConnection};
use restream::adapter::WebSocketBroadcaster;
use restream::api::{
    default_filename, default_test, environment_name, file_live_broadcast, new_session_id,
    start_live_broadcast, start_webhook_broadcast, transcript_path, WebhookAck, WebhookTargets,
};
use restream::interface::TranscriptRecord;
use restream::registry::{SessionRegistry, SinkKind};
use restream::replay::ReplayAction;

fn records(codes: &[&str]) -> Vec<TranscriptRecord> {
    codes
        .iter()
        .map(|code| TranscriptRecord {
            time_code: code.to_string(),
            speaker: "s".to_string(),
            sentence: "t".to_string(),
        })
        .collect()
}

fn targets() -> WebhookTargets {
    WebhookTargets {
        production: "https://hooks.example/prod".to_string(),
        test: "https://hooks.example/test".to_string(),
    }
}

#[test]
fn defaults_are_the_test_call_and_production() {
    assert_eq!(default_filename(), "intake_call_test.csv");
    assert!(!default_test());
}

#[test]
fn transcripts_lie_in_their_directory() {
    assert_eq!(transcript_path("call.csv"), "transcript/call.csv");
    assert_eq!(transcript_path(""), "transcript/");
}

#[test]
fn generated_ids_are_hyphenated_lower_case_hex() {
    for _ in 0..50 {
        let id = new_session_id();
        assert_eq!(id.chars().count(), 36);
        for (i, c) in id.chars().enumerate() {
            if i == 8 || i == 13 || i == 18 || i == 23 {
                assert_eq!(c, '-');
            } else {
                assert!(c.is_ascii_digit() || ('a'..='f').contains(&c));
            }
        }
    }
}

#[test]
fn generated_ids_differ() {
    let a = new_session_id();
    let b = new_session_id();
    let c = new_session_id();
    assert_ne!(a, b);
    assert_ne!(b, c);
    assert_ne!(a, c);
}

#[test]
fn live_broadcast_is_filed_under_the_id_it_answers_with() {
    let mut registry = SessionRegistry::new();
    let info =
        start_live_broadcast(&mut registry, "call.csv", records(&["0", "1"]), "ws://host:8080", 8080);
    assert_eq!(info.port, 8080);
    assert_eq!(info.websocket_url, format!("ws://host:8080/ws/{}", info.session_id));
    assert_eq!(info.session_id.len(), 36);
    let filed = registry.get(&info.session_id).unwrap();
    assert_eq!(filed.filename(), "call.csv");
    assert_eq!(filed.len(), 2);
    assert_eq!(filed.sink_kind(), SinkKind::LivePush);
    match WebSocketBroadcaster::connect(&registry, &info.session_id) {
        LiveConnection::Found(replay) => assert_eq!(replay.session_id(), info.session_id),
        LiveConnection::NotFound(_) => panic!("the session was filed"),
    }
}

#[test]
fn live_broadcast_under_a_given_id() {
    let mut registry = SessionRegistry::new();
    let info = file_live_broadcast(
        &mut registry,
        "fixed".to_string(),
        "call.csv",
        records(&["0"]),
        "ws://0.0.0.0:8080",
        8080,
    );
    assert_eq!(info.websocket_url, "ws://0.0.0.0:8080/ws/fixed");
    assert_eq!(info.session_id, "fixed");
    assert!(registry.contains("fixed"));
    assert_eq!(registry.len(), 1);
}

#[test]
fn two_live_broadcasts_are_two_sessions() {
    let mut registry = SessionRegistry::new();
    let a = start_live_broadcast(&mut registry, "a.csv", records(&["0"]), "ws://h", 1);
    let b = start_live_broadcast(&mut registry, "b.csv", records(&["0"]), "ws://h", 1);
    assert_ne!(a.session_id, b.session_id);
    assert_eq!(registry.len(), 2);
    assert_eq!(registry.get(&a.session_id).unwrap().filename(), "a.csv");
    assert_eq!(registry.get(&b.session_id).unwrap().filename(), "b.csv");
}

#[test]
fn address_handed_out_carries_the_session_id() {
    let mut registry = SessionRegistry::new();
    let info = start_live_broadcast(&mut registry, "a.csv", records(&[]), "", 1);
    assert_eq!(session_id_from_path(&info.websocket_url), Some(info.session_id));
}

#[test]
fn environment_names() {
    assert_eq!(environment_name(true), "test");
    assert_eq!(environment_name(false), "production");
}

#[test]
fn webhook_is_selected_by_the_flag() {
    assert_eq!(targets().select(true), "https://hooks.example/test");
    assert_eq!(targets().select(false), "https://hooks.example/prod");
}

#[test]
fn webhook_broadcast_answers_with_success_and_begins() {
    let mut registry = SessionRegistry::new();
    let (ack, sink, replay) = start_webhook_broadcast(
        &mut registry,
        &targets(),
        false,
        "77".to_string(),
        "call.csv",
        records(&["4", "6"]),
    );
    assert_eq!(ack.status, "success");
    assert_eq!(ack.message, "Webhook broadcast started");
    assert_eq!(ack.filename, "call.csv");
    assert_eq!(ack.webhook_url, Some("https://hooks.example/prod".to_string()));
    assert_eq!(ack.environment, Some("production".to_string()));
    assert_eq!(sink.webhook_url, "https://hooks.example/prod");
    assert_eq!(replay.session_id(), "77");
    assert_eq!(registry.get("77").unwrap().sink_kind(), SinkKind::Webhook);
    match replay.pending() {
        ReplayAction::Wait { seconds } => assert_eq!(seconds, 4),
        other => panic!("unexpected action {:?}", other),
    }
}

#[test]
fn webhook_broadcast_to_the_test_environment() {
    let mut registry = SessionRegistry::new();
    let (ack, sink, _replay) = start_webhook_broadcast(
        &mut registry,
        &targets(),
        true,
        "78".to_string(),
        "call.csv",
        records(&[]),
    );
    assert_eq!(ack.webhook_url, Some("https://hooks.example/test".to_string()));
    assert_eq!(ack.environment, Some("test".to_string()));
    assert_eq!(sink.webhook_url, "https://hooks.example/test");
}

#[test]
fn failed_load_answers_with_an_error() {
    let ack = WebhookAck::failed("missing.csv", "No such file or directory (os error 2)");
    assert_eq!(ack.status, "error");
    assert_eq!(
        ack.message,
        "Failed to load transcript: No such file or directory (os error 2)"
    );
    assert_eq!(ack.filename, "missing.csv");
    assert_eq!(ack.webhook_url, None);
    assert_eq!(ack.environment, None);
}
