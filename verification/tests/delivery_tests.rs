use restream::delivery::{
    is_client_error, is_server_error, is_success, judge_completion, judge_record, DeliveryOutcome,
    ReplayError,
};
use restream::registry::SinkKind;

#[test]
fn status_classes_have_their_ranges() {
    for status in 0..=1000u16 {
        assert_eq!(is_success(status), (200..300).contains(&status));
        assert_eq!(is_client_error(status), (400..500).contains(&status));
        assert_eq!(is_server_error(status), (500..600).contains(&status));
    }
}

#[test]
fn status_classes_agree_with_the_http_library() {
    for status in 100..1000u16 {
        let code = reqwest::StatusCode::from_u16(status).unwrap();
        assert_eq!(is_success(status), code.is_success());
        assert_eq!(is_client_error(status), code.is_client_error());
        assert_eq!(is_server_error(status), code.is_server_error());
    }
}

#[test]
fn webhook_gives_up_on_error_statuses_only() {
    for status in 0..=1000u16 {
        let verdict = judge_record(SinkKind::Webhook, DeliveryOutcome::Status(status));
        if (400..600).contains(&status) {
            assert_eq!(verdict, Some(ReplayError::Status(status)));
        } else {
            assert_eq!(verdict, None);
        }
    }
    assert_eq!(judge_record(SinkKind::Webhook, DeliveryOutcome::Sent), None);
}

#[test]
fn transport_errors_end_every_replay() {
    assert_eq!(
        judge_record(SinkKind::Webhook, DeliveryOutcome::TransportError),
        Some(ReplayError::Transport)
    );
    assert_eq!(
        judge_record(SinkKind::LivePush, DeliveryOutcome::TransportError),
        Some(ReplayError::Transport)
    );
}

#[test]
fn live_push_ignores_statuses() {
    assert_eq!(judge_record(SinkKind::LivePush, DeliveryOutcome::Status(500)), None);
    assert_eq!(judge_record(SinkKind::LivePush, DeliveryOutcome::Sent), None);
}

#[test]
fn webhook_completion_never_fails_the_replay() {
    for outcome in [
        DeliveryOutcome::Sent,
        DeliveryOutcome::Status(200),
        DeliveryOutcome::Status(404),
        DeliveryOutcome::Status(500),
        DeliveryOutcome::TransportError,
    ] {
        assert_eq!(judge_completion(SinkKind::Webhook, outcome), None);
    }
}

#[test]
fn live_push_completion_fails_when_the_frame_is_lost() {
    assert_eq!(
        judge_completion(SinkKind::LivePush, DeliveryOutcome::TransportError),
        Some(ReplayError::Transport)
    );
    assert_eq!(judge_completion(SinkKind::LivePush, DeliveryOutcome::Sent), None);
    assert_eq!(judge_completion(SinkKind::LivePush, DeliveryOutcome::Status(500)), None);
}
