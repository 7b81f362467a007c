//! What became of a delivery, and what each kind of sink makes of it.
//!
//! A webhook is given up at the first sign of trouble: a request that does
//! not get through, or an answer with an error status, ends the replay. A
//! live connection is given up when a message cannot be sent.

use crate::registry::SinkKind;
use vstd::prelude::*;

verus! {

/// What the transport reported of one attempt to deliver.
#[derive(Clone, Copy, Debug, PartialEq, Eq, Structural)]
pub enum DeliveryOutcome {
    /// The message was handed over; the transport has no status to report.
    Sent,
    /// The endpoint answered with this HTTP status.
    Status(u16),
    /// The message did not get through: the connection was refused or lost,
    /// the request timed out, the name did not resolve.
    TransportError,
}

/// Why a replay was given up.
#[derive(Clone, Copy, Debug, PartialEq, Eq, Structural)]
pub enum ReplayError {
    /// A message did not get through.
    Transport,
    /// The endpoint answered with this error status.
    Status(u16),
}

/// Whether `status` reports success: the range 200 to 299.
pub open spec fn is_success_status(status: u16) -> bool {
    200 <= status < 300
}

/// Whether `status` reports an error of the client: the range 400 to 499.
pub open spec fn is_client_error_status(status: u16) -> bool {
    400 <= status < 500
}

/// Whether `status` reports an error of the server: the range 500 to 599.
pub open spec fn is_server_error_status(status: u16) -> bool {
    500 <= status < 600
}

/// Whether `status` is an error status of either kind.
pub open spec fn is_error_status(status: u16) -> bool {
    is_client_error_status(status) || is_server_error_status(status)
}

/// Why the delivery of a record ends the replay, if it does.
pub open spec fn record_failure(sink: SinkKind, outcome: DeliveryOutcome) -> Option<ReplayError> {
    match (sink, outcome) {
        (_, DeliveryOutcome::TransportError) => Some(ReplayError::Transport),
        (SinkKind::Webhook, DeliveryOutcome::Status(status)) => if is_error_status(status) {
            Some(ReplayError::Status(status))
        } else {
            None
        },
        _ => None,
    }
}

/// Why the delivery of the closing signal counts as a failure of the
/// replay, if it does. A webhook has all its records by then, so nothing that
/// happens to the closing request changes the result.
pub open spec fn completion_failure(sink: SinkKind, outcome: DeliveryOutcome) -> Option<
    ReplayError,
> {
    match (sink, outcome) {
        (SinkKind::LivePush, DeliveryOutcome::TransportError) => Some(ReplayError::Transport),
        _ => None,
    }
}

/// Whether `status` reports success.
pub fn is_success(status: u16) -> (yes: bool)
    ensures
        yes == is_success_status(status),
{
    200 <= status && status < 300
}

/// Whether `status` reports an error of the client.
pub fn is_client_error(status: u16) -> (yes: bool)
    ensures
        yes == is_client_error_status(status),
{
    400 <= status && status < 500
}

/// Whether `status` reports an error of the server.
pub fn is_server_error(status: u16) -> (yes: bool)
    ensures
        yes == is_server_error_status(status),
{
    500 <= status && status < 600
}

/// Decides whether the delivery of a record ends the replay, and why.
pub fn judge_record(sink: SinkKind, outcome: DeliveryOutcome) -> (failure: Option<ReplayError>)
    ensures
        failure == record_failure(sink, outcome),
{
    match outcome {
        DeliveryOutcome::TransportError => Some(ReplayError::Transport),
        DeliveryOutcome::Status(status) => match sink {
            SinkKind::Webhook => {
                if is_client_error(status) || is_server_error(status) {
                    Some(ReplayError::Status(status))
                } else {
                    None
                }
            },
            SinkKind::LivePush => None,
        },
        DeliveryOutcome::Sent => None,
    }
}

/// Decides whether the delivery of the closing signal fails the replay, and
/// why.
pub fn judge_completion(sink: SinkKind, outcome: DeliveryOutcome) -> (failure: Option<
    ReplayError,
>)
    ensures
        failure == completion_failure(sink, outcome),
{
    match sink {
        SinkKind::LivePush => match outcome {
            DeliveryOutcome::TransportError => Some(ReplayError::Transport),
            _ => None,
        },
        SinkKind::Webhook => None,
    }
}

/// An error status always ends a webhook replay, a success status never
/// does, and nothing but a lost message ends a live one.
pub proof fn lemma_fail_fast(status: u16)
    ensures
        is_error_status(status) ==> record_failure(
            SinkKind::Webhook,
            DeliveryOutcome::Status(status),
        ) == Some(ReplayError::Status(status)),
        is_success_status(status) ==> record_failure(
            SinkKind::Webhook,
            DeliveryOutcome::Status(status),
        ) is None,
        record_failure(SinkKind::LivePush, DeliveryOutcome::Status(status)) is None,
        record_failure(SinkKind::Webhook, DeliveryOutcome::TransportError) == Some(
            ReplayError::Transport,
        ),
        record_failure(SinkKind::LivePush, DeliveryOutcome::TransportError) == Some(
            ReplayError::Transport,
        ),
{
}

} // verus!
