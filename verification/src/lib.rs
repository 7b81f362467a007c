//! Timed replay of recorded transcripts to delivery sinks, and a bridge that
//! forwards live transcription events.
//!
//! A transcript is a run of records, each with a time code that counts from
//! the start of the conversation. A replay sends the records to a consumer at
//! the pace at which they were spoken: over a live connection that the
//! consumer opens, or as requests to a webhook.
//!
//! The library does no input or output. Everything that waits, sends or
//! locks is done by a driver, which asks the library what to do next and
//! reports back what happened:
//!
//! - [`timecode`] reads time codes;
//! - [`pacing`] turns them into waits;
//! - [`registry`] holds the sessions in flight;
//! - [`replay`] is the scheduler of one session;
//! - [`delivery`] says what each sink makes of a delivery that went wrong;
//! - [`interface`] has the records, their envelopes, and the trait of a sink;
//! - [`adapter`] has the two sinks and the bridge to the live source;
//! - [`api`] computes what the trigger endpoints answer;
//! - [`json`] and [`text`] are helpers.

pub mod adapter;
pub mod api;
pub mod delivery;
pub mod interface;
pub mod json;
pub mod pacing;
pub mod registry;
pub mod replay;
pub mod text;
pub mod timecode;
