//! Ask a human a question over a chat platform and wait for the answer.
//!
//! This crate holds the decisions of that exchange as verified functions on
//! plain values: which inbound message counts as the reply, how the poll
//! interval backs off under rate limiting, when a wait times out, and how
//! the conversation thread is kept. Network calls, timers and the tool
//! server live with the caller, which performs the actions these functions
//! return and hands back what happened.
//!
//! - `marker`, `message`: the order of position markers and the rule that
//!   picks the reply.
//! - `rate_limit`, `timing`: the rate-limit signal, the pause between two
//!   queries and the deadline.
//! - `wait`, `replay`: the polling wait as a state machine, and a whole wait
//!   run against a transcript.
//! - `thread`, `slack`: the write-once thread identity and the polling
//!   backend.
//! - `discord`: the event-driven backend.
//! - `tool`: the adapter in front of a backend.
//! - `error`: the ways in which asking can fail.

pub mod discord;
pub mod error;
pub mod marker;
pub mod message;
pub mod rate_limit;
pub mod replay;
pub mod slack;
pub mod thread;
pub mod timing;
pub mod tool;
pub mod wait;
