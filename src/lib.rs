//! Session-gated realtime broadcast engine of a small chat service.
//!
//! Modules: `message` (the displayed line and its timestamp), `history`
//! (ordering and replay), `hub` (publish/subscribe queues), `session`
//! (admission and the per-connection state machine), `account` (login and
//! registration decisions) and `laws` (properties across operations).
//! Storage, transport and timers stay with the caller, which feeds their
//! results in as values.
use vstd::prelude::*;

pub mod account;
pub mod history;
pub mod hub;
pub mod laws;
pub mod message;
pub mod session;

verus! {

} // verus!
