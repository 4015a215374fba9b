//! Core verification and relaying logic of an IBC-style protocol.
//!
//! The crate covers three subsystems: a light-client update state machine
//! (validating counterparty headers against locally held client and consensus
//! state, with trusting-period expiry and misbehaviour handling), a packet
//! relayer for ordered and unordered channels with timeout semantics, and a
//! batch/submission layer that multiplexes outbound message batches onto a
//! shared channel with one reply per batch.
//!
//! All chain-specific concerns (querying, signing, broadcasting, persistence)
//! are reached only through capability interfaces; the logic here is a pure
//! function of the values those capabilities hand back.

pub mod batch;
pub mod channel;
pub mod consumer;
pub mod context;
pub mod relay;
pub mod snapshot;
pub mod store;
pub mod types;
pub mod update_client;
