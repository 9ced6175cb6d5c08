//! Client-side protocol core for a spot/futures exchange API: topic registry
//! for the streaming channel, request signing for authenticated REST calls,
//! envelope decoding and per-family message translation for inbound frames,
//! and the subscription state machine of a streaming session.

pub mod dec;
pub mod envelope;
pub mod json;
pub mod numfmt;
pub mod rest;
pub mod session;
pub mod sign;
pub mod translate;
pub mod topic;
