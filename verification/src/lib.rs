//! Core of a multi-backend chat system: an ordered-collection mutation
//! primitive with a replayable log, the authoritative chat state and its
//! typed mutations, a controller that serializes state changes and drives
//! streaming responses, a router over several bot clients, and a gateway
//! protocol adapter for a WebSocket-based backend.
//!
//! Everything that decides or computes lives here and is verified; the
//! surrounding I/O (the transport, the UI) hands this crate plain values
//! and performs the actions it returns.

pub mod client;
pub mod controller;
pub mod gateway;
pub mod indexset;
pub mod json;
pub mod jsonval;
pub mod model;
pub mod mutation;
pub mod naming;
pub mod router;
pub mod state;

pub use mutation::VecMutation;
