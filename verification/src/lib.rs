//! A counter contract: one persisted `u64`, three entry points.
//!
//! The crate is laid out leaves first: the messages, the record and its
//! store, the transitions, and the entry points that tie them together.

pub mod contract;
pub mod decimal;
pub mod engine;
pub mod error;
pub mod host;
pub mod laws;
pub mod msg;
pub mod response;
pub mod state;
