//! Per-participant append-only ledger sequencing.
//!
//! Each participant owns a private, linearly ordered sequence of linked
//! records. This crate verifies the layer that assigns monotonic positions
//! to new records, tracks the current log head, and validates at commit
//! time — under optimistic concurrency control — that no other writer
//! advanced the head since this writer's view was taken.

pub mod address;
pub mod chain_sequence;
pub mod error;
pub mod laws;
pub mod listener;
pub mod store;
