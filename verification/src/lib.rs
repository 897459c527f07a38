//! Persistent safety storage for a BFT consensus participant.
//!
//! The library durably records the minimal state a voting node must never
//! lose across restarts — its epoch/round safety counters, its signing keys
//! and a trusted waypoint — and mediates every read and write of that state
//! against a durable backend under a write-through, invalidate-on-failure
//! cache discipline.

pub mod counters;
pub mod crypto;
pub mod errors;
pub mod persistent_safety_storage;
pub mod storage;
pub mod types;
