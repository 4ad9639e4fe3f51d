//! Coordination consensus engine for a swarm of autonomous monitoring agents.
//!
//! The crate models agent registration, quorum-gated voting on proposed joint
//! actions, and reputation feedback as a single verified state machine. Host
//! concerns — persistence, transport, signature verification, and the clock —
//! stay outside: every operation takes the already-authenticated identities
//! and the current time as plain values.

pub mod types;
pub mod errors;
pub mod events;
pub mod agent;
pub mod coordination;
pub mod swarm;
pub mod laws;
