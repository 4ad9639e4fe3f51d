//! Domain events. Each committed operation that the interface documents as
//! observable appends exactly one event to the swarm's outbox — an ordered,
//! append-only sequence consumed by external observers.

use vstd::prelude::*;
use crate::types::{AgentId, AgentType, Capability, Urgency};

verus! {

/// A new agent record was created.
#[derive(Clone, PartialEq, Eq, Debug)]
pub struct AgentRegistered {
    pub agent_id: AgentId,
    pub agent_type: AgentType,
    pub capabilities: Vec<Capability>,
    pub timestamp: i64,
}

/// A coordination was created and opened for joining.
#[derive(Clone, Copy, PartialEq, Eq, Structural, Debug)]
pub struct CoordinationInitiated {
    pub coordination_id: u64,
    pub threat_id: u64,
    pub initiator: AgentId,
    pub urgency: Urgency,
    pub timestamp: i64,
}

/// An eligible agent was appended to the participant set.
#[derive(Clone, Copy, PartialEq, Eq, Structural, Debug)]
pub struct AgentJoinedCoordination {
    pub coordination_id: u64,
    pub agent_id: AgentId,
    pub timestamp: i64,
}

/// The vote resolved in favour of the proposed action.
#[derive(Clone, Copy, PartialEq, Eq, Structural, Debug)]
pub struct CoordinationApproved {
    pub coordination_id: u64,
    pub votes_for: u8,
    pub votes_against: u8,
    pub timestamp: i64,
}

/// The vote resolved against the proposed action (ties land here).
#[derive(Clone, Copy, PartialEq, Eq, Structural, Debug)]
pub struct CoordinationRejected {
    pub coordination_id: u64,
    pub votes_for: u8,
    pub votes_against: u8,
    pub timestamp: i64,
}

/// An approved coordination was executed and its result fingerprint stored.
#[derive(Clone, Copy, PartialEq, Eq, Debug)]
pub struct CoordinationExecuted {
    pub coordination_id: u64,
    pub threat_id: u64,
    pub result_hash: [u8; 32],
    pub timestamp: i64,
}

/// An outcome report adjusted an agent's reputation score.
#[derive(Clone, Copy, PartialEq, Eq, Structural, Debug)]
pub struct ReputationUpdated {
    pub agent_id: AgentId,
    pub new_score: u8,
    pub success: bool,
    pub timestamp: i64,
}

/// One entry of the swarm's typed outbox.
#[derive(Clone, PartialEq, Eq, Debug)]
pub enum SwarmEvent {
    AgentRegistered(AgentRegistered),
    CoordinationInitiated(CoordinationInitiated),
    AgentJoinedCoordination(AgentJoinedCoordination),
    CoordinationApproved(CoordinationApproved),
    CoordinationRejected(CoordinationRejected),
    CoordinationExecuted(CoordinationExecuted),
    ReputationUpdated(ReputationUpdated),
}

} // verus!
