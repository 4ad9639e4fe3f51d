//! One coordination proposal per threat response: the record, its structural
//! invariant, and the lifecycle transitions that act on a single record.
//!
//! The vote-once rule deserves a note. The engine tracks, per coordination,
//! which participants have already voted and rejects a second ballot from
//! the same agent: otherwise one agent's repeated votes could dominate the
//! resolution. Likewise a ballot on an already resolved coordination is
//! rejected, so the status is only ever assigned from `Pending` and the
//! resolution happens at most once.

use vstd::prelude::*;
use crate::types::{
    AgentId, Capability, CoordinationStatus, Urgency, any_capability_overlap,
    contains_id, has_any_capability, MAX_ACTION_PLAN_CHARS, MAX_PARTICIPANTS,
    MAX_REQUIRED_CAPABILITIES,
};
use crate::agent::AgentRegistration;
use crate::errors::ErrorCode;

verus! {

/// One coordinated response to a threat. Created `Pending`; resolved by the
/// quorum rule; immutable once a terminal status is reached.
#[derive(Clone, PartialEq, Eq, Debug)]
pub struct Coordination {
    /// Sequential key, assigned from the registry's coordination counter.
    pub coordination_id: u64,
    /// Opaque reference into the external threat registry.
    pub threat_id: u64,
    pub initiator: AgentId,
    /// Any-of eligibility list, at most five entries.
    pub required_capabilities: Vec<Capability>,
    /// Free-text plan, at most a thousand characters.
    pub action_plan: String,
    pub urgency: Urgency,
    pub status: CoordinationStatus,
    /// Append-only set of joined agents, unique, at most ten.
    pub participating_agents: Vec<AgentId>,
    /// Participants whose ballot has been counted; enforces vote-once.
    pub voted_agents: Vec<AgentId>,
    pub votes_for: u8,
    pub votes_against: u8,
    pub initiated_at: i64,
    pub executed_at: Option<i64>,
    /// Result fingerprint; present exactly on executed coordinations.
    pub result_hash: Option<[u8; 32]>,
}

impl Coordination {
    /// Total ballots counted so far.
    pub open spec fn votes_total(self) -> int {
        self.votes_for + self.votes_against
    }

    /// Structural invariant of one record.
    pub open spec fn wf(self) -> bool {
        &&& self.required_capabilities@.len() <= MAX_REQUIRED_CAPABILITIES
        &&& self.action_plan@.len() <= MAX_ACTION_PLAN_CHARS
        &&& self.participating_agents@.len() <= MAX_PARTICIPANTS
        &&& forall|i: int, j: int|
                0 <= i < j < self.participating_agents@.len()
                ==> self.participating_agents@[i] != self.participating_agents@[j]
        &&& forall|i: int, j: int|
                0 <= i < j < self.voted_agents@.len()
                ==> self.voted_agents@[i] != self.voted_agents@[j]
        &&& forall|i: int|
                0 <= i < self.voted_agents@.len()
                ==> self.participating_agents@.contains(#[trigger] self.voted_agents@[i])
        &&& self.votes_total() == self.voted_agents@.len()
        &&& self.votes_total() <= self.participating_agents@.len()
        &&& self.status == CoordinationStatus::Pending
                ==> (self.votes_total() == 0 || self.votes_total() < self.participating_agents@.len())
        &&& self.result_hash is Some <==> self.status == CoordinationStatus::Executed
        &&& self.executed_at is Some <==> self.status == CoordinationStatus::Executed
    }

    /// A ballot is admissible when the coordination is still open, the voter
    /// joined it, and the voter has not voted before.
    pub open spec fn vote_allowed(self, agent_id: AgentId) -> bool {
        &&& self.status == CoordinationStatus::Pending
        &&& self.participating_agents@.contains(agent_id)
        &&& !self.voted_agents@.contains(agent_id)
    }

    /// How the quorum rule resolves a completed ballot: a strict majority of
    /// counted votes approves, anything else — ties included — rejects.
    pub open spec fn resolution(votes_for: u8, votes_against: u8) -> CoordinationStatus {
        if votes_for > votes_against {
            CoordinationStatus::Approved
        } else {
            CoordinationStatus::Rejected
        }
    }

    /// A fresh proposal: `Pending`, no participants, no ballots.
    pub fn new(
        coordination_id: u64,
        threat_id: u64,
        initiator: AgentId,
        required_capabilities: Vec<Capability>,
        action_plan: String,
        urgency: Urgency,
        now: i64,
    ) -> (c: Coordination)
        requires
            required_capabilities@.len() <= MAX_REQUIRED_CAPABILITIES,
            action_plan@.len() <= MAX_ACTION_PLAN_CHARS,
        ensures
            c.wf(),
            c == (Coordination {
                coordination_id,
                threat_id,
                initiator,
                required_capabilities,
                action_plan,
                urgency,
                status: CoordinationStatus::Pending,
                participating_agents: c.participating_agents,
                voted_agents: c.voted_agents,
                votes_for: 0u8,
                votes_against: 0u8,
                initiated_at: now,
                executed_at: None::<i64>,
                result_hash: None::<[u8; 32]>,
            }),
            c.participating_agents@ == Seq::<AgentId>::empty(),
            c.voted_agents@ == Seq::<AgentId>::empty(),
    {
        Coordination {
            coordination_id,
            threat_id,
            initiator,
            required_capabilities,
            action_plan,
            urgency,
            status: CoordinationStatus::Pending,
            participating_agents: Vec::new(),
            voted_agents: Vec::new(),
            votes_for: 0,
            votes_against: 0,
            initiated_at: now,
            executed_at: None,
            result_hash: None,
        }
    }

    /// Append an eligible agent to the participant set. Fails on a closed
    /// (terminal) record, on an agent with no required capability (any-of
    /// match), on a duplicate join, and when the ten-slot participant cap is
    /// full — the last is a capacity failure, not a business rule.
    pub fn apply_join(&mut self, agent: &AgentRegistration) -> (r: Result<(), ErrorCode>)
        requires
            old(self).wf(),
        ensures
            final(self).wf(),
            r is Err ==> *final(self) == *old(self),
            old(self).status.spec_is_terminal() ==> r == Err::<(), ErrorCode>(ErrorCode::CoordinationClosed),
            !old(self).status.spec_is_terminal()
                && !any_capability_overlap(old(self).required_capabilities@, agent.capabilities@)
                ==> r == Err::<(), ErrorCode>(ErrorCode::MissingCapabilities),
            !old(self).status.spec_is_terminal()
                && any_capability_overlap(old(self).required_capabilities@, agent.capabilities@)
                && old(self).participating_agents@.contains(agent.agent_id)
                ==> r == Err::<(), ErrorCode>(ErrorCode::AlreadyJoined),
            !old(self).status.spec_is_terminal()
                && any_capability_overlap(old(self).required_capabilities@, agent.capabilities@)
                && !old(self).participating_agents@.contains(agent.agent_id)
                && old(self).participating_agents@.len() >= MAX_PARTICIPANTS
                ==> r == Err::<(), ErrorCode>(ErrorCode::ParticipantLimitReached),
            !old(self).status.spec_is_terminal()
                && any_capability_overlap(old(self).required_capabilities@, agent.capabilities@)
                && !old(self).participating_agents@.contains(agent.agent_id)
                && old(self).participating_agents@.len() < MAX_PARTICIPANTS
                ==> r is Ok
                    && final(self).participating_agents@
                        == old(self).participating_agents@.push(agent.agent_id)
                    && *final(self) == (Coordination {
                        participating_agents: final(self).participating_agents,
                        ..*old(self)
                    }),
    {
        if self.status.is_terminal() {
            return Err(ErrorCode::CoordinationClosed);
        }
        if !has_any_capability(&self.required_capabilities, &agent.capabilities) {
            return Err(ErrorCode::MissingCapabilities);
        }
        if contains_id(&self.participating_agents, agent.agent_id) {
            return Err(ErrorCode::AlreadyJoined);
        }
        if self.participating_agents.len() >= MAX_PARTICIPANTS {
            return Err(ErrorCode::ParticipantLimitReached);
        }
        self.participating_agents.push(agent.agent_id);
        proof {
            let oldp = old(self).participating_agents@;
            let newp = self.participating_agents@;
            assert forall|i: int|
                0 <= i < self.voted_agents@.len()
                implies newp.contains(#[trigger] self.voted_agents@[i]) by {
                let v = self.voted_agents@[i];
                let k = choose|k: int| 0 <= k < oldp.len() && oldp[k] == v;
                assert(newp[k] == v);
            }
            assert forall|i: int, j: int|
                0 <= i < j < newp.len()
                implies newp[i] != newp[j] by {
                if j == oldp.len() {
                    assert(newp[i] == oldp[i]);
                    assert(!oldp.contains(agent.agent_id));
                    assert(oldp[i] != agent.agent_id);
                }
            }
        }
        Ok(())
    }

    /// Count one ballot and, once every participant's ballot is in, resolve
    /// the record by the quorum rule. Fails on a resolved record, on a
    /// non-participant, and on a second ballot from the same agent.
    pub fn apply_vote(&mut self, agent_id: AgentId, approve: bool) -> (r: Result<(), ErrorCode>)
        requires
            old(self).wf(),
        ensures
            final(self).wf(),
            r is Err ==> *final(self) == *old(self),
            old(self).status != CoordinationStatus::Pending
                ==> r == Err::<(), ErrorCode>(ErrorCode::AlreadyResolved),
            old(self).status == CoordinationStatus::Pending
                && !old(self).participating_agents@.contains(agent_id)
                ==> r == Err::<(), ErrorCode>(ErrorCode::NotParticipant),
            old(self).status == CoordinationStatus::Pending
                && old(self).participating_agents@.contains(agent_id)
                && old(self).voted_agents@.contains(agent_id)
                ==> r == Err::<(), ErrorCode>(ErrorCode::AlreadyVoted),
            old(self).vote_allowed(agent_id) ==> {
                &&& r is Ok
                &&& final(self).votes_for == old(self).votes_for + if approve { 1int } else { 0int }
                &&& final(self).votes_against == old(self).votes_against + if approve { 0int } else { 1int }
                &&& final(self).voted_agents@ == old(self).voted_agents@.push(agent_id)
                &&& final(self).status == (if final(self).votes_total() >= old(self).participating_agents@.len() {
                        Coordination::resolution(final(self).votes_for, final(self).votes_against)
                    } else {
                        CoordinationStatus::Pending
                    })
                &&& *final(self) == (Coordination {
                        votes_for: final(self).votes_for,
                        votes_against: final(self).votes_against,
                        voted_agents: final(self).voted_agents,
                        status: final(self).status,
                        ..*old(self)
                    })
            },
    {
        if self.status != CoordinationStatus::Pending {
            return Err(ErrorCode::AlreadyResolved);
        }
        if !contains_id(&self.participating_agents, agent_id) {
            return Err(ErrorCode::NotParticipant);
        }
        if contains_id(&self.voted_agents, agent_id) {
            return Err(ErrorCode::AlreadyVoted);
        }
        if approve {
            self.votes_for = self.votes_for + 1;
        } else {
            self.votes_against = self.votes_against + 1;
        }
        self.voted_agents.push(agent_id);
        let total: u8 = self.votes_for + self.votes_against;
        if total as usize >= self.participating_agents.len() {
            if self.votes_for > self.votes_against {
                self.status = CoordinationStatus::Approved;
            } else {
                self.status = CoordinationStatus::Rejected;
            }
        }
        Ok(())
    }

    /// Execute an approved coordination: stamp the execution time and store
    /// the result fingerprint. Fails unless the status is `Approved`.
    pub fn apply_execute(&mut self, result_hash: [u8; 32], now: i64) -> (r: Result<(), ErrorCode>)
        requires
            old(self).wf(),
        ensures
            final(self).wf(),
            r is Err ==> *final(self) == *old(self),
            old(self).status != CoordinationStatus::Approved
                ==> r == Err::<(), ErrorCode>(ErrorCode::NotApproved),
            old(self).status == CoordinationStatus::Approved
                ==> r is Ok
                    && *final(self) == (Coordination {
                        status: CoordinationStatus::Executed,
                        executed_at: Some(now),
                        result_hash: Some(result_hash),
                        ..*old(self)
                    }),
    {
        if self.status != CoordinationStatus::Approved {
            return Err(ErrorCode::NotApproved);
        }
        self.status = CoordinationStatus::Executed;
        self.executed_at = Some(now);
        self.result_hash = Some(result_hash);
        Ok(())
    }
}

} // verus!
