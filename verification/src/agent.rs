//! The agent record store's unit: one record per registered identity,
//! created once and never deleted.

use vstd::prelude::*;
use crate::types::{AgentId, AgentType, Capability, MAX_CAPABILITIES, MAX_REPUTATION};

verus! {

/// The exact reputation step: a success raises the score by one, clamped at
/// the ceiling; a failure lowers it by five, floored at zero.
pub open spec fn next_reputation(score: u8, success: bool) -> u8 {
    if success {
        if score >= MAX_REPUTATION {
            MAX_REPUTATION
        } else {
            (score + 1) as u8
        }
    } else {
        if score >= 5 {
            (score - 5) as u8
        } else {
            0u8
        }
    }
}

/// One registered agent. Owned exclusively by its identity; mutated only
/// through heartbeats and reputation updates.
#[derive(Clone, PartialEq, Eq, Debug)]
pub struct AgentRegistration {
    /// Identity key; immutable after registration.
    pub agent_id: AgentId,
    pub agent_type: AgentType,
    /// Declared skill tags, at most ten; semantically a set, duplicates allowed.
    pub capabilities: Vec<Capability>,
    pub registered_at: i64,
    pub last_active: i64,
    pub active: bool,
    pub total_actions: u64,
    pub successful_actions: u64,
    /// Trust score, always within `0 ..= 100`.
    pub reputation_score: u8,
}

impl AgentRegistration {
    /// Structural invariant of a record: bounded capability set, bounded
    /// score, and no more successes than actions.
    pub open spec fn wf(self) -> bool {
        &&& self.capabilities@.len() <= MAX_CAPABILITIES
        &&& self.reputation_score <= MAX_REPUTATION
        &&& self.successful_actions <= self.total_actions
    }

    /// A fresh record: active, zero counters, full trust.
    pub fn new(agent_id: AgentId, agent_type: AgentType, capabilities: Vec<Capability>, now: i64) -> (a: AgentRegistration)
        requires
            capabilities@.len() <= MAX_CAPABILITIES,
        ensures
            a.wf(),
            a == (AgentRegistration {
                agent_id,
                agent_type,
                capabilities,
                registered_at: now,
                last_active: now,
                active: true,
                total_actions: 0u64,
                successful_actions: 0u64,
                reputation_score: MAX_REPUTATION,
            }),
    {
        AgentRegistration {
            agent_id,
            agent_type,
            capabilities,
            registered_at: now,
            last_active: now,
            active: true,
            total_actions: 0,
            successful_actions: 0,
            reputation_score: MAX_REPUTATION,
        }
    }

    /// Stamp the record as active now; nothing else changes.
    pub fn apply_heartbeat(&mut self, now: i64)
        ensures
            *final(self) == (AgentRegistration { last_active: now, ..*old(self) }),
    {
        self.last_active = now;
    }

    /// Record one reported action outcome: bump the action counters and step
    /// the reputation score, saturating at its bounds.
    pub fn apply_reputation(&mut self, success: bool)
        requires
            old(self).wf(),
            old(self).total_actions < u64::MAX,
        ensures
            final(self).wf(),
            final(self).total_actions == old(self).total_actions + 1,
            final(self).successful_actions == old(self).successful_actions + if success { 1int } else { 0int },
            final(self).reputation_score == next_reputation(old(self).reputation_score, success),
            *final(self) == (AgentRegistration {
                total_actions: final(self).total_actions,
                successful_actions: final(self).successful_actions,
                reputation_score: final(self).reputation_score,
                ..*old(self)
            }),
    {
        self.total_actions = self.total_actions + 1;
        if success {
            self.successful_actions = self.successful_actions + 1;
            if self.reputation_score >= MAX_REPUTATION {
                self.reputation_score = MAX_REPUTATION;
            } else {
                self.reputation_score = self.reputation_score + 1;
            }
        } else {
            if self.reputation_score >= 5 {
                self.reputation_score = self.reputation_score - 5;
            } else {
                self.reputation_score = 0;
            }
        }
    }
}

} // verus!
