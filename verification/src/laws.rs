//! The engine's cross-cutting guarantees, stated once and proved from the
//! swarm invariant that every operation establishes and preserves.

use vstd::prelude::*;
use crate::types::CoordinationStatus;
use crate::swarm::{
    Swarm, agent_record, has_agent, lemma_count_unexecuted_le_len,
};

verus! {

/// At every observed state the ballots counted on a coordination never
/// outnumber its participants.
pub proof fn lemma_vote_tally_bounded(s: Swarm, coordination_id: u64)
    requires
        s.wf(),
        s.has_coordination(coordination_id),
    ensures
        s.coordination_at(coordination_id).votes_for
            + s.coordination_at(coordination_id).votes_against
            <= s.coordination_at(coordination_id).participating_agents@.len(),
{
}

/// Once ballots from a non-empty participant set reach the participant
/// count, the coordination is resolved: its status is no longer `Pending`.
/// A coordination nobody has joined is the one exception — it holds zero
/// ballots from zero participants and stays pending until agents join and
/// vote, which is why the non-empty hypothesis is needed.
pub proof fn lemma_quorum_resolves(s: Swarm, coordination_id: u64)
    requires
        s.wf(),
        s.has_coordination(coordination_id),
        s.coordination_at(coordination_id).participating_agents@.len() > 0,
        s.coordination_at(coordination_id).votes_for
            + s.coordination_at(coordination_id).votes_against
            >= s.coordination_at(coordination_id).participating_agents@.len(),
    ensures
        s.coordination_at(coordination_id).status != CoordinationStatus::Pending,
{
}

/// Every registered agent's reputation score stays within `0 ..= 100`.
pub proof fn lemma_reputation_bounded(s: Swarm, agent_id: u64)
    requires
        s.wf(),
        has_agent(s.agents@, agent_id),
    ensures
        agent_record(s.agents@, agent_id).reputation_score <= 100,
{
}

/// The active-coordination counter never exceeds the total-coordination
/// counter: executed records release their slot, and no record is counted
/// twice.
pub proof fn lemma_active_le_total(s: Swarm)
    requires
        s.wf(),
    ensures
        s.registry.active_coordinations <= s.registry.total_coordinations,
{
    lemma_count_unexecuted_le_len(s.coordinations@);
}

/// The registry counters are derived aggregates that never drift: the agent
/// counter is the number of agent records, the coordination counter the
/// number of coordination records.
pub proof fn lemma_counters_match(s: Swarm)
    requires
        s.wf(),
    ensures
        s.registry.total_agents == s.agents@.len(),
        s.registry.total_coordinations == s.coordinations@.len(),
{
}

/// A result fingerprint is stored exactly on executed coordinations, and
/// an execution timestamp with it.
pub proof fn lemma_result_hash_iff_executed(s: Swarm, coordination_id: u64)
    requires
        s.wf(),
        s.has_coordination(coordination_id),
    ensures
        s.coordination_at(coordination_id).result_hash is Some
            <==> s.coordination_at(coordination_id).status == CoordinationStatus::Executed,
        s.coordination_at(coordination_id).executed_at is Some
            <==> s.coordination_at(coordination_id).status == CoordinationStatus::Executed,
{
}

/// Coordinations hold only weak references: every participant identity on
/// every coordination belongs to a registered agent record.
pub proof fn lemma_participants_registered(s: Swarm, coordination_id: u64, k: int)
    requires
        s.wf(),
        s.has_coordination(coordination_id),
        0 <= k < s.coordination_at(coordination_id).participating_agents@.len(),
    ensures
        has_agent(s.agents@, s.coordination_at(coordination_id).participating_agents@[k]),
{
}

/// The participant set of every coordination is genuinely a set: no
/// identity appears twice, and it never holds more than ten entries.
pub proof fn lemma_participants_unique(s: Swarm, coordination_id: u64, i: int, j: int)
    requires
        s.wf(),
        s.has_coordination(coordination_id),
        0 <= i < j < s.coordination_at(coordination_id).participating_agents@.len(),
    ensures
        s.coordination_at(coordination_id).participating_agents@[i]
            != s.coordination_at(coordination_id).participating_agents@[j],
        s.coordination_at(coordination_id).participating_agents@.len() <= 10,
{
}

} // verus!
