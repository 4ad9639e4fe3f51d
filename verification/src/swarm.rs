//! The swarm: the singleton registry counters, the agent record store, the
//! coordination store, and the event outbox, advanced by one atomic
//! operation at a time.
//!
//! The host supplies identity proofs (signature checks gate every mutating
//! call before it reaches the engine) and the clock (`now` parameters).
//! Records are addressed by stable keys: an agent by its identity, a
//! coordination by its sequential id — which in this model is its index.

use vstd::prelude::*;
use vstd::string::StrSliceExecFns;
use crate::types::{
    AgentId, AgentType, Capability, CoordinationStatus, Urgency,
    any_capability_overlap, contains_id, has_any_capability, MAX_CAPABILITIES, MAX_REPUTATION,
    MAX_ACTION_PLAN_CHARS, MAX_PARTICIPANTS, MAX_REQUIRED_CAPABILITIES,
};
use crate::agent::{AgentRegistration, next_reputation};
use crate::coordination::Coordination;
use crate::errors::ErrorCode;
use crate::events::{
    AgentRegistered, AgentJoinedCoordination, CoordinationApproved,
    CoordinationExecuted, CoordinationInitiated, CoordinationRejected,
    ReputationUpdated, SwarmEvent,
};

verus! {

/// The singleton counter block. Counters change only as side effects of the
/// lifecycle operations, never through a direct mutation API.
#[derive(Clone, Copy, PartialEq, Eq, Structural, Debug)]
pub struct SwarmRegistry {
    /// The controlling identity recorded at initialization.
    pub authority: AgentId,
    pub total_agents: u64,
    pub active_coordinations: u64,
    pub total_coordinations: u64,
}

/// A coordination still counts as active until it is executed.
pub open spec fn spec_is_unexecuted(c: Coordination) -> bool {
    c.status != CoordinationStatus::Executed
}

/// How many coordinations of a store have not been executed yet. The
/// registry's `active_coordinations` counter always equals this number.
pub open spec fn count_unexecuted(s: Seq<Coordination>) -> nat
    decreases s.len(),
{
    if s.len() == 0 {
        0
    } else {
        count_unexecuted(s.drop_last()) + if spec_is_unexecuted(s.last()) {
            1nat
        } else {
            0nat
        }
    }
}

/// The count of unexecuted coordinations never exceeds the total count.
pub proof fn lemma_count_unexecuted_le_len(s: Seq<Coordination>)
    ensures
        count_unexecuted(s) <= s.len(),
    decreases s.len(),
{
    if s.len() > 0 {
        lemma_count_unexecuted_le_len(s.drop_last());
    }
}

/// Appending a coordination raises the count exactly when it is unexecuted.
pub proof fn lemma_count_unexecuted_push(s: Seq<Coordination>, c: Coordination)
    ensures
        count_unexecuted(s.push(c)) == count_unexecuted(s) + if spec_is_unexecuted(c) {
            1int
        } else {
            0int
        },
{
    assert(s.push(c).drop_last() =~= s);
    assert(s.push(c).last() == c);
}

/// Replacing one coordination changes the count by the difference of the
/// two elements' contributions.
pub proof fn lemma_count_unexecuted_update(s: Seq<Coordination>, i: int, c: Coordination)
    requires
        0 <= i < s.len(),
    ensures
        count_unexecuted(s.update(i, c)) == count_unexecuted(s) - (
        if spec_is_unexecuted(s[i]) {
            1int
        } else {
            0int
        }) + (
        if spec_is_unexecuted(c) {
            1int
        } else {
            0int
        }),
    decreases s.len(),
{
    let t = s.update(i, c);
    if i == s.len() - 1 {
        assert(t.drop_last() =~= s.drop_last());
        assert(t.last() == c);
        assert(s.last() == s[i]);
    } else {
        assert(t.drop_last() =~= s.drop_last().update(i, c));
        assert(t.last() == s.last());
        lemma_count_unexecuted_update(s.drop_last(), i, c);
        assert(s.drop_last()[i] == s[i]);
    }
}

/// A store holding some unexecuted coordination has a positive count.
pub proof fn lemma_count_unexecuted_pos(s: Seq<Coordination>, i: int)
    requires
        0 <= i < s.len(),
        spec_is_unexecuted(s[i]),
    ensures
        count_unexecuted(s) >= 1,
    decreases s.len(),
{
    if i < s.len() - 1 {
        assert(s.drop_last()[i] == s[i]);
        lemma_count_unexecuted_pos(s.drop_last(), i);
    }
}

/// Whether a record store holds a record for the given identity.
pub open spec fn has_agent(agents: Seq<AgentRegistration>, id: AgentId) -> bool {
    exists|i: int| 0 <= i < agents.len() && agents[i].agent_id == id
}

/// The index of the identity's record. Meaningful only when `has_agent`
/// holds; in a well-formed swarm identities are unique, so it is the one
/// index whose record carries the identity.
pub open spec fn agent_index(agents: Seq<AgentRegistration>, id: AgentId) -> int {
    choose|i: int| 0 <= i < agents.len() && agents[i].agent_id == id
}

/// The identity's record, for stating what an operation read or changed.
pub open spec fn agent_record(agents: Seq<AgentRegistration>, id: AgentId) -> AgentRegistration {
    agents[agent_index(agents, id)]
}

/// The whole engine state.
pub struct Swarm {
    pub registry: SwarmRegistry,
    /// One record per registered identity; append-only.
    pub agents: Vec<AgentRegistration>,
    /// One record per initiated coordination, addressed by sequential id.
    pub coordinations: Vec<Coordination>,
    /// The typed outbox: an append-only sequence of domain events.
    pub events: Vec<SwarmEvent>,
}

impl Swarm {
    /// The cross-record invariant every operation preserves: the counters
    /// match the true aggregates (they never drift), identities are unique,
    /// every record is well formed, coordinations sit at the slot of their
    /// id, and every participant of every coordination is a registered
    /// agent.
    pub open spec fn wf(self) -> bool {
        &&& self.registry.total_agents == self.agents@.len()
        &&& self.registry.total_coordinations == self.coordinations@.len()
        &&& self.registry.active_coordinations == count_unexecuted(self.coordinations@)
        &&& forall|i: int| 0 <= i < self.agents@.len() ==> (#[trigger] self.agents@[i]).wf()
        &&& forall|i: int, j: int|
                0 <= i < j < self.agents@.len()
                ==> self.agents@[i].agent_id != self.agents@[j].agent_id
        &&& forall|i: int| 0 <= i < self.coordinations@.len() ==> (#[trigger] self.coordinations@[i]).wf()
        &&& forall|i: int|
                0 <= i < self.coordinations@.len()
                ==> (#[trigger] self.coordinations@[i]).coordination_id == i
        &&& forall|i: int, j: int|
                0 <= i < self.coordinations@.len()
                && 0 <= j < self.coordinations@[i].participating_agents@.len()
                ==> has_agent(self.agents@, #[trigger] self.coordinations@[i].participating_agents@[j])
    }
}

/// Create the swarm registry: all counters zero, the controlling identity
/// recorded, empty stores and outbox. The host's addressing creates the
/// singleton at a well-known slot exactly once, so in this model
/// initialization is construction and cannot be repeated on the same store.
pub fn initialize_swarm(authority: AgentId) -> (s: Swarm)
    ensures
        s.wf(),
        s.registry == (SwarmRegistry {
            authority,
            total_agents: 0u64,
            active_coordinations: 0u64,
            total_coordinations: 0u64,
        }),
        s.agents@ == Seq::<AgentRegistration>::empty(),
        s.coordinations@ == Seq::<Coordination>::empty(),
        s.events@ == Seq::<SwarmEvent>::empty(),
{
    Swarm {
        registry: SwarmRegistry {
            authority,
            total_agents: 0,
            active_coordinations: 0,
            total_coordinations: 0,
        },
        agents: Vec::new(),
        coordinations: Vec::new(),
        events: Vec::new(),
    }
}

/// Copy a capability list element by element, so that a record and an event
/// can each carry the full set.
fn copy_capabilities(list: &Vec<Capability>) -> (r: Vec<Capability>)
    ensures
        r@ == list@,
{
    let mut r: Vec<Capability> = Vec::new();
    let mut i: usize = 0;
    while i < list.len()
        invariant
            0 <= i <= list@.len(),
            r@ == list@.subrange(0, i as int),
        decreases list@.len() - i,
    {
        r.push(list[i]);
        proof {
            assert(r@ =~= list@.subrange(0, i + 1));
        }
        i += 1;
    }
    proof {
        assert(r@ =~= list@);
    }
    r
}

/// Find the slot of an identity's record.
fn find_agent_index(agents: &Vec<AgentRegistration>, id: AgentId) -> (r: Option<usize>)
    ensures
        match r {
            Some(i) => i < agents@.len() && agents@[i as int].agent_id == id,
            None => !has_agent(agents@, id),
        },
{
    let mut i: usize = 0;
    while i < agents.len()
        invariant
            0 <= i <= agents@.len(),
            forall|j: int| 0 <= j < i ==> agents@[j].agent_id != id,
        decreases agents@.len() - i,
    {
        if agents[i].agent_id == id {
            return Some(i);
        }
        i += 1;
    }
    None
}

impl Swarm {
    /// Register a new agent: create-once per identity. Rejects an oversized
    /// capability set and a duplicate identity; on success appends the
    /// record with full trust, bumps `total_agents`, and emits
    /// `AgentRegistered` carrying the full capability set.
    pub fn register_agent(
        &mut self,
        agent_id: AgentId,
        agent_type: AgentType,
        capabilities: Vec<Capability>,
        now: i64,
    ) -> (r: Result<(), ErrorCode>)
        requires
            old(self).wf(),
            old(self).registry.total_agents < u64::MAX,
        ensures
            final(self).wf(),
            r is Err ==> *final(self) == *old(self),
            capabilities@.len() > MAX_CAPABILITIES
                ==> r == Err::<(), ErrorCode>(ErrorCode::TooManyCapabilities),
            capabilities@.len() <= MAX_CAPABILITIES && has_agent(old(self).agents@, agent_id)
                ==> r == Err::<(), ErrorCode>(ErrorCode::AlreadyRegistered),
            capabilities@.len() <= MAX_CAPABILITIES && !has_agent(old(self).agents@, agent_id)
                ==> {
                &&& r is Ok
                &&& final(self).agents@ == old(self).agents@.push((AgentRegistration {
                        agent_id,
                        agent_type,
                        capabilities,
                        registered_at: now,
                        last_active: now,
                        active: true,
                        total_actions: 0u64,
                        successful_actions: 0u64,
                        reputation_score: MAX_REPUTATION,
                    }))
                &&& final(self).registry == (SwarmRegistry {
                        total_agents: (old(self).registry.total_agents + 1) as u64,
                        ..old(self).registry
                    })
                &&& final(self).coordinations == old(self).coordinations
                &&& final(self).events@ == old(self).events@.push(final(self).events@.last())
                &&& final(self).events@.last() matches SwarmEvent::AgentRegistered(e)
                        && e.agent_id == agent_id
                        && e.agent_type == agent_type
                        && e.capabilities@ == capabilities@
                        && e.timestamp == now
            },
    {
        if capabilities.len() > MAX_CAPABILITIES {
            return Err(ErrorCode::TooManyCapabilities);
        }
        if find_agent_index(&self.agents, agent_id).is_some() {
            return Err(ErrorCode::AlreadyRegistered);
        }
        let event_capabilities = copy_capabilities(&capabilities);
        let record = AgentRegistration::new(agent_id, agent_type, capabilities, now);
        self.agents.push(record);
        self.registry.total_agents = self.registry.total_agents + 1;
        self.events.push(SwarmEvent::AgentRegistered(AgentRegistered {
            agent_id,
            agent_type,
            capabilities: event_capabilities,
            timestamp: now,
        }));
        proof {
            let olda = old(self).agents@;
            let newa = self.agents@;
            assert forall|i: int, j: int|
                0 <= i < j < newa.len()
                implies newa[i].agent_id != newa[j].agent_id by {
                if j == olda.len() {
                    assert(newa[i] == olda[i]);
                    assert(olda[i].agent_id != agent_id);
                }
            }
            assert forall|i: int, j: int|
                0 <= i < self.coordinations@.len()
                && 0 <= j < self.coordinations@[i].participating_agents@.len()
                implies has_agent(newa, #[trigger] self.coordinations@[i].participating_agents@[j]) by {
                let p = self.coordinations@[i].participating_agents@[j];
                assert(has_agent(olda, p));
                let k = choose|k: int| 0 <= k < olda.len() && olda[k].agent_id == p;
                assert(newa[k].agent_id == p);
            }
        }
        Ok(())
    }

    /// Initiate a coordinated response to a threat. Rejects an oversized
    /// required-capability list or action plan; on success appends a
    /// `Pending` coordination keyed by the current coordination counter,
    /// bumps both coordination counters, and emits `CoordinationInitiated`.
    /// No eligibility check applies to the initiator.
    pub fn initiate_coordination(
        &mut self,
        initiator: AgentId,
        threat_id: u64,
        required_capabilities: Vec<Capability>,
        action_plan: String,
        urgency: Urgency,
        now: i64,
    ) -> (r: Result<u64, ErrorCode>)
        requires
            old(self).wf(),
            old(self).registry.total_coordinations < u64::MAX,
        ensures
            final(self).wf(),
            r is Err ==> *final(self) == *old(self),
            required_capabilities@.len() > MAX_REQUIRED_CAPABILITIES
                ==> r == Err::<u64, ErrorCode>(ErrorCode::TooManyCapabilities),
            required_capabilities@.len() <= MAX_REQUIRED_CAPABILITIES
                && action_plan@.len() > MAX_ACTION_PLAN_CHARS
                ==> r == Err::<u64, ErrorCode>(ErrorCode::ActionPlanTooLong),
            required_capabilities@.len() <= MAX_REQUIRED_CAPABILITIES
                && action_plan@.len() <= MAX_ACTION_PLAN_CHARS
                ==> {
                &&& r == Ok::<u64, ErrorCode>(old(self).registry.total_coordinations)
                &&& final(self).coordinations@ == old(self).coordinations@.push(
                        (Coordination {
                            coordination_id: old(self).registry.total_coordinations,
                            threat_id,
                            initiator,
                            required_capabilities,
                            action_plan,
                            urgency,
                            status: CoordinationStatus::Pending,
                            participating_agents: final(self).coordinations@.last().participating_agents,
                            voted_agents: final(self).coordinations@.last().voted_agents,
                            votes_for: 0u8,
                            votes_against: 0u8,
                            initiated_at: now,
                            executed_at: None::<i64>,
                            result_hash: None::<[u8; 32]>,
                        }))
                &&& final(self).coordinations@.last().participating_agents@
                        == Seq::<AgentId>::empty()
                &&& final(self).coordinations@.last().voted_agents@ == Seq::<AgentId>::empty()
                &&& final(self).registry == (SwarmRegistry {
                        total_coordinations: (old(self).registry.total_coordinations + 1) as u64,
                        active_coordinations: (old(self).registry.active_coordinations + 1) as u64,
                        ..old(self).registry
                    })
                &&& final(self).agents == old(self).agents
                &&& final(self).events@ == old(self).events@.push(
                        SwarmEvent::CoordinationInitiated((CoordinationInitiated {
                            coordination_id: old(self).registry.total_coordinations,
                            threat_id,
                            initiator,
                            urgency,
                            timestamp: now,
                        })))
            },
    {
        if required_capabilities.len() > MAX_REQUIRED_CAPABILITIES {
            return Err(ErrorCode::TooManyCapabilities);
        }
        if action_plan.as_str().unicode_len() > MAX_ACTION_PLAN_CHARS {
            return Err(ErrorCode::ActionPlanTooLong);
        }
        let coordination_id = self.registry.total_coordinations;
        proof {
            lemma_count_unexecuted_le_len(self.coordinations@);
        }
        let record = Coordination::new(
            coordination_id,
            threat_id,
            initiator,
            required_capabilities,
            action_plan,
            urgency,
            now,
        );
        proof {
            lemma_count_unexecuted_push(self.coordinations@, record);
        }
        self.coordinations.push(record);
        self.registry.total_coordinations = self.registry.total_coordinations + 1;
        self.registry.active_coordinations = self.registry.active_coordinations + 1;
        self.events.push(SwarmEvent::CoordinationInitiated(CoordinationInitiated {
            coordination_id,
            threat_id,
            initiator,
            urgency,
            timestamp: now,
        }));
        proof {
            let oldc = old(self).coordinations@;
            let newc = self.coordinations@;
            assert forall|i: int, j: int|
                0 <= i < newc.len() && 0 <= j < newc[i].participating_agents@.len()
                implies has_agent(self.agents@, #[trigger] newc[i].participating_agents@[j]) by {
                if i < oldc.len() {
                    assert(newc[i] == oldc[i]);
                    assert(has_agent(old(self).agents@, newc[i].participating_agents@[j]));
                } else {
                    assert(newc[i] == record);
                    assert(newc[i].participating_agents@.len() == 0);
                }
            }
        }
        Ok(coordination_id)
    }
}

impl Swarm {
    /// Shorthand: the store holds a coordination under this id.
    pub open spec fn has_coordination(self, coordination_id: u64) -> bool {
        coordination_id < self.coordinations@.len()
    }

    /// The coordination record under this id.
    pub open spec fn coordination_at(self, coordination_id: u64) -> Coordination {
        self.coordinations@[coordination_id as int]
    }
}

/// In a store with unique identities the record found at any index carrying
/// the identity is the record of that identity.
pub proof fn lemma_agent_index_unique(agents: Seq<AgentRegistration>, id: AgentId, i: int)
    requires
        forall|p: int, q: int|
            0 <= p < q < agents.len() ==> agents[p].agent_id != agents[q].agent_id,
        0 <= i < agents.len(),
        agents[i].agent_id == id,
    ensures
        has_agent(agents, id),
        agent_index(agents, id) == i,
        agent_record(agents, id) == agents[i],
{
    assert(has_agent(agents, id));
    let j = agent_index(agents, id);
    if j < i {
        assert(agents[j].agent_id != agents[i].agent_id);
    } else if j > i {
        assert(agents[i].agent_id != agents[j].agent_id);
    }
}

impl Swarm {
    /// Join an agent to a coordination. The agent must be registered, the
    /// coordination must exist and not be closed (terminal), the agent must
    /// declare at least one required capability (any-of match), must not
    /// have joined before, and a participant slot must be free.
    pub fn join_coordination(
        &mut self,
        coordination_id: u64,
        agent_id: AgentId,
        now: i64,
    ) -> (r: Result<(), ErrorCode>)
        requires
            old(self).wf(),
        ensures
            final(self).wf(),
            r is Err ==> *final(self) == *old(self),
            !old(self).has_coordination(coordination_id)
                ==> r == Err::<(), ErrorCode>(ErrorCode::CoordinationNotFound),
            old(self).has_coordination(coordination_id) && !has_agent(old(self).agents@, agent_id)
                ==> r == Err::<(), ErrorCode>(ErrorCode::AgentNotFound),
            old(self).has_coordination(coordination_id)
                && has_agent(old(self).agents@, agent_id)
                && old(self).coordination_at(coordination_id).status.spec_is_terminal()
                ==> r == Err::<(), ErrorCode>(ErrorCode::CoordinationClosed),
            old(self).has_coordination(coordination_id)
                && has_agent(old(self).agents@, agent_id)
                && !old(self).coordination_at(coordination_id).status.spec_is_terminal()
                && !any_capability_overlap(
                    old(self).coordination_at(coordination_id).required_capabilities@,
                    agent_record(old(self).agents@, agent_id).capabilities@,
                )
                ==> r == Err::<(), ErrorCode>(ErrorCode::MissingCapabilities),
            old(self).has_coordination(coordination_id)
                && has_agent(old(self).agents@, agent_id)
                && !old(self).coordination_at(coordination_id).status.spec_is_terminal()
                && any_capability_overlap(
                    old(self).coordination_at(coordination_id).required_capabilities@,
                    agent_record(old(self).agents@, agent_id).capabilities@,
                )
                && old(self).coordination_at(coordination_id).participating_agents@.contains(agent_id)
                ==> r == Err::<(), ErrorCode>(ErrorCode::AlreadyJoined),
            old(self).has_coordination(coordination_id)
                && has_agent(old(self).agents@, agent_id)
                && !old(self).coordination_at(coordination_id).status.spec_is_terminal()
                && any_capability_overlap(
                    old(self).coordination_at(coordination_id).required_capabilities@,
                    agent_record(old(self).agents@, agent_id).capabilities@,
                )
                && !old(self).coordination_at(coordination_id).participating_agents@.contains(agent_id)
                && old(self).coordination_at(coordination_id).participating_agents@.len()
                    >= MAX_PARTICIPANTS
                ==> r == Err::<(), ErrorCode>(ErrorCode::ParticipantLimitReached),
            old(self).has_coordination(coordination_id)
                && has_agent(old(self).agents@, agent_id)
                && !old(self).coordination_at(coordination_id).status.spec_is_terminal()
                && any_capability_overlap(
                    old(self).coordination_at(coordination_id).required_capabilities@,
                    agent_record(old(self).agents@, agent_id).capabilities@,
                )
                && !old(self).coordination_at(coordination_id).participating_agents@.contains(agent_id)
                && old(self).coordination_at(coordination_id).participating_agents@.len()
                    < MAX_PARTICIPANTS
                ==> {
                &&& r is Ok
                &&& final(self).coordinations@ == old(self).coordinations@.update(
                        coordination_id as int,
                        final(self).coordination_at(coordination_id),
                    )
                &&& final(self).coordination_at(coordination_id).participating_agents@
                        == old(self).coordination_at(coordination_id).participating_agents@.push(agent_id)
                &&& final(self).coordination_at(coordination_id) == (Coordination {
                        participating_agents: final(self).coordination_at(coordination_id).participating_agents,
                        ..old(self).coordination_at(coordination_id)
                    })
                &&& final(self).agents == old(self).agents
                &&& final(self).registry == old(self).registry
                &&& final(self).events@ == old(self).events@.push(
                        SwarmEvent::AgentJoinedCoordination((AgentJoinedCoordination {
                            coordination_id,
                            agent_id,
                            timestamp: now,
                        })))
            },
    {
        if coordination_id >= self.coordinations.len() as u64 {
            return Err(ErrorCode::CoordinationNotFound);
        }
        let cid = coordination_id as usize;
        let agent_idx = match find_agent_index(&self.agents, agent_id) {
            None => {
                return Err(ErrorCode::AgentNotFound);
            },
            Some(i) => i,
        };
        proof {
            lemma_agent_index_unique(self.agents@, agent_id, agent_idx as int);
        }
        if self.coordinations[cid].status.is_terminal() {
            return Err(ErrorCode::CoordinationClosed);
        }
        if !has_any_capability(
            &self.coordinations[cid].required_capabilities,
            &self.agents[agent_idx].capabilities,
        ) {
            return Err(ErrorCode::MissingCapabilities);
        }
        if contains_id(&self.coordinations[cid].participating_agents, agent_id) {
            return Err(ErrorCode::AlreadyJoined);
        }
        if self.coordinations[cid].participating_agents.len() >= MAX_PARTICIPANTS {
            return Err(ErrorCode::ParticipantLimitReached);
        }
        let record = &mut self.coordinations[cid];
        let agent = &self.agents[agent_idx];
        let _ = record.apply_join(agent);
        proof {
            let oldc = old(self).coordinations@;
            let newc = self.coordinations@;
            let d = newc[cid as int];
            lemma_count_unexecuted_update(oldc, cid as int, d);
            assert forall|i: int, j: int|
                0 <= i < newc.len() && 0 <= j < newc[i].participating_agents@.len()
                implies has_agent(self.agents@, #[trigger] newc[i].participating_agents@[j]) by {
                if i != cid as int {
                    assert(newc[i] == oldc[i]);
                } else {
                    let p = newc[i].participating_agents@[j];
                    if j < oldc[i].participating_agents@.len() {
                        assert(p == oldc[i].participating_agents@[j]);
                    } else {
                        assert(p == agent_id);
                    }
                }
            }
        }
        self.events.push(SwarmEvent::AgentJoinedCoordination(AgentJoinedCoordination {
            coordination_id,
            agent_id,
            timestamp: now,
        }));
        Ok(())
    }
}


impl Swarm {
    /// Count one ballot on a coordination and resolve it by the quorum rule
    /// once every participant's ballot is in: a strict majority approves,
    /// a tie or a minority rejects. A ballot on a resolved coordination and
    /// a second ballot from the same agent are rejected, so the status is
    /// only ever assigned from `Pending` and resubmitting the resolving
    /// ballot cannot flip it. Emits `CoordinationApproved` or
    /// `CoordinationRejected` exactly when this ballot resolves the record.
    pub fn vote_on_coordination(
        &mut self,
        coordination_id: u64,
        agent_id: AgentId,
        approve: bool,
        now: i64,
    ) -> (r: Result<(), ErrorCode>)
        requires
            old(self).wf(),
        ensures
            final(self).wf(),
            r is Err ==> *final(self) == *old(self),
            !old(self).has_coordination(coordination_id)
                ==> r == Err::<(), ErrorCode>(ErrorCode::CoordinationNotFound),
            old(self).has_coordination(coordination_id)
                && old(self).coordination_at(coordination_id).status != CoordinationStatus::Pending
                ==> r == Err::<(), ErrorCode>(ErrorCode::AlreadyResolved),
            old(self).has_coordination(coordination_id)
                && old(self).coordination_at(coordination_id).status == CoordinationStatus::Pending
                && !old(self).coordination_at(coordination_id).participating_agents@.contains(agent_id)
                ==> r == Err::<(), ErrorCode>(ErrorCode::NotParticipant),
            old(self).has_coordination(coordination_id)
                && old(self).coordination_at(coordination_id).status == CoordinationStatus::Pending
                && old(self).coordination_at(coordination_id).participating_agents@.contains(agent_id)
                && old(self).coordination_at(coordination_id).voted_agents@.contains(agent_id)
                ==> r == Err::<(), ErrorCode>(ErrorCode::AlreadyVoted),
            old(self).has_coordination(coordination_id)
                && old(self).coordination_at(coordination_id).vote_allowed(agent_id)
                ==> {
                &&& r is Ok
                &&& final(self).coordinations@ == old(self).coordinations@.update(
                        coordination_id as int,
                        final(self).coordination_at(coordination_id),
                    )
                &&& final(self).coordination_at(coordination_id).votes_for
                        == old(self).coordination_at(coordination_id).votes_for
                            + if approve { 1int } else { 0int }
                &&& final(self).coordination_at(coordination_id).votes_against
                        == old(self).coordination_at(coordination_id).votes_against
                            + if approve { 0int } else { 1int }
                &&& final(self).coordination_at(coordination_id).voted_agents@
                        == old(self).coordination_at(coordination_id).voted_agents@.push(agent_id)
                &&& final(self).coordination_at(coordination_id).status
                        == (if final(self).coordination_at(coordination_id).votes_total()
                            >= old(self).coordination_at(coordination_id).participating_agents@.len() {
                            Coordination::resolution(
                                final(self).coordination_at(coordination_id).votes_for,
                                final(self).coordination_at(coordination_id).votes_against,
                            )
                        } else {
                            CoordinationStatus::Pending
                        })
                &&& final(self).coordination_at(coordination_id) == (Coordination {
                        votes_for: final(self).coordination_at(coordination_id).votes_for,
                        votes_against: final(self).coordination_at(coordination_id).votes_against,
                        voted_agents: final(self).coordination_at(coordination_id).voted_agents,
                        status: final(self).coordination_at(coordination_id).status,
                        ..old(self).coordination_at(coordination_id)
                    })
                &&& final(self).agents == old(self).agents
                &&& final(self).registry == old(self).registry
                &&& final(self).coordination_at(coordination_id).status
                        == CoordinationStatus::Approved
                    ==> final(self).events@ == old(self).events@.push(
                        SwarmEvent::CoordinationApproved((CoordinationApproved {
                            coordination_id,
                            votes_for: final(self).coordination_at(coordination_id).votes_for,
                            votes_against: final(self).coordination_at(coordination_id).votes_against,
                            timestamp: now,
                        })))
                &&& final(self).coordination_at(coordination_id).status
                        == CoordinationStatus::Rejected
                    ==> final(self).events@ == old(self).events@.push(
                        SwarmEvent::CoordinationRejected((CoordinationRejected {
                            coordination_id,
                            votes_for: final(self).coordination_at(coordination_id).votes_for,
                            votes_against: final(self).coordination_at(coordination_id).votes_against,
                            timestamp: now,
                        })))
                &&& final(self).coordination_at(coordination_id).status
                        == CoordinationStatus::Pending
                    ==> final(self).events == old(self).events
            },
    {
        if coordination_id >= self.coordinations.len() as u64 {
            return Err(ErrorCode::CoordinationNotFound);
        }
        let cid = coordination_id as usize;
        if !(self.coordinations[cid].status == CoordinationStatus::Pending) {
            return Err(ErrorCode::AlreadyResolved);
        }
        if !contains_id(&self.coordinations[cid].participating_agents, agent_id) {
            return Err(ErrorCode::NotParticipant);
        }
        if contains_id(&self.coordinations[cid].voted_agents, agent_id) {
            return Err(ErrorCode::AlreadyVoted);
        }
        let record = &mut self.coordinations[cid];
        let _ = record.apply_vote(agent_id, approve);
        proof {
            let oldc = old(self).coordinations@;
            let newc = self.coordinations@;
            let d = newc[cid as int];
            lemma_count_unexecuted_update(oldc, cid as int, d);
            assert forall|i: int, j: int|
                0 <= i < newc.len() && 0 <= j < newc[i].participating_agents@.len()
                implies has_agent(self.agents@, #[trigger] newc[i].participating_agents@[j]) by {
                if i != cid as int {
                    assert(newc[i] == oldc[i]);
                } else {
                    assert(newc[i].participating_agents@[j] == oldc[i].participating_agents@[j]);
                }
            }
        }
        let status_after = self.coordinations[cid].status;
        if status_after == CoordinationStatus::Approved {
            let votes_for = self.coordinations[cid].votes_for;
            let votes_against = self.coordinations[cid].votes_against;
            self.events.push(SwarmEvent::CoordinationApproved(CoordinationApproved {
                coordination_id,
                votes_for,
                votes_against,
                timestamp: now,
            }));
        } else if status_after == CoordinationStatus::Rejected {
            let votes_for = self.coordinations[cid].votes_for;
            let votes_against = self.coordinations[cid].votes_against;
            self.events.push(SwarmEvent::CoordinationRejected(CoordinationRejected {
                coordination_id,
                votes_for,
                votes_against,
                timestamp: now,
            }));
        }
        Ok(())
    }

    /// Execute an approved coordination: stamp the execution time, store the
    /// 32-byte result fingerprint, and release one active-coordination slot.
    /// The decrement is floored at zero in code; the swarm invariant proves
    /// the floor never binds, so the counter goes down by exactly one.
    pub fn execute_coordination(
        &mut self,
        coordination_id: u64,
        result_hash: [u8; 32],
        now: i64,
    ) -> (r: Result<(), ErrorCode>)
        requires
            old(self).wf(),
        ensures
            final(self).wf(),
            r is Err ==> *final(self) == *old(self),
            !old(self).has_coordination(coordination_id)
                ==> r == Err::<(), ErrorCode>(ErrorCode::CoordinationNotFound),
            old(self).has_coordination(coordination_id)
                && old(self).coordination_at(coordination_id).status != CoordinationStatus::Approved
                ==> r == Err::<(), ErrorCode>(ErrorCode::NotApproved),
            old(self).has_coordination(coordination_id)
                && old(self).coordination_at(coordination_id).status == CoordinationStatus::Approved
                ==> {
                &&& r is Ok
                &&& final(self).coordinations@ == old(self).coordinations@.update(
                        coordination_id as int,
                        (Coordination {
                            status: CoordinationStatus::Executed,
                            executed_at: Some(now),
                            result_hash: Some(result_hash),
                            ..old(self).coordination_at(coordination_id)
                        }),
                    )
                &&& final(self).registry == (SwarmRegistry {
                        active_coordinations: (old(self).registry.active_coordinations - 1) as u64,
                        ..old(self).registry
                    })
                &&& final(self).agents == old(self).agents
                &&& final(self).events@ == old(self).events@.push(
                        SwarmEvent::CoordinationExecuted((CoordinationExecuted {
                            coordination_id,
                            threat_id: old(self).coordination_at(coordination_id).threat_id,
                            result_hash,
                            timestamp: now,
                        })))
            },
    {
        if coordination_id >= self.coordinations.len() as u64 {
            return Err(ErrorCode::CoordinationNotFound);
        }
        let cid = coordination_id as usize;
        if !(self.coordinations[cid].status == CoordinationStatus::Approved) {
            return Err(ErrorCode::NotApproved);
        }
        let threat_id = self.coordinations[cid].threat_id;
        proof {
            lemma_count_unexecuted_pos(self.coordinations@, cid as int);
        }
        let record = &mut self.coordinations[cid];
        let _ = record.apply_execute(result_hash, now);
        proof {
            let oldc = old(self).coordinations@;
            let newc = self.coordinations@;
            lemma_count_unexecuted_update(oldc, cid as int, newc[cid as int]);
            assert forall|i: int, j: int|
                0 <= i < newc.len() && 0 <= j < newc[i].participating_agents@.len()
                implies has_agent(self.agents@, #[trigger] newc[i].participating_agents@[j]) by {
                if i != cid as int {
                    assert(newc[i] == oldc[i]);
                } else {
                    assert(newc[i].participating_agents@[j] == oldc[i].participating_agents@[j]);
                }
            }
        }
        // never underflows in a well-formed swarm; the floor mirrors the
        // counter's saturating discipline
        if self.registry.active_coordinations > 0 {
            self.registry.active_coordinations = self.registry.active_coordinations - 1;
        } else {
            self.registry.active_coordinations = 0;
        }
        self.events.push(SwarmEvent::CoordinationExecuted(CoordinationExecuted {
            coordination_id,
            threat_id,
            result_hash,
            timestamp: now,
        }));
        Ok(())
    }
}


impl Swarm {
    /// Stamp an agent's record as active now. The host has already verified
    /// that the caller controls the identity; nothing but `last_active`
    /// changes, and no event is emitted.
    pub fn heartbeat(&mut self, agent_id: AgentId, now: i64) -> (r: Result<(), ErrorCode>)
        requires
            old(self).wf(),
        ensures
            final(self).wf(),
            r is Err ==> *final(self) == *old(self),
            !has_agent(old(self).agents@, agent_id)
                ==> r == Err::<(), ErrorCode>(ErrorCode::AgentNotFound),
            has_agent(old(self).agents@, agent_id) ==> {
                &&& r is Ok
                &&& final(self).agents@ == old(self).agents@.update(
                        agent_index(old(self).agents@, agent_id),
                        (AgentRegistration {
                            last_active: now,
                            ..agent_record(old(self).agents@, agent_id)
                        }),
                    )
                &&& final(self).registry == old(self).registry
                &&& final(self).coordinations == old(self).coordinations
                &&& final(self).events == old(self).events
            },
    {
        let agent_idx = match find_agent_index(&self.agents, agent_id) {
            None => {
                return Err(ErrorCode::AgentNotFound);
            },
            Some(i) => i,
        };
        proof {
            lemma_agent_index_unique(self.agents@, agent_id, agent_idx as int);
        }
        let record = &mut self.agents[agent_idx];
        record.apply_heartbeat(now);
        proof {
            self.lemma_same_identities_preserve_membership(*old(self));
        }
        Ok(())
    }

    /// Record a reported action outcome for an agent: bump the action
    /// counters and step the reputation score — up by one on success,
    /// clamped at one hundred; down by five on failure, floored at zero.
    /// The engine does not validate that the scored action was real; the
    /// trustworthiness of the report is the caller's concern. Emits
    /// `ReputationUpdated` with the new score and the outcome flag.
    pub fn update_reputation(&mut self, agent_id: AgentId, success: bool, now: i64) -> (r:
        Result<(), ErrorCode>)
        requires
            old(self).wf(),
            has_agent(old(self).agents@, agent_id)
                ==> agent_record(old(self).agents@, agent_id).total_actions < u64::MAX,
        ensures
            final(self).wf(),
            r is Err ==> *final(self) == *old(self),
            !has_agent(old(self).agents@, agent_id)
                ==> r == Err::<(), ErrorCode>(ErrorCode::AgentNotFound),
            has_agent(old(self).agents@, agent_id) ==> {
                &&& r is Ok
                &&& final(self).agents@ == old(self).agents@.update(
                        agent_index(old(self).agents@, agent_id),
                        (AgentRegistration {
                            total_actions: (agent_record(old(self).agents@, agent_id).total_actions
                                + 1) as u64,
                            successful_actions: if success {
                                (agent_record(old(self).agents@, agent_id).successful_actions
                                    + 1) as u64
                            } else {
                                agent_record(old(self).agents@, agent_id).successful_actions
                            },
                            reputation_score: next_reputation(
                                agent_record(old(self).agents@, agent_id).reputation_score,
                                success,
                            ),
                            ..agent_record(old(self).agents@, agent_id)
                        }),
                    )
                &&& final(self).registry == old(self).registry
                &&& final(self).coordinations == old(self).coordinations
                &&& final(self).events@ == old(self).events@.push(
                        SwarmEvent::ReputationUpdated((ReputationUpdated {
                            agent_id,
                            new_score: next_reputation(
                                agent_record(old(self).agents@, agent_id).reputation_score,
                                success,
                            ),
                            success,
                            timestamp: now,
                        })))
            },
    {
        let agent_idx = match find_agent_index(&self.agents, agent_id) {
            None => {
                return Err(ErrorCode::AgentNotFound);
            },
            Some(i) => i,
        };
        proof {
            lemma_agent_index_unique(self.agents@, agent_id, agent_idx as int);
        }
        let record = &mut self.agents[agent_idx];
        record.apply_reputation(success);
        let new_score = record.reputation_score;
        proof {
            self.lemma_same_identities_preserve_membership(*old(self));
        }
        self.events.push(SwarmEvent::ReputationUpdated(ReputationUpdated {
            agent_id,
            new_score,
            success,
            timestamp: now,
        }));
        Ok(())
    }

    /// Updating an agent record without changing its identity keeps every
    /// membership fact and the uniqueness of identities.
    proof fn lemma_same_identities_preserve_membership(self, prior: Swarm)
        requires
            prior.wf(),
            self.agents@.len() == prior.agents@.len(),
            forall|i: int|
                0 <= i < self.agents@.len()
                ==> (#[trigger] self.agents@[i]).agent_id == prior.agents@[i].agent_id,
            self.coordinations == prior.coordinations,
        ensures
            forall|i: int, j: int|
                0 <= i < j < self.agents@.len()
                ==> self.agents@[i].agent_id != self.agents@[j].agent_id,
            forall|i: int, j: int|
                0 <= i < self.coordinations@.len()
                && 0 <= j < self.coordinations@[i].participating_agents@.len()
                ==> has_agent(self.agents@, #[trigger] self.coordinations@[i].participating_agents@[j]),
    {
        assert forall|i: int, j: int|
            0 <= i < self.coordinations@.len()
            && 0 <= j < self.coordinations@[i].participating_agents@.len()
            implies has_agent(self.agents@, #[trigger] self.coordinations@[i].participating_agents@[j]) by {
            let p = self.coordinations@[i].participating_agents@[j];
            assert(has_agent(prior.agents@, p));
            let k = choose|k: int| 0 <= k < prior.agents@.len() && prior.agents@[k].agent_id == p;
            assert(self.agents@[k].agent_id == p);
        }
    }
}

} // verus!
