//! Identity, capability and taxonomy types shared by the whole engine.

use vstd::prelude::*;

verus! {

/// A unique, caller-provable identifier for an agent or authority. The host
/// performs the actual signature verification; the engine only compares keys.
pub type AgentId = u64;

/// Upper bound on the capability set an agent may declare at registration.
pub const MAX_CAPABILITIES: usize = 10;

/// Upper bound on the capability list a coordination may require.
pub const MAX_REQUIRED_CAPABILITIES: usize = 5;

/// Upper bound, in characters, on a coordination's action plan.
pub const MAX_ACTION_PLAN_CHARS: usize = 1000;

/// Storage cap on the participant set of one coordination.
pub const MAX_PARTICIPANTS: usize = 10;

/// Reputation scores live in `0 ..= MAX_REPUTATION`.
pub const MAX_REPUTATION: u8 = 100;

/// The closed taxonomy of agent roles.
#[derive(Clone, Copy, PartialEq, Eq, Structural, Debug)]
pub enum AgentType {
    Sentinel,
    Scanner,
    Guardian,
    Oracle,
    Intel,
    Reporter,
    Auditor,
    Hunter,
    Healer,
    Coordinator,
}

/// The fixed taxonomy of skills an agent may declare; used for any-of
/// eligibility matching when joining a coordination.
#[derive(Clone, Copy, PartialEq, Eq, Structural, Debug)]
pub enum Capability {
    TransactionMonitoring,
    ContractAnalysis,
    ThreatDetection,
    RiskPrediction,
    KnowledgeManagement,
    CommunityAlerts,
    ReasoningVerification,
    ActorTracking,
    FundRecovery,
    SwarmCoordination,
}

/// Urgency of a coordination; carried on the record but it does not alter
/// the quorum rule.
#[derive(Clone, Copy, PartialEq, Eq, Structural, Debug)]
pub enum Urgency {
    Low,
    Medium,
    High,
    Critical,
}

/// Lifecycle of a coordination. `Pending` may resolve to `Approved` or
/// `Rejected`; an `Approved` coordination awaits execution. `Rejected`,
/// `Executed`, `Failed` and `Cancelled` are terminal.
#[derive(Clone, Copy, PartialEq, Eq, Structural, Debug)]
pub enum CoordinationStatus {
    Pending,
    Approved,
    Rejected,
    Executed,
    Failed,
    Cancelled,
}

impl CoordinationStatus {
    /// A terminal status admits no further mutation of the record.
    pub open spec fn spec_is_terminal(self) -> bool {
        self == CoordinationStatus::Rejected
        || self == CoordinationStatus::Executed
        || self == CoordinationStatus::Failed
        || self == CoordinationStatus::Cancelled
    }

    /// Executable test for a terminal status.
    pub fn is_terminal(self) -> (r: bool)
        ensures
            r == self.spec_is_terminal(),
    {
        match self {
            CoordinationStatus::Rejected => true,
            CoordinationStatus::Executed => true,
            CoordinationStatus::Failed => true,
            CoordinationStatus::Cancelled => true,
            _ => false,
        }
    }
}

/// The any-of eligibility rule: some required capability is also declared
/// by the agent.
pub open spec fn any_capability_overlap(required: Seq<Capability>, declared: Seq<Capability>) -> bool {
    exists|i: int| 0 <= i < required.len() && declared.contains(required[i])
}

/// Whether a capability list contains the given tag.
pub fn contains_capability(list: &Vec<Capability>, tag: Capability) -> (r: bool)
    ensures
        r == list@.contains(tag),
{
    let mut i: usize = 0;
    while i < list.len()
        invariant
            0 <= i <= list@.len(),
            forall|j: int| 0 <= j < i ==> list@[j] != tag,
        decreases list@.len() - i,
    {
        if list[i] == tag {
            assert(list@[i as int] == tag);
            return true;
        }
        i += 1;
    }
    false
}

/// Whether any required capability is among the declared ones.
pub fn has_any_capability(required: &Vec<Capability>, declared: &Vec<Capability>) -> (r: bool)
    ensures
        r == any_capability_overlap(required@, declared@),
{
    let mut i: usize = 0;
    while i < required.len()
        invariant
            0 <= i <= required@.len(),
            forall|j: int| 0 <= j < i ==> !declared@.contains(required@[j]),
        decreases required@.len() - i,
    {
        if contains_capability(declared, required[i]) {
            assert(declared@.contains(required@[i as int]));
            return true;
        }
        i += 1;
    }
    false
}

/// Whether an identity list contains the given key.
pub fn contains_id(list: &Vec<AgentId>, id: AgentId) -> (r: bool)
    ensures
        r == list@.contains(id),
{
    let mut i: usize = 0;
    while i < list.len()
        invariant
            0 <= i <= list@.len(),
            forall|j: int| 0 <= j < i ==> list@[j] != id,
        decreases list@.len() - i,
    {
        if list[i] == id {
            assert(list@[i as int] == id);
            return true;
        }
        i += 1;
    }
    false
}

} // verus!
