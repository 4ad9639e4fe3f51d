//! Typed rejection reasons. Every failing operation leaves the state
//! untouched and reports exactly one of these.

use vstd::prelude::*;

verus! {

/// Why an operation was rejected.
///
/// Validation errors (`TooManyCapabilities`, `ActionPlanTooLong`) mean the
/// input itself is oversized and must be corrected. Precondition errors
/// (`NotApproved`, `AlreadyResolved`, `CoordinationClosed`) mean the record
/// is in the wrong lifecycle state. Duplicate errors (`AlreadyRegistered`,
/// `AlreadyJoined`, `AlreadyVoted`) are idempotency boundaries. Lookup
/// errors (`AgentNotFound`, `CoordinationNotFound`) mean no record exists
/// under the given key. Capacity errors (`ParticipantLimitReached`) mean a
/// storage cap was hit, not a business rule. `Unauthorized` is reserved for
/// the host's identity gate: signature checks are host-provided, so the
/// engine itself never returns it.
#[derive(Clone, Copy, PartialEq, Eq, Structural, Debug)]
pub enum ErrorCode {
    TooManyCapabilities,
    MissingCapabilities,
    AlreadyJoined,
    NotParticipant,
    NotApproved,
    Unauthorized,
    ActionPlanTooLong,
    ParticipantLimitReached,
    AlreadyRegistered,
    AlreadyVoted,
    AlreadyResolved,
    CoordinationClosed,
    AgentNotFound,
    CoordinationNotFound,
}

} // verus!
