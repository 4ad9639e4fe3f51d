use agent_coordinator::errors::ErrorCode;
use agent_coordinator::events::SwarmEvent;
use agent_coordinator::swarm::{initialize_swarm, Swarm};
use agent_coordinator::types::{AgentType, Capability, CoordinationStatus, Urgency};

fn swarm_with_agents(ids: &[u64], capability: Capability) -> Swarm {
    let mut s = initialize_swarm(1);
    for &id in ids {
        s.register_agent(id, AgentType::Guardian, vec![capability], 0)
            .unwrap();
    }
    s
}

#[test]
fn initiate_assigns_sequential_ids_and_counters() {
    let mut s = initialize_swarm(1);
    let first = s.initiate_coordination(
        9,
        77,
        vec![Capability::ThreatDetection],
        String::from("contain"),
        Urgency::High,
        10,
    );
    assert_eq!(first, Ok(0));
    let second = s.initiate_coordination(
        9,
        78,
        vec![Capability::ThreatDetection],
        String::from("observe"),
        Urgency::Low,
        11,
    );
    assert_eq!(second, Ok(1));
    assert_eq!(s.registry.total_coordinations, 2);
    assert_eq!(s.registry.active_coordinations, 2);
    let c = &s.coordinations[0];
    assert_eq!(c.coordination_id, 0);
    assert_eq!(c.threat_id, 77);
    assert_eq!(c.initiator, 9);
    assert_eq!(c.status, CoordinationStatus::Pending);
    assert!(c.participating_agents.is_empty());
    assert_eq!(c.votes_for, 0);
    assert_eq!(c.votes_against, 0);
    assert_eq!(c.initiated_at, 10);
    assert_eq!(c.executed_at, None);
    assert_eq!(c.result_hash, None);
}

#[test]
fn initiate_rejects_more_than_five_required_capabilities() {
    let mut s = initialize_swarm(1);
    let six = vec![
        Capability::TransactionMonitoring,
        Capability::ContractAnalysis,
        Capability::ThreatDetection,
        Capability::RiskPrediction,
        Capability::KnowledgeManagement,
        Capability::CommunityAlerts,
    ];
    let r = s.initiate_coordination(9, 77, six, String::new(), Urgency::High, 10);
    assert_eq!(r, Err(ErrorCode::TooManyCapabilities));
    assert_eq!(s.registry.total_coordinations, 0);
    assert_eq!(s.registry.active_coordinations, 0);
}

#[test]
fn initiate_rejects_plan_over_thousand_chars() {
    let mut s = initialize_swarm(1);
    let long_plan = "x".repeat(1001);
    let r = s.initiate_coordination(
        9,
        77,
        vec![Capability::ThreatDetection],
        long_plan,
        Urgency::High,
        10,
    );
    assert_eq!(r, Err(ErrorCode::ActionPlanTooLong));
    // the cap counts characters, not bytes
    let multibyte_plan = "\u{e9}".repeat(1001);
    let r2 = s.initiate_coordination(
        9,
        77,
        vec![Capability::ThreatDetection],
        multibyte_plan,
        Urgency::High,
        10,
    );
    assert_eq!(r2, Err(ErrorCode::ActionPlanTooLong));
    let exact_plan = "\u{e9}".repeat(1000);
    let ok = s.initiate_coordination(
        9,
        77,
        vec![Capability::ThreatDetection],
        exact_plan,
        Urgency::High,
        10,
    );
    assert_eq!(ok, Ok(0));
}

#[test]
fn join_requires_any_of_capability_match() {
    // an agent with {ContractAnalysis} may join a coordination requiring
    // {ContractAnalysis, ThreatDetection}, but not one requiring
    // {FundRecovery, ActorTracking}
    let mut s = initialize_swarm(1);
    s.register_agent(7, AgentType::Scanner, vec![Capability::ContractAnalysis], 0)
        .unwrap();
    s.initiate_coordination(
        9,
        1,
        vec![Capability::ContractAnalysis, Capability::ThreatDetection],
        String::new(),
        Urgency::Medium,
        1,
    )
    .unwrap();
    s.initiate_coordination(
        9,
        2,
        vec![Capability::FundRecovery, Capability::ActorTracking],
        String::new(),
        Urgency::Medium,
        1,
    )
    .unwrap();
    assert_eq!(s.join_coordination(0, 7, 2), Ok(()));
    assert_eq!(s.join_coordination(1, 7, 2), Err(ErrorCode::MissingCapabilities));
    assert_eq!(s.coordinations[0].participating_agents, vec![7]);
    assert!(s.coordinations[1].participating_agents.is_empty());
}

#[test]
fn join_rejects_duplicates_unknowns_and_missing_records() {
    let mut s = swarm_with_agents(&[7], Capability::ThreatDetection);
    s.initiate_coordination(
        9,
        1,
        vec![Capability::ThreatDetection],
        String::new(),
        Urgency::High,
        1,
    )
    .unwrap();
    assert_eq!(s.join_coordination(5, 7, 2), Err(ErrorCode::CoordinationNotFound));
    assert_eq!(s.join_coordination(0, 99, 2), Err(ErrorCode::AgentNotFound));
    assert_eq!(s.join_coordination(0, 7, 2), Ok(()));
    assert_eq!(s.join_coordination(0, 7, 3), Err(ErrorCode::AlreadyJoined));
    assert_eq!(s.coordinations[0].participating_agents.len(), 1);
}

#[test]
fn join_caps_participants_at_ten() {
    let ids: Vec<u64> = (1..=11).collect();
    let mut s = swarm_with_agents(&ids, Capability::ThreatDetection);
    s.initiate_coordination(
        9,
        1,
        vec![Capability::ThreatDetection],
        String::new(),
        Urgency::High,
        1,
    )
    .unwrap();
    for &id in ids.iter().take(10) {
        assert_eq!(s.join_coordination(0, id, 2), Ok(()));
    }
    assert_eq!(s.join_coordination(0, 11, 2), Err(ErrorCode::ParticipantLimitReached));
    assert_eq!(s.coordinations[0].participating_agents.len(), 10);
}

#[test]
fn join_rejected_coordination_is_closed() {
    let mut s = swarm_with_agents(&[7, 8], Capability::ThreatDetection);
    s.initiate_coordination(
        9,
        1,
        vec![Capability::ThreatDetection],
        String::new(),
        Urgency::High,
        1,
    )
    .unwrap();
    s.join_coordination(0, 7, 2).unwrap();
    s.vote_on_coordination(0, 7, false, 3).unwrap();
    assert_eq!(s.coordinations[0].status, CoordinationStatus::Rejected);
    assert_eq!(s.join_coordination(0, 8, 4), Err(ErrorCode::CoordinationClosed));
}

#[test]
fn vote_rejects_non_participants_and_double_votes() {
    let mut s = swarm_with_agents(&[7, 8], Capability::ThreatDetection);
    s.initiate_coordination(
        9,
        1,
        vec![Capability::ThreatDetection],
        String::new(),
        Urgency::High,
        1,
    )
    .unwrap();
    s.join_coordination(0, 7, 2).unwrap();
    s.join_coordination(0, 8, 2).unwrap();
    assert_eq!(s.vote_on_coordination(0, 99, true, 3), Err(ErrorCode::NotParticipant));
    assert_eq!(s.vote_on_coordination(5, 7, true, 3), Err(ErrorCode::CoordinationNotFound));
    assert_eq!(s.vote_on_coordination(0, 7, true, 3), Ok(()));
    assert_eq!(s.vote_on_coordination(0, 7, true, 4), Err(ErrorCode::AlreadyVoted));
    assert_eq!(s.coordinations[0].votes_for, 1);
    assert_eq!(s.coordinations[0].votes_against, 0);
    assert_eq!(s.coordinations[0].status, CoordinationStatus::Pending);
}

#[test]
fn majority_vote_approves_then_executes() {
    // three eligible agents join; two approve, one rejects: 2 > 1 approves;
    // execution stores the fingerprint and releases the active slot
    let mut s = swarm_with_agents(&[1, 2, 3], Capability::ThreatDetection);
    s.initiate_coordination(
        9,
        55,
        vec![Capability::ThreatDetection],
        String::from("quarantine"),
        Urgency::Critical,
        10,
    )
    .unwrap();
    s.join_coordination(0, 1, 11).unwrap();
    s.join_coordination(0, 2, 11).unwrap();
    s.join_coordination(0, 3, 11).unwrap();
    s.vote_on_coordination(0, 1, true, 12).unwrap();
    assert_eq!(s.coordinations[0].status, CoordinationStatus::Pending);
    s.vote_on_coordination(0, 2, true, 13).unwrap();
    assert_eq!(s.coordinations[0].status, CoordinationStatus::Pending);
    s.vote_on_coordination(0, 3, false, 14).unwrap();
    assert_eq!(s.coordinations[0].votes_for, 2);
    assert_eq!(s.coordinations[0].votes_against, 1);
    assert_eq!(s.coordinations[0].status, CoordinationStatus::Approved);
    assert_eq!(s.registry.active_coordinations, 1);

    let hash = [0xabu8; 32];
    assert_eq!(s.execute_coordination(0, hash, 20), Ok(()));
    assert_eq!(s.coordinations[0].status, CoordinationStatus::Executed);
    assert_eq!(s.coordinations[0].executed_at, Some(20));
    assert_eq!(s.coordinations[0].result_hash, Some(hash));
    assert_eq!(s.registry.active_coordinations, 0);
    assert_eq!(s.registry.total_coordinations, 1);
}

#[test]
fn tie_vote_rejects() {
    // two for, two against among four participants: ties never approve
    let mut s = swarm_with_agents(&[1, 2, 3, 4], Capability::ThreatDetection);
    s.initiate_coordination(
        9,
        55,
        vec![Capability::ThreatDetection],
        String::new(),
        Urgency::High,
        10,
    )
    .unwrap();
    for id in 1..=4 {
        s.join_coordination(0, id, 11).unwrap();
    }
    s.vote_on_coordination(0, 1, true, 12).unwrap();
    s.vote_on_coordination(0, 2, true, 12).unwrap();
    s.vote_on_coordination(0, 3, false, 12).unwrap();
    s.vote_on_coordination(0, 4, false, 12).unwrap();
    assert_eq!(s.coordinations[0].votes_for, 2);
    assert_eq!(s.coordinations[0].votes_against, 2);
    assert_eq!(s.coordinations[0].status, CoordinationStatus::Rejected);
}

#[test]
fn resolution_is_idempotent() {
    // resubmitting the resolving vote must not flip the status
    let mut s = swarm_with_agents(&[7], Capability::ThreatDetection);
    s.initiate_coordination(
        9,
        1,
        vec![Capability::ThreatDetection],
        String::new(),
        Urgency::High,
        1,
    )
    .unwrap();
    s.join_coordination(0, 7, 2).unwrap();
    s.vote_on_coordination(0, 7, true, 3).unwrap();
    assert_eq!(s.coordinations[0].status, CoordinationStatus::Approved);
    let again = s.vote_on_coordination(0, 7, true, 4);
    assert_eq!(again, Err(ErrorCode::AlreadyResolved));
    assert_eq!(s.coordinations[0].status, CoordinationStatus::Approved);
    assert_eq!(s.coordinations[0].votes_for, 1);
}

#[test]
fn execute_pending_fails_and_changes_nothing() {
    let mut s = swarm_with_agents(&[7], Capability::ThreatDetection);
    s.initiate_coordination(
        9,
        1,
        vec![Capability::ThreatDetection],
        String::new(),
        Urgency::High,
        1,
    )
    .unwrap();
    let before_active = s.registry.active_coordinations;
    assert_eq!(
        s.execute_coordination(9, [0u8; 32], 5),
        Err(ErrorCode::CoordinationNotFound)
    );
    let r = s.execute_coordination(0, [0u8; 32], 5);
    assert_eq!(r, Err(ErrorCode::NotApproved));
    assert_eq!(s.coordinations[0].status, CoordinationStatus::Pending);
    assert_eq!(s.coordinations[0].result_hash, None);
    assert_eq!(s.registry.active_coordinations, before_active);
}

#[test]
fn execute_twice_fails() {
    let mut s = swarm_with_agents(&[7], Capability::ThreatDetection);
    s.initiate_coordination(
        9,
        1,
        vec![Capability::ThreatDetection],
        String::new(),
        Urgency::High,
        1,
    )
    .unwrap();
    s.join_coordination(0, 7, 2).unwrap();
    s.vote_on_coordination(0, 7, true, 3).unwrap();
    assert_eq!(s.execute_coordination(0, [1u8; 32], 4), Ok(()));
    assert_eq!(s.execute_coordination(0, [2u8; 32], 5), Err(ErrorCode::NotApproved));
    assert_eq!(s.coordinations[0].result_hash, Some([1u8; 32]));
    assert_eq!(s.registry.active_coordinations, 0);
}

#[test]
fn event_outbox_records_the_whole_story() {
    let mut s = swarm_with_agents(&[1, 2], Capability::ThreatDetection);
    s.initiate_coordination(
        9,
        55,
        vec![Capability::ThreatDetection],
        String::new(),
        Urgency::High,
        10,
    )
    .unwrap();
    s.join_coordination(0, 1, 11).unwrap();
    s.join_coordination(0, 2, 11).unwrap();
    s.vote_on_coordination(0, 1, true, 12).unwrap();
    s.vote_on_coordination(0, 2, true, 13).unwrap();
    s.execute_coordination(0, [9u8; 32], 14).unwrap();

    assert_eq!(s.events.len(), 7);
    assert!(matches!(s.events[0], SwarmEvent::AgentRegistered(_)));
    assert!(matches!(s.events[1], SwarmEvent::AgentRegistered(_)));
    match &s.events[2] {
        SwarmEvent::CoordinationInitiated(e) => {
            assert_eq!(e.coordination_id, 0);
            assert_eq!(e.threat_id, 55);
            assert_eq!(e.initiator, 9);
            assert_eq!(e.urgency, Urgency::High);
            assert_eq!(e.timestamp, 10);
        }
        other => panic!("unexpected event: {:?}", other),
    }
    match &s.events[3] {
        SwarmEvent::AgentJoinedCoordination(e) => {
            assert_eq!(e.coordination_id, 0);
            assert_eq!(e.agent_id, 1);
            assert_eq!(e.timestamp, 11);
        }
        other => panic!("unexpected event: {:?}", other),
    }
    assert!(matches!(s.events[4], SwarmEvent::AgentJoinedCoordination(_)));
    // the first ballot does not resolve, so it emits nothing: the next
    // event is the resolution of the second ballot
    match &s.events[5] {
        SwarmEvent::CoordinationApproved(e) => {
            assert_eq!(e.coordination_id, 0);
            assert_eq!(e.votes_for, 2);
            assert_eq!(e.votes_against, 0);
            assert_eq!(e.timestamp, 13);
        }
        other => panic!("unexpected event: {:?}", other),
    }
    match &s.events[6] {
        SwarmEvent::CoordinationExecuted(e) => {
            assert_eq!(e.coordination_id, 0);
            assert_eq!(e.threat_id, 55);
            assert_eq!(e.result_hash, [9u8; 32]);
            assert_eq!(e.timestamp, 14);
        }
        other => panic!("unexpected event: {:?}", other),
    }
}

#[test]
fn rejected_resolution_emits_rejected_event() {
    let mut s = swarm_with_agents(&[1], Capability::ThreatDetection);
    s.initiate_coordination(
        9,
        55,
        vec![Capability::ThreatDetection],
        String::new(),
        Urgency::Low,
        10,
    )
    .unwrap();
    s.join_coordination(0, 1, 11).unwrap();
    s.vote_on_coordination(0, 1, false, 12).unwrap();
    match s.events.last().unwrap() {
        SwarmEvent::CoordinationRejected(e) => {
            assert_eq!(e.votes_for, 0);
            assert_eq!(e.votes_against, 1);
        }
        other => panic!("unexpected event: {:?}", other),
    }
}

#[test]
fn join_after_approval_is_still_open() {
    // Approved is not a terminal status: the record stays mutable until it
    // is executed, so a late join is accepted and the status is unchanged
    let mut s = swarm_with_agents(&[7, 8], Capability::ThreatDetection);
    s.initiate_coordination(
        9,
        1,
        vec![Capability::ThreatDetection],
        String::new(),
        Urgency::High,
        1,
    )
    .unwrap();
    s.join_coordination(0, 7, 2).unwrap();
    s.vote_on_coordination(0, 7, true, 3).unwrap();
    assert_eq!(s.coordinations[0].status, CoordinationStatus::Approved);
    assert_eq!(s.join_coordination(0, 8, 4), Ok(()));
    assert_eq!(s.coordinations[0].status, CoordinationStatus::Approved);
    assert_eq!(s.coordinations[0].participating_agents.len(), 2);
}

#[test]
fn join_executed_coordination_is_closed() {
    let mut s = swarm_with_agents(&[7, 8], Capability::ThreatDetection);
    s.initiate_coordination(
        9,
        1,
        vec![Capability::ThreatDetection],
        String::new(),
        Urgency::High,
        1,
    )
    .unwrap();
    s.join_coordination(0, 7, 2).unwrap();
    s.vote_on_coordination(0, 7, true, 3).unwrap();
    s.execute_coordination(0, [3u8; 32], 4).unwrap();
    assert_eq!(s.join_coordination(0, 8, 5), Err(ErrorCode::CoordinationClosed));
}
