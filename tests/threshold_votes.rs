use p2p_chat::chat::Peer;
use p2p_chat::crypto::CryptoManager;
use p2p_chat::threshold::{ProposalState, ThresholdManager};

fn new_proposal(manager: &mut ThresholdManager, m: usize, n: usize) -> String {
    manager
        .create_proposal(
            "proposer".to_string(),
            "Proposer".to_string(),
            "Enable secure messaging".to_string(),
            m,
            n,
        )
        .unwrap()
}

#[test]
fn test_proposal_creation() {
    let mut manager = ThresholdManager::new();
    let proposal_id = new_proposal(&mut manager, 2, 3);
    assert!(!proposal_id.is_empty());

    let proposals = manager.get_active_proposals();
    assert_eq!(proposals.len(), 1);
    assert_eq!(proposals[0].proposal_id, proposal_id);
}

#[test]
fn test_voting_and_threshold() {
    let mut manager = ThresholdManager::new();
    let crypto_manager = CryptoManager::new("test-peer".to_string(), "TestPeer".to_string());
    let proposal_id = new_proposal(&mut manager, 2, 3);

    manager
        .cast_vote(&proposal_id, "voter1".to_string(), "Voter1".to_string(), true, &crypto_manager)
        .unwrap();
    manager
        .cast_vote(&proposal_id, "voter2".to_string(), "Voter2".to_string(), true, &crypto_manager)
        .unwrap();

    assert!(manager.is_secure_only_enabled());
    let state = manager.get_proposal_state(&proposal_id).unwrap();
    assert!(matches!(state, ProposalState::Approved));
}

#[test]
fn threshold_test_duplicate_voting_prevention() {
    let mut manager = ThresholdManager::new();
    let crypto_manager = CryptoManager::new("test-peer".to_string(), "TestPeer".to_string());
    let proposal_id = new_proposal(&mut manager, 1, 2);

    manager
        .cast_vote(&proposal_id, "voter1".to_string(), "Voter1".to_string(), true, &crypto_manager)
        .unwrap();
    let result = manager.cast_vote(
        &proposal_id,
        "voter1".to_string(),
        "Voter1".to_string(),
        false,
        &crypto_manager,
    );
    assert!(result.is_err());
}

#[test]
fn test_complete_upgrade_lifecycle() {
    let mut threshold_manager = ThresholdManager::new();
    let crypto_manager = CryptoManager::new("test-peer".to_string(), "TestPeer".to_string());

    let proposal_id = new_proposal(&mut threshold_manager, 2, 3);
    assert!(!proposal_id.is_empty());

    let state = threshold_manager.get_proposal_state(&proposal_id).unwrap();
    assert!(matches!(state, ProposalState::Open));
    assert!(!threshold_manager.is_secure_only_enabled());

    threshold_manager
        .cast_vote(&proposal_id, "voter1".to_string(), "Voter1".to_string(), true, &crypto_manager)
        .unwrap();
    let state = threshold_manager.get_proposal_state(&proposal_id).unwrap();
    assert!(matches!(state, ProposalState::Open));
    assert!(!threshold_manager.is_secure_only_enabled());

    threshold_manager
        .cast_vote(&proposal_id, "voter2".to_string(), "Voter2".to_string(), true, &crypto_manager)
        .unwrap();
    let state = threshold_manager.get_proposal_state(&proposal_id).unwrap();
    assert!(matches!(state, ProposalState::Approved));
    assert!(threshold_manager.is_secure_only_enabled());

    let votes = threshold_manager.get_proposal_votes(&proposal_id);
    let approval_count = votes.iter().filter(|v| v.approved).count();
    let rejection_count = votes.iter().filter(|v| !v.approved).count();
    assert_eq!(approval_count, 2);
    assert_eq!(rejection_count, 0);
    assert_eq!(votes.len(), 2);
}

#[test]
fn test_proposal_rejection() {
    let mut threshold_manager = ThresholdManager::new();
    let crypto_manager = CryptoManager::new("test-peer".to_string(), "TestPeer".to_string());
    let proposal_id = new_proposal(&mut threshold_manager, 2, 3);

    threshold_manager
        .cast_vote(&proposal_id, "voter1".to_string(), "Voter1".to_string(), true, &crypto_manager)
        .unwrap();
    threshold_manager
        .cast_vote(&proposal_id, "voter2".to_string(), "Voter2".to_string(), false, &crypto_manager)
        .unwrap();

    let state = threshold_manager.get_proposal_state(&proposal_id).unwrap();
    assert!(matches!(state, ProposalState::Open));
    assert!(!threshold_manager.is_secure_only_enabled());

    let votes = threshold_manager.get_proposal_votes(&proposal_id);
    let approval_count = votes.iter().filter(|v| v.approved).count();
    let rejection_count = votes.iter().filter(|v| !v.approved).count();
    assert_eq!(approval_count, 1);
    assert_eq!(rejection_count, 1);
}

#[test]
fn threshold_integration_test_duplicate_voting_prevention() {
    let mut threshold_manager = ThresholdManager::new();
    let crypto_manager = CryptoManager::new("test-peer".to_string(), "TestPeer".to_string());
    let proposal_id = new_proposal(&mut threshold_manager, 1, 2);

    threshold_manager
        .cast_vote(&proposal_id, "voter1".to_string(), "Voter1".to_string(), true, &crypto_manager)
        .unwrap();
    let result = threshold_manager.cast_vote(
        &proposal_id,
        "voter1".to_string(),
        "Voter1".to_string(),
        false,
        &crypto_manager,
    );
    assert!(result.is_err());

    let votes = threshold_manager.get_proposal_votes(&proposal_id);
    assert_eq!(votes.len(), 1);
}

#[test]
fn test_multiple_proposals() {
    let mut threshold_manager = ThresholdManager::new();
    let crypto_manager = CryptoManager::new("test-peer".to_string(), "TestPeer".to_string());

    let proposal1_id = threshold_manager
        .create_proposal(
            "proposer1".to_string(),
            "Proposer1".to_string(),
            "First upgrade proposal".to_string(),
            1,
            2,
        )
        .unwrap();
    let proposal2_id = threshold_manager
        .create_proposal(
            "proposer2".to_string(),
            "Proposer2".to_string(),
            "Second upgrade proposal".to_string(),
            1,
            2,
        )
        .unwrap();

    assert_eq!(threshold_manager.get_active_proposals().len(), 2);

    threshold_manager
        .cast_vote(&proposal1_id, "voter1".to_string(), "Voter1".to_string(), true, &crypto_manager)
        .unwrap();

    let state1 = threshold_manager.get_proposal_state(&proposal1_id).unwrap();
    let state2 = threshold_manager.get_proposal_state(&proposal2_id).unwrap();
    assert!(matches!(state1, ProposalState::Approved));
    assert!(matches!(state2, ProposalState::Open));

    let active_proposals = threshold_manager.get_active_proposals();
    assert_eq!(active_proposals.len(), 1);
    assert_eq!(active_proposals[0].proposal_id, proposal2_id);
}

#[test]
fn test_peer_integration() {
    let mut peer = Peer::new("TestPeer".to_string(), 9000);
    assert!(!peer.is_secure_only_enabled());

    let proposal_id = peer.propose_secure_upgrade("Test upgrade").unwrap();

    let proposals = peer.get_active_proposals();
    assert_eq!(proposals.len(), 1);
    assert_eq!(proposals[0].proposal_id, proposal_id);

    peer.vote_on_proposal(&proposal_id, true).unwrap();

    let secure_enabled = peer.is_secure_only_enabled();
    assert_eq!(secure_enabled, true);
}
