use p2p_chat::chat::{Event, Peer};
use p2p_chat::crypto::CryptoManager;
use p2p_chat::discovery::{peer_id_of_record, peer_id_of_records, MdnsResponse};
use p2p_chat::display::{_format_verified, format_verified};
use p2p_chat::error::ChatError;
use p2p_chat::peer::{IpAddress, Message, NetworkMessage, PeerInfo};
use p2p_chat::threshold::{PartialSignature, UpgradeProposal, UpgradeVote};

fn info(id: &str, a: u8) -> PeerInfo {
    PeerInfo { id: id.to_string(), name: format!("N{}", id), ip: IpAddress::V4([10, 0, 0, a]), port: 4000 }
}

fn strings(v: &[&str]) -> Vec<String> {
    v.iter().map(|s| s.to_string()).collect()
}

#[test]
fn verified_line_format() {
    assert_eq!(format_verified("Alice", "hi"), "🔐 Alice says (verified): hi");
    assert_eq!(_format_verified("Bob", ""), "🔐 Bob says (verified): ");
}

#[test]
fn discovery_messages_fill_the_registry() {
    let mut peer = Peer::new("Me".to_string(), 9000);
    assert!(matches!(peer.handle_message(NetworkMessage::Discovery(info("a", 1))), Event::Joined(p) if p.id == "a"));
    assert!(matches!(peer.handle_message(NetworkMessage::Discovery(info("a", 2))), Event::Refreshed));
    assert_eq!(peer.peer_count(), 1);
    assert!(matches!(peer.peer_snapshot()[0].ip, IpAddress::V4([10, 0, 0, 2])));
    let me = PeerInfo { id: peer.peer_id().clone(), ..info("x", 3) };
    assert!(matches!(peer.handle_message(NetworkMessage::Discovery(me)), Event::Quiet));
    let bad = PeerInfo { port: 0, ..info("b", 4) };
    assert!(matches!(peer.handle_message(NetworkMessage::Discovery(bad)), Event::Quiet));
    assert_eq!(peer.peer_count(), 1);
    assert!(matches!(peer.handle_message(NetworkMessage::Exit("a".to_string())), Event::Left(id) if id == "a"));
    assert!(matches!(peer.handle_message(NetworkMessage::Exit("a".to_string())), Event::Quiet));
    assert_eq!(peer.peer_count(), 0);
    assert!(matches!(peer.handle_message(NetworkMessage::Heartbeat("z".to_string())), Event::Quiet));
}

#[test]
fn chat_lines() {
    let mut peer = Peer::new("Me".to_string(), 9000);
    let plain = Message {
        from_id: "b".to_string(),
        from_name: "Bob".to_string(),
        content: "hi".to_string(),
        timestamp: 3,
        signature: None,
        public_key: None,
    };
    match peer.handle_message(NetworkMessage::Chat(plain)) {
        Event::Show(l) => assert_eq!(l, "📝 Bob says (unsigned): hi"),
        other => panic!("{:?}", other),
    }

    let alice = CryptoManager::new("al".to_string(), "Alice".to_string());
    let s = alice.sign_message("hello", 77).unwrap();
    let embedded = Message {
        from_id: "al".to_string(),
        from_name: "Alice".to_string(),
        content: "hello".to_string(),
        timestamp: 77,
        signature: Some(s.signature.clone()),
        public_key: Some(s.public_key.clone()),
    };
    match peer.handle_message(NetworkMessage::Chat(embedded)) {
        Event::Show(l) => assert_eq!(l, "🔐 Alice says (verified): hello"),
        other => panic!("{:?}", other),
    }

    let mut forged = s.clone();
    forged.message = "bye".to_string();
    match peer.handle_message(NetworkMessage::SignedChat(forged)) {
        Event::Show(l) => assert_eq!(l, "⚠️  Alice says (INVALID SIGNATURE): bye"),
        other => panic!("{:?}", other),
    }

    let mut broken = alice.sign_message("x", 1).unwrap();
    broken.signer_id = "new".to_string();
    broken.public_key = vec![1, 2];
    match peer.handle_message(NetworkMessage::SignedChat(broken)) {
        Event::Show(l) => assert_eq!(l, "❓ Alice says (verification failed: Invalid public key format): x"),
        other => panic!("{:?}", other),
    }
}

#[test]
fn identity_announcements() {
    let mut peer = Peer::new("Me".to_string(), 9000);
    let key = CryptoManager::new("o".to_string(), "O".to_string()).get_public_key();
    let ev = peer.handle_message(NetworkMessage::IdentityAnnouncement {
        peer_id: "o".to_string(),
        name: "O".to_string(),
        public_key: key,
    });
    assert!(matches!(ev, Event::KeyAdded(n) if n == "O"));
    assert_eq!(peer.crypto_manager().known_peers_count(), 1);
    let ev = peer.handle_message(NetworkMessage::IdentityAnnouncement {
        peer_id: "p".to_string(),
        name: "P".to_string(),
        public_key: vec![0; 5],
    });
    assert!(matches!(ev, Event::KeyRefused(_)));
    assert_eq!(peer.crypto_manager().known_peers_count(), 1);
}

#[test]
fn upgrade_messages() {
    let mut peer = Peer::new("Me".to_string(), 9000);
    let p = UpgradeProposal {
        proposal_id: "pid".to_string(),
        proposer_id: "r".to_string(),
        proposer_name: "Rita".to_string(),
        timestamp: 1,
        description: "go secure".to_string(),
        required_approvals: 1,
        total_peers: 2,
    };
    match peer.handle_message(NetworkMessage::UpgradeRequest(p)) {
        Event::Show(l) => assert_eq!(l, "🔐 Rita proposed secure messaging upgrade: go secure (ID: pid)"),
        other => panic!("{:?}", other),
    }
    assert_eq!(peer.get_active_proposals().len(), 1);
    let v = UpgradeVote {
        proposal_id: "pid".to_string(),
        voter_id: "r".to_string(),
        voter_name: "Rita".to_string(),
        approved: true,
        timestamp: 2,
        signature: None,
    };
    match peer.handle_message(NetworkMessage::UpgradeVote(v)) {
        Event::Show(l) => assert_eq!(l, "🗳️  Rita voted ✅ APPROVED on upgrade proposal pid"),
        other => panic!("{:?}", other),
    }
    assert!(peer.is_secure_only_enabled());
    let ps = PartialSignature {
        proposal_id: "pid".to_string(),
        signer_id: "r".to_string(),
        signer_name: "Rita".to_string(),
        signature: vec![],
        public_key: vec![],
        timestamp: 3,
    };
    match peer.handle_message(NetworkMessage::PartialSignature(ps)) {
        Event::Show(l) => assert_eq!(l, "🔐 Rita provided partial signature for proposal pid"),
        other => panic!("{:?}", other),
    }
}

#[test]
fn broadcasts_follow_the_latch() {
    let mut peer = Peer::new("Me".to_string(), 9000);
    peer.handle_discovery(info("a", 1));
    let plan = peer.broadcast_plan_at("hey", 42);
    assert_eq!(plan.targets.len(), 1);
    match (&plan.message, &plan.fallback) {
        (NetworkMessage::SignedChat(s), Some(NetworkMessage::Chat(c))) => {
            assert_eq!(s.message, "hey");
            assert_eq!(s.timestamp, 42);
            assert_eq!(c.signature.as_ref(), Some(&s.signature));
            assert_eq!(c.content, "hey");
        }
        other => panic!("{:?}", other),
    }
    let u = peer.unsigned_plan_at("plain", 5).unwrap();
    assert!(matches!(&u.message, NetworkMessage::Chat(c) if c.signature.is_none() && c.content == "plain"));

    let id = peer.propose_secure_upgrade("lock").unwrap();
    let proposal = peer.threshold_manager().get_proposal(&id).unwrap();
    assert_eq!(proposal.required_approvals, 2);
    assert_eq!(proposal.total_peers, 2);
    assert!(matches!(peer.upgrade_proposal_plan(&id).unwrap().message, NetworkMessage::UpgradeRequest(_)));
    assert!(peer.proposal_vote_plan(&id).is_err());
    peer.vote_on_proposal(&id, true).unwrap();
    assert!(matches!(peer.proposal_vote_plan(&id).unwrap().message, NetworkMessage::UpgradeVote(v) if v.voter_id == *peer.peer_id()));
    assert!(!peer.is_secure_only_enabled());
    let from_a = UpgradeVote {
        proposal_id: id.clone(),
        voter_id: "a".to_string(),
        voter_name: "Na".to_string(),
        approved: true,
        timestamp: 9,
        signature: None,
    };
    peer.handle_message(NetworkMessage::UpgradeVote(from_a));
    assert!(peer.is_secure_only_enabled());

    let plan = peer.broadcast_plan_at("hey", 43);
    assert!(plan.fallback.is_none());
    match peer.unsigned_plan_at("plain", 6) {
        Err(ChatError::Unknown(s)) => {
            assert_eq!(s, "Cannot send unsigned messages when secure-only messaging is enabled")
        }
        other => panic!("{:?}", other),
    }
    assert!(peer.prepare_unsigned_broadcast("plain").is_err());
    assert!(peer.prepare_broadcast("x").is_ok());
    assert!(matches!(peer.exit_plan().message, NetworkMessage::Exit(i) if i == *peer.peer_id()));
    assert!(matches!(peer.identity_plan().message, NetworkMessage::IdentityAnnouncement { peer_id, .. } if peer_id == *peer.peer_id()));
    assert!(matches!(peer.upgrade_proposal_plan("none"), Err(ChatError::Unknown(s)) if s == "Proposal not found"));
}

#[test]
fn votes_on_missing_proposals_fail() {
    let mut peer = Peer::new("Me".to_string(), 9000);
    match peer.vote_on_proposal("nope", true) {
        Err(ChatError::Unknown(s)) => assert_eq!(s, "Unknown error: Proposal state not found"),
        other => panic!("{:?}", other),
    }
}

#[test]
fn txt_records() {
    assert_eq!(peer_id_of_record(&strings(&["peer_id=abc", "app=p2pchat"])), Some("abc".to_string()));
    assert_eq!(peer_id_of_record(&strings(&["peer_id=abc"])), None);
    assert_eq!(peer_id_of_record(&strings(&["app=p2pchat"])), None);
    assert_eq!(peer_id_of_record(&strings(&["peer_id=a", "app=p2pchat", "peer_id=b"])), Some("b".to_string()));
    let recs = vec![strings(&["peer_id=a"]), strings(&["app=p2pchat", "peer_id=z"])];
    assert_eq!(peer_id_of_records(&recs), Some("z".to_string()));
    assert_eq!(peer_id_of_records(&vec![]), None);
}

fn response(id: &str, ip: Option<IpAddress>, port: Option<u16>) -> MdnsResponse {
    MdnsResponse {
        ip,
        instance_name: Some("Bob-x".to_string()),
        txt_records: vec![strings(&[&format!("peer_id={}", id), "app=p2pchat"])],
        port,
    }
}

#[test]
fn mdns_responses() {
    let mut peer = Peer::new("Me".to_string(), 9000);
    let out = peer.handle_mdns_response(&response("bob", Some(IpAddress::V4([192, 168, 0, 7])), Some(7000)));
    let out = out.unwrap();
    assert_eq!(out.targets.len(), 1);
    assert_eq!(out.targets[0].id, "bob");
    assert_eq!(out.targets[0].port, 7000);
    assert_eq!(out.targets[0].name, "Bob-x");
    match out.message {
        NetworkMessage::Discovery(me) => {
            assert_eq!(me.id, *peer.peer_id());
            assert_eq!(me.port, 9000);
            assert!(matches!(me.ip, IpAddress::V4([192, 168, 0, 7])));
        }
        other => panic!("{:?}", other),
    }
    assert!(peer.handle_mdns_response(&response("bob", Some(IpAddress::V4([192, 168, 0, 8])), Some(7000))).is_none());
    assert_eq!(peer.peer_count(), 1);
    assert!(matches!(peer.peer_snapshot()[0].ip, IpAddress::V4([192, 168, 0, 8])));

    let own = peer.peer_id().clone();
    assert!(peer.handle_mdns_response(&response(&own, Some(IpAddress::V4([192, 168, 0, 9])), None)).is_none());
    assert!(peer.handle_mdns_response(&response("lo", Some(IpAddress::V4([127, 0, 0, 1])), None)).is_none());
    assert!(peer.handle_mdns_response(&response("noip", None, None)).is_none());
    assert_eq!(peer.peer_count(), 1);

    let out = peer.handle_mdns_response(&response("carol", Some(IpAddress::V4([192, 168, 0, 10])), None)).unwrap();
    assert_eq!(out.targets[0].port, 9000);
    let untagged = MdnsResponse {
        ip: Some(IpAddress::V4([192, 168, 0, 11])),
        instance_name: None,
        txt_records: vec![strings(&["peer_id=dave"])],
        port: Some(1),
    };
    assert!(peer.handle_mdns_response(&untagged).is_none());
    assert_eq!(peer.peer_count(), 2);
}

#[test]
fn proposals_need_a_majority_of_all_peers() {
    // (known peers, required approvals): N = known + 1, M = N / 2 + 1
    for (known, required) in [(0usize, 1usize), (1, 2), (2, 2), (3, 3), (4, 3)] {
        let mut peer = Peer::new("Me".to_string(), 9000);
        for i in 0..known {
            peer.handle_discovery(info(&format!("k{}", i), (i + 1) as u8));
        }
        let id = peer.propose_secure_upgrade("d").unwrap();
        let p = peer.threshold_manager().get_proposal(&id).unwrap();
        assert_eq!(p.total_peers, known + 1);
        assert_eq!(p.required_approvals, required);
        assert_eq!(p.proposer_id, *peer.peer_id());
    }
}

#[test]
fn introduction_sent_once_per_new_peer() {
    let mut peer = Peer::new(" ".to_string(), 1);
    assert_eq!(peer.name(), "Anonymous");
    let r = response("zed", Some(IpAddress::V4([172, 16, 0, 3])), None);
    let out = peer.handle_mdns_response(&r).unwrap();
    assert_eq!(out.targets[0].port, 1);
    assert!(matches!(out.message, NetworkMessage::Discovery(me) if me.name == "Anonymous" && me.port == 1));
    assert!(peer.handle_mdns_response(&r).is_none());
}

#[test]
fn heartbeats_change_nothing() {
    let mut peer = Peer::new("Me".to_string(), 9000);
    peer.handle_discovery(info("a", 1));
    let key = CryptoManager::new("o".to_string(), "O".to_string()).get_public_key();
    peer.handle_identity_announcement("o".to_string(), key).unwrap();
    assert!(matches!(peer.handle_message(NetworkMessage::Heartbeat("a".to_string())), Event::Quiet));
    assert_eq!(peer.peer_count(), 1);
    assert_eq!(peer.crypto_manager().known_peers_count(), 1);
    assert!(!peer.is_secure_only_enabled());
}
