use p2p_chat::chat::{normalize_name, normalize_port, Peer};
use p2p_chat::crypto::{is_recent_at, payload_text, CryptoManager};
use p2p_chat::error::{ChatError, CryptoError};
use p2p_chat::peer::{IpAddress, PeerInfo};

#[test]
fn name_is_trimmed_and_bounded() {
    assert_eq!(normalize_name("  Alice \t\n"), "Alice");
    assert_eq!(normalize_name(" \u{3000} "), "Anonymous");
    assert_eq!(normalize_name(&"b".repeat(128)), "b".repeat(128));
    assert_eq!(normalize_name(&"b".repeat(129)), "Anonymous");
    assert_eq!(normalize_name(&format!("  {}  ", "c".repeat(128))), "c".repeat(128));
    let p = Peer::new("a".repeat(1000), 9000);
    assert_eq!(p.name(), "Anonymous");
    assert_eq!(p.port(), 9000);
}

#[test]
fn port_zero_becomes_default() {
    assert_eq!(normalize_port(0), 8080);
    assert_eq!(normalize_port(1), 1);
    assert_eq!(normalize_port(65535), 65535);
}

#[test]
fn peer_ids_are_fresh_uuids() {
    let a = Peer::new("A".to_string(), 1);
    let b = Peer::new("A".to_string(), 1);
    assert_eq!(a.peer_id().len(), 36);
    assert_ne!(a.peer_id(), b.peer_id());
    assert_eq!(a.crypto_manager().get_identity().peer_id, *a.peer_id());
}

#[test]
fn identity_stays_fixed_across_operations() {
    let mut peer = Peer::new("Keeper".to_string(), 7000);
    let id = peer.peer_id().clone();
    let key = peer.crypto_manager().get_public_key();
    let other = CryptoManager::new("x".to_string(), "X".to_string());
    let m = other.sign_message("hi", 5).unwrap();
    let _ = peer.verify_and_display(&m);
    let _ = peer.propose_secure_upgrade("d").unwrap();
    assert_eq!(*peer.peer_id(), id);
    assert_eq!(peer.crypto_manager().get_identity().peer_id, id);
    assert_eq!(peer.crypto_manager().get_public_key(), key);
    assert_eq!(peer.crypto_manager().get_identity().public_key, key);
}

#[test]
fn address_classes() {
    assert!(IpAddress::V4([127, 5, 5, 5]).is_loopback());
    assert!(!IpAddress::V4([128, 0, 0, 1]).is_loopback());
    assert!(IpAddress::V4([224, 0, 0, 251]).is_multicast());
    assert!(IpAddress::V4([239, 255, 255, 250]).is_multicast());
    assert!(!IpAddress::V4([240, 0, 0, 1]).is_multicast());
    let mut one = [0u8; 16];
    one[15] = 1;
    assert!(IpAddress::V6(one).is_loopback());
    let mut two = [0u8; 16];
    two[15] = 2;
    assert!(!IpAddress::V6(two).is_loopback());
    let mut mc = [0u8; 16];
    mc[0] = 0xff;
    mc[1] = 0x02;
    assert!(IpAddress::V6(mc).is_multicast());
}

#[test]
fn validity_predicate_cases() {
    let ok = PeerInfo {
        id: "id1".to_string(),
        name: "Peer1".to_string(),
        ip: IpAddress::V4([192, 168, 1, 10]),
        port: 9000,
    };
    assert!(ok.is_valid());
    let blank_id = PeerInfo { id: "   ".to_string(), ..ok.clone() };
    assert!(!blank_id.is_valid());
    let blank_name = PeerInfo { name: "\t".to_string(), ..ok.clone() };
    assert!(!blank_name.is_valid());
    let long_name = PeerInfo { name: "n".repeat(129), ..ok.clone() };
    assert!(!long_name.is_valid());
    let max_name = PeerInfo { name: "n".repeat(128), ..ok.clone() };
    assert!(max_name.is_valid());
    let port0 = PeerInfo { port: 0, ..ok.clone() };
    assert!(!port0.is_valid());
    let multicast = PeerInfo { ip: IpAddress::V4([224, 0, 0, 1]), ..ok.clone() };
    assert!(!multicast.is_valid());
    let loopback = PeerInfo { ip: IpAddress::V4([127, 0, 0, 1]), ..ok.clone() };
    assert!(!loopback.is_valid());
}

#[test]
fn payload_is_message_colon_decimal() {
    assert_eq!(payload_text("Hello, world!", 1234567890), "Hello, world!:1234567890");
    assert_eq!(payload_text("", 0), ":0");
    assert_eq!(payload_text("a:1", 2), "a:1:2");
    assert_eq!(payload_text("x", u64::MAX), "x:18446744073709551615");
}

#[test]
fn round_trip_verifies() {
    let mut m = CryptoManager::new("me".to_string(), "Me".to_string());
    let s = m.sign_message("Hello, world!", 1234567890).unwrap();
    assert_eq!(s.signature.len(), 64);
    assert_eq!(s.public_key.len(), 32);
    assert_eq!(s.signer_id, "me");
    assert_eq!(s.signer_name, "Me");
    assert!(m.verify_message(&s).unwrap());
    assert_eq!(m.known_peers_count(), 1);
}

#[test]
fn tampered_fields_fail() {
    let signer = CryptoManager::new("s".to_string(), "S".to_string());
    let good = signer.sign_message("Hello, world!", 1234567890).unwrap();

    let mut v = CryptoManager::new("v".to_string(), "V".to_string());
    let mut t = good.clone();
    t.timestamp += 1;
    assert!(!v.verify_message(&t).unwrap());

    let mut v = CryptoManager::new("v".to_string(), "V".to_string());
    let mut t = good.clone();
    t.signature[0] ^= 1;
    assert!(!v.verify_message(&t).unwrap());

    let mut v = CryptoManager::new("v".to_string(), "V".to_string());
    let mut t = good.clone();
    t.public_key = CryptoManager::new("o".to_string(), "O".to_string()).get_public_key();
    assert!(!v.verify_message(&t).unwrap());

    let mut v = CryptoManager::new("v".to_string(), "V".to_string());
    let mut t = good.clone();
    t.message = "Hello, tampered!".to_string();
    assert!(!v.verify_message(&t).unwrap());
}

#[test]
fn malformed_keys_and_signatures_are_errors() {
    let signer = CryptoManager::new("s".to_string(), "S".to_string());
    let good = signer.sign_message("m", 1).unwrap();

    let mut v = CryptoManager::new("v".to_string(), "V".to_string());
    let mut t = good.clone();
    t.public_key.pop();
    assert!(matches!(v.verify_message(&t), Err(CryptoError::InvalidPublicKey)));
    assert_eq!(v.known_peers_count(), 0);

    let mut t = good.clone();
    t.signature.push(0);
    assert!(matches!(v.verify_message(&t), Err(CryptoError::InvalidSignature)));
    // the key was usable, so it is cached even though the signature was refused
    assert_eq!(v.known_peers_count(), 1);
}

#[test]
fn cached_key_takes_precedence() {
    let signer = CryptoManager::new("s".to_string(), "S".to_string());
    let good = signer.sign_message("m", 1).unwrap();
    let mut v = CryptoManager::new("v".to_string(), "V".to_string());
    let other_key = CryptoManager::new("o".to_string(), "O".to_string()).get_public_key();
    v.add_known_peer("s".to_string(), other_key).unwrap();
    assert!(!v.verify_message(&good).unwrap());
    v.add_known_peer("s".to_string(), signer.get_public_key()).unwrap();
    assert!(v.verify_message(&good).unwrap());
    assert_eq!(v.known_peers_count(), 1);
}

#[test]
fn add_known_peer_refuses_bad_keys() {
    let mut v = CryptoManager::new("v".to_string(), "V".to_string());
    assert!(matches!(v.add_known_peer("p".to_string(), vec![1, 2, 3]), Err(CryptoError::InvalidPublicKey)));
    assert_eq!(v.known_peers_count(), 0);
}

#[test]
fn recency_window() {
    assert!(is_recent_at(100, 50, 50));
    assert!(!is_recent_at(100, 49, 50));
    assert!(is_recent_at(100, 200, 0));
    assert!(is_recent_at(0, 0, 0));
}

#[test]
fn error_texts() {
    assert_eq!(CryptoError::InvalidPublicKey.to_string(), "Invalid public key format");
    assert_eq!(CryptoError::InvalidSignature.to_string(), "Invalid signature format");
    assert_eq!(CryptoError::VerificationFailed.to_string(), "Message verification failed");
    assert_eq!(CryptoError::MessageTooOld.to_string(), "Message is too old");
    assert_eq!(CryptoError::Unknown("x".to_string()).to_string(), "Unknown error: x");
    assert_eq!(ChatError::Network("n".to_string()).to_string(), "Network error: n");
    assert_eq!(ChatError::Serialization("s".to_string()).to_string(), "Serialization error: s");
    assert_eq!(ChatError::Unknown("u".to_string()).to_string(), "Unknown error: u");
    let e = ChatError::from_crypto(&CryptoError::InvalidSignature);
    assert_eq!(e.to_string(), "Unknown error: Invalid signature format");
}

#[test]
fn only_curve_points_are_accepted_as_keys() {
    let mut v = CryptoManager::new("v".to_string(), "V".to_string());
    let mut accepted = 0;
    let mut refused = 0;
    for b in 0u8..=255 {
        let mut key = vec![0u8; 32];
        key[0] = b;
        match v.add_known_peer(format!("p{}", b), key) {
            Ok(()) => accepted += 1,
            Err(CryptoError::InvalidPublicKey) => refused += 1,
            Err(e) => panic!("{:?}", e),
        }
    }
    assert!(accepted > 0);
    assert!(refused > 0);
    assert_eq!(v.known_peers_count(), accepted);
}

#[test]
fn recency_against_the_clock() {
    let m = CryptoManager::new("v".to_string(), "V".to_string());
    assert!(m.is_message_recent(u64::MAX, 0));
    assert!(!m.is_message_recent(0, 10));
}
