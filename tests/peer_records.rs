use p2p_chat::chat::Peer;
use p2p_chat::peer::{IpAddress, Message, PeerInfo};

fn info(id: &str, name: &str, ip: IpAddress, port: u16) -> PeerInfo {
    PeerInfo { id: id.to_string(), name: name.to_string(), ip, port }
}

#[test]
fn test_peer_info_valid() {
    let valid_peer = info("abc123", "Alice", IpAddress::V4([192, 168, 1, 2]), 9000);
    assert!(valid_peer.is_valid());

    let invalid_peer = info("", "", IpAddress::V4([127, 0, 0, 1]), 0);
    assert!(!invalid_peer.is_valid());
}

#[test]
fn test_peer_name_length() {
    let long_name = "a".repeat(1000);
    let first = PeerInfo {
        id: "id".to_string(),
        name: long_name,
        ip: IpAddress::V4([10, 0, 0, 1]),
        port: 1234,
    };
    assert!(!first.is_valid());
}

#[test]
fn test_message_content() {
    let msg = Message {
        from_id: "id1".to_string(),
        from_name: "Alice".to_string(),
        content: "Hello, world!".to_string(),
        timestamp: 1234567890,
        signature: None,
        public_key: None,
    };
    assert_eq!(msg.content, "Hello, world!");
    assert!(!msg.content.is_empty());
}

#[test]
fn test_message_empty_content() {
    let msg = Message {
        from_id: "id2".to_string(),
        from_name: "Bob".to_string(),
        content: "".to_string(),
        timestamp: 1234567890,
        signature: None,
        public_key: None,
    };
    assert!(msg.content.is_empty());
}

#[test]
fn test_peerinfo_is_valid_for_broadcast() {
    let valid_peer = info("id1", "Peer1", IpAddress::V4([192, 168, 1, 10]), 9000);
    assert!(valid_peer.is_valid());

    let invalid_peer = info("", "", IpAddress::V4([0, 0, 0, 0]), 0);
    assert!(!invalid_peer.is_valid());
}

#[test]
fn test_chat_name_validation() {
    let first = Peer::new("".to_string(), 9000);
    assert_eq!(first.name(), "Anonymous");

    let invalid_name_length = 1000;
    let long_name = "a".repeat(invalid_name_length);
    let second = Peer::new(long_name, 9000);
    assert_eq!(second.name(), "Anonymous");

    let valid_name = "Bob".to_string();
    let third = Peer::new(valid_name.clone(), 9000);
    assert_eq!(*third.name(), valid_name);
}

#[test]
fn test_chat_port_validation() {
    let first = Peer::new("Alice".to_string(), 0);
    assert_eq!(first.port(), 8080);
    let second = Peer::new("Alice".to_string(), 1234);
    assert_eq!(second.port(), 1234);
}

#[test]
fn test_chat_new() {
    let peer = Peer::new("Tester".to_string(), 9000);
    assert_eq!(peer.name(), "Tester");
    assert_eq!(peer.port(), 9000);
}
