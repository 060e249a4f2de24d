//! Peer records, chat messages and the messages that travel between peers.
use vstd::prelude::*;
use crate::text::{trimmed, trim_str};
use crate::crypto::SignedMessage;
use crate::threshold::{PartialSignature, UpgradeProposal, UpgradeVote};

verus! {

/// An IP address, v4 or v6, by its octets in network order.
#[derive(Debug, Clone, Copy)]
pub enum IpAddress {
    V4([u8; 4]),
    V6([u8; 16]),
}

/// A loopback address: `127.0.0.0/8`, or `::1`.
pub open spec fn ip_is_loopback(ip: IpAddress) -> bool {
    match ip {
        IpAddress::V4(o) => o@[0] == 127,
        IpAddress::V6(o) => (forall|i: int| 0 <= i < 15 ==> #[trigger] o@[i] == 0) && o@[15] == 1,
    }
}

/// A multicast address: `224.0.0.0/4`, or `ff00::/8`.
pub open spec fn ip_is_multicast(ip: IpAddress) -> bool {
    match ip {
        IpAddress::V4(o) => 224 <= o@[0] <= 239,
        IpAddress::V6(o) => o@[0] == 0xff,
    }
}

impl IpAddress {
    /// Whether this is a loopback address.
    pub fn is_loopback(&self) -> (r: bool)
        ensures
            r == ip_is_loopback(*self),
    {
        match self {
            IpAddress::V4(o) => o[0] == 127,
            IpAddress::V6(o) => {
                let mut i: usize = 0;
                while i < 15
                    invariant
                        i <= 15,
                        *self == IpAddress::V6(*o),
                        forall|j: int| 0 <= j < i ==> #[trigger] o@[j] == 0,
                    decreases 15 - i,
                {
                    if o[i] != 0 {
                        assert(o@[i as int] != 0);
                        return false;
                    }
                    i = i + 1;
                }
                o[15] == 1
            },
        }
    }

    /// Whether this is a multicast address.
    pub fn is_multicast(&self) -> (r: bool)
        ensures
            r == ip_is_multicast(*self),
    {
        match self {
            IpAddress::V4(o) => 224 <= o[0] && o[0] <= 239,
            IpAddress::V6(o) => o[0] == 0xff,
        }
    }
}

/// The network view of a peer.
#[derive(Debug)]
pub struct PeerInfo {
    pub id: String,
    pub name: String,
    pub ip: IpAddress,
    pub port: u16,
}

/// The longest display name, in characters.
pub const MAX_NAME_CHARS: usize = 128;

/// The validity predicate of a peer record, on its fields: an id and a name
/// that are not blank, a name of at most `MAX_NAME_CHARS` characters, a port
/// other than 0, and an address that is neither loopback nor multicast.
pub open spec fn peer_fields_valid(id: Seq<char>, name: Seq<char>, ip: IpAddress, port: u16) -> bool {
    &&& trimmed(id).len() > 0
    &&& trimmed(name).len() > 0
    &&& name.len() <= MAX_NAME_CHARS
    &&& port > 0
    &&& !ip_is_loopback(ip)
    &&& !ip_is_multicast(ip)
}

impl PeerInfo {
    /// The validity predicate of a peer record.
    pub open spec fn valid(&self) -> bool {
        peer_fields_valid(self.id@, self.name@, self.ip, self.port)
    }

    /// Checks the validity predicate.
    pub fn is_valid(&self) -> (r: bool)
        ensures
            r == self.valid(),
    {
        trim_str(self.id.as_str()).unicode_len() > 0 && trim_str(self.name.as_str()).unicode_len()
            > 0 && self.name.as_str().unicode_len() <= MAX_NAME_CHARS && self.port > 0
            && !self.ip.is_loopback() && !self.ip.is_multicast()
    }
}

impl Clone for PeerInfo {
    fn clone(&self) -> (r: Self)
        ensures
            r == *self,
    {
        PeerInfo { id: self.id.clone(), name: self.name.clone(), ip: self.ip, port: self.port }
    }
}

/// A chat message; signed when it carries both a signature and a public key.
#[derive(Debug)]
pub struct Message {
    pub from_id: String,
    pub from_name: String,
    pub content: String,
    pub timestamp: u64,
    pub signature: Option<Vec<u8>>,
    pub public_key: Option<Vec<u8>>,
}

/// The messages that peers exchange.
#[derive(Debug)]
pub enum NetworkMessage {
    Discovery(PeerInfo),
    Chat(Message),
    SignedChat(SignedMessage),
    Heartbeat(String),
    Exit(String),
    IdentityAnnouncement { peer_id: String, name: String, public_key: Vec<u8> },
    UpgradeRequest(UpgradeProposal),
    UpgradeVote(UpgradeVote),
    PartialSignature(PartialSignature),
}

} // verus!
