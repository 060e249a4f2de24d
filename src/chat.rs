//! The peer: its identity, the registry of other peers, the handling of
//! received messages, and what it sends to whom.
use vstd::prelude::*;
use crate::crypto::{keys_after_verify, unix_time_now, verify_outcome, CryptoManager, SignedMessage};
use crate::display::{
    failed_line, format_failed, format_invalid, format_partial, format_proposal, format_unsigned,
    format_verified, invalid_line, partial_line, proposal_line, unsigned_line, verified_line,
    vote_line,
};
use crate::error::{crypto_error_text, ChatError, CryptoError};
use crate::discovery::{peer_id_of_records, records_view, response_peer_id, MdnsResponse};
use crate::peer::{peer_fields_valid, Message, NetworkMessage, PeerInfo, MAX_NAME_CHARS};
use crate::strmap::StrMap;
use crate::text::{lemma_trim_fixed, lemma_trimmed_idempotent, trim_str, trimmed};
use crate::threshold::{
    clock_error_text, has_voted, new_id, refusal_text, same_vote, vote_refusal, votes_of,
    with_proposal, with_vote, EngineView,
    PartialSignature, ProposalState, ThresholdManager, UpgradeProposal, UpgradeVote,
};

verus! {

/// The name used when the given one is blank or too long.
pub open spec fn anonymous() -> Seq<char> {
    "Anonymous"@
}

/// The stored form of a display name: the trimmed name, or `Anonymous`
/// when that is empty or longer than `MAX_NAME_CHARS` characters.
pub open spec fn normalized_name(s: Seq<char>) -> Seq<char> {
    if trimmed(s).len() == 0 || trimmed(s).len() > MAX_NAME_CHARS {
        anonymous()
    } else {
        trimmed(s)
    }
}

/// The port used when 0 is given.
pub const DEFAULT_PORT: u16 = 8080;

/// The stored form of a port: 0 becomes `DEFAULT_PORT`.
pub open spec fn normalized_port(p: u16) -> u16 {
    if p == 0 {
        DEFAULT_PORT
    } else {
        p
    }
}

/// Normalizes a display name.
pub fn normalize_name(name: &str) -> (r: String)
    ensures
        r@ == normalized_name(name@),
{
    let t = trim_str(name);
    let n = t.unicode_len();
    if n == 0 || n > MAX_NAME_CHARS {
        String::from_str("Anonymous")
    } else {
        String::from_str(t)
    }
}

/// Normalizes a port.
pub fn normalize_port(port: u16) -> (r: u16)
    ensures
        r == normalized_port(port),
{
    if port == 0 {
        DEFAULT_PORT
    } else {
        port
    }
}

/// Every entry is valid, stored under its own id, and is not this peer.
pub open spec fn registry_ok(reg: Map<Seq<char>, PeerInfo>, self_id: Seq<char>) -> bool {
    forall|k: Seq<char>| #[trigger]
        reg.contains_key(k) ==> reg[k].valid() && reg[k].id@ == k && k != self_id
}

/// `t` lists the entries of `reg`, each once.
pub open spec fn lists_registry(reg: Map<Seq<char>, PeerInfo>, t: Seq<PeerInfo>) -> bool {
    &&& t.len() == reg.dom().len()
    &&& forall|i: int|
        0 <= i < t.len() ==> reg.contains_key((#[trigger] t[i]).id@) && reg[t[i].id@] == t[i]
    &&& forall|k: Seq<char>| #[trigger]
        reg.contains_key(k) ==> exists|i: int| 0 <= i < t.len() && (#[trigger] t[i]).id@ == k
}

/// The line shown for the outcome of verifying a message from `name`.
pub open spec fn verification_line(
    outcome: Result<bool, CryptoError>,
    name: Seq<char>,
    content: Seq<char>,
) -> Seq<char> {
    match outcome {
        Ok(true) => verified_line(name, content),
        Ok(false) => invalid_line(name, content),
        Err(e) => failed_line(name, crypto_error_text(e), content),
    }
}

/// The signed message that a chat message with a signature and a key embeds.
pub open spec fn embedded_signed(m: Message) -> SignedMessage {
    SignedMessage {
        message: m.content,
        signature: m.signature->Some_0,
        public_key: m.public_key->Some_0,
        signer_id: m.from_id,
        signer_name: m.from_name,
        timestamp: m.timestamp,
    }
}

/// `a` and `b` have the same identity: id, name, port and keypair.
pub open spec fn same_identity(a: Peer, b: Peer) -> bool {
    &&& a.id_view() == b.id_view()
    &&& a.name_view() == b.name_view()
    &&& a.port_view() == b.port_view()
    &&& a.crypto().identity() == b.crypto().identity()
    &&& a.crypto().public_key() == b.crypto().public_key()
    &&& a.crypto().secret_key() == b.crypto().secret_key()
}

/// What handling a received message leads to, beyond the state change.
#[derive(Debug)]
pub enum Event {
    /// A line for the user.
    Show(String),
    /// A peer entered the registry for the first time.
    Joined(PeerInfo),
    /// A known peer's record was refreshed.
    Refreshed,
    /// A peer left and was removed from the registry.
    Left(String),
    /// A peer's public key was cached.
    KeyAdded(String),
    /// A peer's announced public key was refused.
    KeyRefused(CryptoError),
    /// Nothing to report.
    Quiet,
}

/// A message to send to each target over a fresh connection; when a send
/// fails, the fallback form is tried on the same connection.
#[derive(Debug)]
pub struct Outbound {
    pub targets: Vec<PeerInfo>,
    pub message: NetworkMessage,
    pub fallback: Option<NetworkMessage>,
}

/// The message of the error for an unsigned message in secure-only mode.
pub open spec fn policy_error_text() -> Seq<char> {
    "Cannot send unsigned messages when secure-only messaging is enabled"@
}

/// The name given to a discovered peer whose response has no PTR name.
pub open spec fn unknown_name() -> Seq<char> {
    "unknown"@
}

/// The name of the peer an mDNS response describes.
pub open spec fn mdns_name(resp: MdnsResponse) -> Seq<char> {
    match resp.instance_name {
        Some(n) => n@,
        None => unknown_name(),
    }
}

/// The port of the peer an mDNS response describes: its SRV port, else `own_port`.
pub open spec fn mdns_port(resp: MdnsResponse, own_port: u16) -> u16 {
    match resp.port {
        Some(p) => p,
        None => own_port,
    }
}

/// Whether a response describes a valid peer other than `self_id`: it has
/// an address and a TXT record that gives a peer id.
pub open spec fn mdns_accepts(resp: MdnsResponse, self_id: Seq<char>, own_port: u16) -> bool {
    &&& response_peer_id(records_view(resp.txt_records)) is Some
    &&& resp.ip is Some
    &&& response_peer_id(records_view(resp.txt_records))->Some_0 != self_id
    &&& peer_fields_valid(
        response_peer_id(records_view(resp.txt_records))->Some_0,
        mdns_name(resp),
        resp.ip->Some_0,
        mdns_port(resp, own_port),
    )
}

/// The error for an unsigned message in secure-only mode.
pub fn policy_error() -> (r: ChatError)
    ensures
        r matches ChatError::Unknown(s) && s@ == policy_error_text(),
{
    ChatError::Unknown(
        String::from_str("Cannot send unsigned messages when secure-only messaging is enabled"),
    )
}

/// The error for a clock before the Unix epoch.
pub fn clock_failure() -> (r: ChatError)
    ensures
        r matches ChatError::Unknown(s) && s@ == clock_error_text(),
{
    ChatError::Unknown(String::from_str("system clock is before the Unix epoch"))
}

/// A peer's own record is fit to announce: a non-blank id, a non-blank name
/// of at most `MAX_NAME_CHARS` characters, and a port other than 0.
pub open spec fn own_record_ok(id: Seq<char>, name: Seq<char>, port: u16) -> bool {
    &&& trimmed(id).len() > 0
    &&& trimmed(name).len() > 0
    &&& name.len() <= MAX_NAME_CHARS
    &&& port > 0
}

/// A running peer, without its I/O.
pub struct Peer {
    peer_id: String,
    name: String,
    port: u16,
    peers: StrMap<PeerInfo>,
    crypto_manager: CryptoManager,
    threshold_manager: ThresholdManager,
}

impl Peer {
    /// This peer's id.
    pub closed spec fn id_view(&self) -> Seq<char> {
        self.peer_id@
    }

    /// This peer's display name.
    pub closed spec fn name_view(&self) -> Seq<char> {
        self.name@
    }

    /// This peer's TCP port.
    pub closed spec fn port_view(&self) -> u16 {
        self.port
    }

    /// This peer's id.
    pub fn peer_id(&self) -> (r: &String)
        ensures
            r@ == self.id_view(),
    {
        &self.peer_id
    }

    /// This peer's display name.
    pub fn name(&self) -> (r: &String)
        ensures
            r@ == self.name_view(),
    {
        &self.name
    }

    /// This peer's TCP port.
    pub fn port(&self) -> (r: u16)
        ensures
            r == self.port_view(),
    {
        self.port
    }

    /// The registry of other peers, by id.
    pub closed spec fn registry(&self) -> Map<Seq<char>, PeerInfo> {
        self.peers@
    }

    /// The identity, signing keys and key cache.
    pub closed spec fn crypto(&self) -> CryptoManager {
        self.crypto_manager
    }

    /// The proposals, votes and secure-only latch.
    pub closed spec fn engine(&self) -> EngineView {
        self.threshold_manager@
    }

    /// The parts agree and the registry holds only valid entries of other peers.
    pub closed spec fn wf(&self) -> bool {
        &&& self.peers.wf()
        &&& self.crypto_manager.wf()
        &&& self.threshold_manager.wf()
        &&& registry_ok(self.peers@, self.peer_id@)
        &&& self.crypto_manager.identity().peer_id@ == self.peer_id@
        &&& self.crypto_manager.identity().name@ == self.name@
        &&& own_record_ok(self.peer_id@, self.name@, self.port)
    }

    /// The well-formedness of a peer includes registry validity, the absence
    /// of an entry for the peer itself, a signing identity with the peer's id
    /// and name, an own record fit to announce, and the engine invariant.
    pub proof fn lemma_wf_registry(&self)
        requires
            self.wf(),
        ensures
            registry_ok(self.registry(), self.id_view()),
            self.crypto().wf(),
            self.crypto().identity().peer_id@ == self.id_view(),
            self.crypto().identity().name@ == self.name_view(),
            own_record_ok(self.id_view(), self.name_view(), self.port_view()),
            crate::threshold::engine_inv(self.engine()),
    {
        self.threshold_manager.lemma_inv();
    }

    /// A peer with a fresh id and keypair, a normalized name and port, no
    /// known peers, no proposals and secure-only mode off.
    pub fn new(name: String, port: u16) -> (r: Peer)
        ensures
            r.wf(),
            r.name_view() == normalized_name(name@),
            r.port_view() == normalized_port(port),
            r.id_view().len() == 36,
            r.crypto().identity().peer_id@ == r.id_view(),
            r.crypto().identity().name@ == r.name_view(),
            own_record_ok(r.id_view(), r.name_view(), r.port_view()),
            r.registry() == Map::<Seq<char>, PeerInfo>::empty(),
            r.engine().proposals == Map::<Seq<char>, UpgradeProposal>::empty(),
            !r.engine().secure_only,
            r.crypto().known_keys() == Map::<Seq<char>, Seq<u8>>::empty(),
    {
        let ghost given = name@;
        let name = normalize_name(name.as_str());
        let port = normalize_port(port);
        let peer_id = new_id();
        let crypto_manager = CryptoManager::new(peer_id.clone(), name.clone());
        proof {
            assert(crate::threshold::uuid_char(peer_id@[0]));
            assert(crate::threshold::uuid_char(peer_id@[35]));
            lemma_trim_fixed(peer_id@);
            if trimmed(given).len() == 0 || trimmed(given).len() > MAX_NAME_CHARS {
                reveal_strlit("Anonymous");
                assert(name@ == anonymous());
                assert(name@[0] == 'A');
                assert(name@.last() == 's');
                lemma_trim_fixed(name@);
            } else {
                lemma_trimmed_idempotent(given);
            }
        }
        Peer {
            peer_id,
            name,
            port,
            peers: StrMap::new(),
            crypto_manager,
            threshold_manager: ThresholdManager::new(),
        }
    }

    /// The identity, signing keys and key cache.
    pub fn crypto_manager(&self) -> (r: &CryptoManager)
        ensures
            *r == self.crypto(),
    {
        &self.crypto_manager
    }

    /// The proposals, votes and secure-only latch.
    pub fn threshold_manager(&self) -> (r: &ThresholdManager)
        ensures
            r@ == self.engine(),
    {
        &self.threshold_manager
    }

    /// The number of known peers.
    pub fn peer_count(&self) -> (r: usize)
        requires
            self.wf(),
        ensures
            r == self.registry().dom().len(),
    {
        self.peers.len()
    }

    /// The registry's entries, each once.
    pub fn peer_snapshot(&self) -> (r: Vec<PeerInfo>)
        requires
            self.wf(),
        ensures
            lists_registry(self.registry(), r@),
            forall|i: int| 0 <= i < r@.len() ==> (#[trigger] r@[i]).valid(),
    {
        proof {
            self.peers.lemma_positions();
        }
        let n = self.peers.len();
        let mut out: Vec<PeerInfo> = Vec::new();
        let mut i: usize = 0;
        while i < n
            invariant
                self.wf(),
                n == self.peers.size(),
                n == self.peers@.dom().len(),
                i <= n,
                out@.len() == i,
                forall|a: int|
                    0 <= a < i ==> (#[trigger] out@[a]).id@ == self.peers.key_spec(a)
                        && self.peers@.contains_key(out@[a].id@) && self.peers@[out@[a].id@]
                        == out@[a],
            decreases n - i,
        {
            let p = self.peers.value_at(i);
            out.push(p.clone());
            i = i + 1;
        }
        proof {
            assert forall|k: Seq<char>| #[trigger] self.peers@.contains_key(k) implies exists|a: int|
                0 <= a < out@.len() && (#[trigger] out@[a]).id@ == k by {
                let b = choose|b: int|
                    0 <= b < self.peers.size() && #[trigger] self.peers.key_spec(b) == k;
                assert(out@[b].id@ == k);
            }
        }
        out
    }

    /// Takes in a peer record received in a `Discovery` message: ignored when
    /// it names this peer, refused when invalid, else stored under its id,
    /// replacing any earlier entry. Returns whether the peer was new.
    pub fn handle_discovery(&mut self, peer_info: PeerInfo) -> (r: Option<bool>)
        requires
            old(self).wf(),
        ensures
            final(self).wf(),
            final(self).crypto() == old(self).crypto(),
            final(self).engine() == old(self).engine(),
            final(self).id_view() == old(self).id_view(),
            final(self).name_view() == old(self).name_view(),
            final(self).port_view() == old(self).port_view(),
            (peer_info.id@ == old(self).id_view() || !peer_info.valid()) ==> r is None
                && final(self).registry() == old(self).registry(),
            !(peer_info.id@ == old(self).id_view() || !peer_info.valid()) ==> r == Some(
                !old(self).registry().contains_key(peer_info.id@),
            ) && final(self).registry() == old(self).registry().insert(peer_info.id@, peer_info),
    {
        if crate::text::same_text(peer_info.id.as_str(), self.peer_id.as_str()) {
            return None;
        }
        if !peer_info.is_valid() {
            return None;
        }
        let first = !self.peers.contains_key(peer_info.id.as_str());
        let ghost reg = self.peers@;
        let ghost pid = peer_info.id@;
        self.peers.insert(peer_info.id.clone(), peer_info);
        proof {
            assert forall|k: Seq<char>| #[trigger] self.peers@.contains_key(k) implies self.peers@[k].valid()
                && self.peers@[k].id@ == k && k != self.peer_id@ by {
                if k != pid {
                    assert(reg.contains_key(k));
                }
            }
        }
        Some(first)
    }

    /// Removes the peer that announced its exit. Returns whether it was known.
    pub fn handle_exit(&mut self, peer_id: &str) -> (r: bool)
        requires
            old(self).wf(),
        ensures
            final(self).wf(),
            final(self).crypto() == old(self).crypto(),
            final(self).engine() == old(self).engine(),
            final(self).id_view() == old(self).id_view(),
            final(self).name_view() == old(self).name_view(),
            final(self).port_view() == old(self).port_view(),
            r == old(self).registry().contains_key(peer_id@),
            final(self).registry() == old(self).registry().remove(peer_id@),
    {
        let ghost reg = self.peers@;
        let r = self.peers.remove(peer_id);
        proof {
            assert forall|k: Seq<char>| #[trigger] self.peers@.contains_key(k) implies self.peers@[k].valid()
                && self.peers@[k].id@ == k && k != self.peer_id@ by {
                assert(reg.contains_key(k));
            }
        }
        r.is_some()
    }

    /// Verifies a signed message and returns the line to show for it.
    pub fn verify_and_display(&mut self, signed_message: &SignedMessage) -> (r: String)
        requires
            old(self).wf(),
        ensures
            final(self).wf(),
            same_identity(*old(self), *final(self)),
            final(self).registry() == old(self).registry(),
            final(self).engine() == old(self).engine(),
            final(self).crypto().known_keys() == keys_after_verify(
                old(self).crypto().known_keys(),
                *signed_message,
            ),
            r@ == verification_line(
                verify_outcome(old(self).crypto().known_keys(), *signed_message),
                signed_message.signer_name@,
                signed_message.message@,
            ),
    {
        let name = signed_message.signer_name.as_str();
        let content = signed_message.message.as_str();
        match self.crypto_manager.verify_message(signed_message) {
            Ok(true) => format_verified(name, content),
            Ok(false) => format_invalid(name, content),
            Err(e) => {
                let text = e.to_string();
                format_failed(name, text.as_str(), content)
            },
        }
    }

    /// Handles a chat message: one with a signature and a key is verified,
    /// another is shown as unsigned.
    pub fn handle_chat_message(&mut self, message: Message) -> (r: String)
        requires
            old(self).wf(),
        ensures
            final(self).wf(),
            same_identity(*old(self), *final(self)),
            final(self).registry() == old(self).registry(),
            final(self).engine() == old(self).engine(),
            (message.signature is Some && message.public_key is Some) ==> {
                &&& final(self).crypto().known_keys() == keys_after_verify(
                    old(self).crypto().known_keys(),
                    embedded_signed(message),
                )
                &&& r@ == verification_line(
                    verify_outcome(old(self).crypto().known_keys(), embedded_signed(message)),
                    message.from_name@,
                    message.content@,
                )
            },
            !(message.signature is Some && message.public_key is Some) ==> {
                &&& final(self).crypto().known_keys() == old(self).crypto().known_keys()
                &&& r@ == unsigned_line(message.from_name@, message.content@)
            },
    {
        match message {
            Message {
                from_id,
                from_name,
                content,
                timestamp,
                signature: Some(signature),
                public_key: Some(public_key),
            } => {
                let signed = SignedMessage {
                    message: content,
                    signature,
                    public_key,
                    signer_id: from_id,
                    signer_name: from_name,
                    timestamp,
                };
                self.verify_and_display(&signed)
            },
            _ => format_unsigned(message.from_name.as_str(), message.content.as_str()),
        }
    }

    /// Handles a signed chat message.
    pub fn handle_signed_chat(&mut self, signed_message: SignedMessage) -> (r: String)
        requires
            old(self).wf(),
        ensures
            final(self).wf(),
            same_identity(*old(self), *final(self)),
            final(self).registry() == old(self).registry(),
            final(self).engine() == old(self).engine(),
            final(self).crypto().known_keys() == keys_after_verify(
                old(self).crypto().known_keys(),
                signed_message,
            ),
            r@ == verification_line(
                verify_outcome(old(self).crypto().known_keys(), signed_message),
                signed_message.signer_name@,
                signed_message.message@,
            ),
    {
        self.verify_and_display(&signed_message)
    }

    /// Caches the public key that a peer announced; refuses bytes that do not
    /// form a public key.
    pub fn handle_identity_announcement(&mut self, peer_id: String, public_key: Vec<u8>) -> (r:
        Result<(), CryptoError>)
        requires
            old(self).wf(),
        ensures
            final(self).wf(),
            same_identity(*old(self), *final(self)),
            final(self).registry() == old(self).registry(),
            final(self).engine() == old(self).engine(),
            (public_key@.len() == 32 && crate::crypto::key_decompresses(public_key@)) ==> r is Ok
                && final(self).crypto().known_keys() == old(self).crypto().known_keys().insert(
                peer_id@,
                public_key@,
            ),
            !(public_key@.len() == 32 && crate::crypto::key_decompresses(public_key@)) ==> r
                is Err && final(self).crypto().known_keys() == old(self).crypto().known_keys(),
    {
        self.crypto_manager.add_known_peer(peer_id, public_key)
    }

    /// Stores a received proposal unless its id is known, and returns the
    /// line to show for it.
    pub fn handle_upgrade_request(&mut self, proposal: UpgradeProposal) -> (r: String)
        requires
            old(self).wf(),
        ensures
            final(self).wf(),
            old(self).engine().secure_only ==> final(self).engine().secure_only,
            same_identity(*old(self), *final(self)),
            final(self).registry() == old(self).registry(),
            final(self).crypto().known_keys() == old(self).crypto().known_keys(),
            old(self).engine().proposals.contains_key(proposal.proposal_id@) ==> final(self).engine()
                == old(self).engine(),
            !old(self).engine().proposals.contains_key(proposal.proposal_id@) ==> final(self).engine() == with_proposal(old(self).engine(), proposal),
            r@ == proposal_line(
                proposal.proposer_name@,
                proposal.description@,
                proposal.proposal_id@,
            ),
    {
        let line = format_proposal(
            proposal.proposer_name.as_str(),
            proposal.description.as_str(),
            proposal.proposal_id.as_str(),
        );
        self.threshold_manager.insert_received_proposal(proposal);
        line
    }

    /// Takes in a received vote unless its voter already voted on that
    /// proposal, and returns the line to show for it.
    pub fn handle_upgrade_vote(&mut self, vote: UpgradeVote) -> (r: String)
        requires
            old(self).wf(),
        ensures
            final(self).wf(),
            old(self).engine().secure_only ==> final(self).engine().secure_only,
            same_identity(*old(self), *final(self)),
            final(self).registry() == old(self).registry(),
            final(self).crypto().known_keys() == old(self).crypto().known_keys(),
            has_voted(votes_of(old(self).engine(), vote.proposal_id@), vote.voter_id@) ==> final(self).engine() == old(self).engine(),
            !has_voted(votes_of(old(self).engine(), vote.proposal_id@), vote.voter_id@) ==> exists|
                v: UpgradeVote,
            | same_vote(v, vote) && final(self).engine() == with_vote(old(self).engine(), v),
            r@ == vote_line(vote.voter_name@, vote.approved, vote.proposal_id@),
    {
        self.threshold_manager.handle_received_vote(&vote);
        crate::display::format_vote(vote.voter_name.as_str(), vote.approved, vote.proposal_id.as_str())
    }

    /// The line to show for a received partial signature.
    pub fn handle_partial_signature(&self, partial_sig: &PartialSignature) -> (r: String)
        ensures
            r@ == partial_line(partial_sig.signer_name@, partial_sig.proposal_id@),
    {
        format_partial(partial_sig.signer_name.as_str(), partial_sig.proposal_id.as_str())
    }

    /// Dispatches a received message to its handler.
    pub fn handle_message(&mut self, msg: NetworkMessage) -> (r: Event)
        requires
            old(self).wf(),
        ensures
            final(self).wf(),
            old(self).engine().secure_only ==> final(self).engine().secure_only,
            same_identity(*old(self), *final(self)),
            match msg {
                NetworkMessage::Chat(m) => {
                    &&& final(self).registry() == old(self).registry()
                    &&& final(self).engine() == old(self).engine()
                    &&& (m.signature is Some && m.public_key is Some) ==> {
                        &&& final(self).crypto().known_keys() == keys_after_verify(
                            old(self).crypto().known_keys(),
                            embedded_signed(m),
                        )
                        &&& r matches Event::Show(line) && line@ == verification_line(
                            verify_outcome(old(self).crypto().known_keys(), embedded_signed(m)),
                            m.from_name@,
                            m.content@,
                        )
                    }
                    &&& !(m.signature is Some && m.public_key is Some) ==> {
                        &&& final(self).crypto().known_keys() == old(self).crypto().known_keys()
                        &&& r matches Event::Show(line) && line@ == unsigned_line(
                            m.from_name@,
                            m.content@,
                        )
                    }
                },
                NetworkMessage::SignedChat(m) => {
                    &&& final(self).registry() == old(self).registry()
                    &&& final(self).engine() == old(self).engine()
                    &&& final(self).crypto().known_keys() == keys_after_verify(
                        old(self).crypto().known_keys(),
                        m,
                    )
                    &&& r matches Event::Show(line) && line@ == verification_line(
                        verify_outcome(old(self).crypto().known_keys(), m),
                        m.signer_name@,
                        m.message@,
                    )
                },
                NetworkMessage::Discovery(info) => {
                    &&& final(self).engine() == old(self).engine()
                    &&& final(self).crypto().known_keys() == old(self).crypto().known_keys()
                    &&& (info.id@ == old(self).id_view() || !info.valid()) ==> r is Quiet
                        && final(self).registry() == old(self).registry()
                    &&& !(info.id@ == old(self).id_view() || !info.valid()) ==> final(self).registry()
                        == old(self).registry().insert(info.id@, info) && (if old(self).registry().contains_key(info.id@) {
                        r is Refreshed
                    } else {
                        r matches Event::Joined(j) && j == info
                    })
                },
                NetworkMessage::Heartbeat(_) => {
                    &&& r is Quiet
                    &&& final(self).registry() == old(self).registry()
                    &&& final(self).engine() == old(self).engine()
                    &&& final(self).crypto().known_keys() == old(self).crypto().known_keys()
                },
                NetworkMessage::Exit(id) => {
                    &&& final(self).engine() == old(self).engine()
                    &&& final(self).crypto().known_keys() == old(self).crypto().known_keys()
                    &&& final(self).registry() == old(self).registry().remove(id@)
                    &&& old(self).registry().contains_key(id@) ==> (r matches Event::Left(x) && x
                        == id)
                    &&& !old(self).registry().contains_key(id@) ==> r is Quiet
                },
                NetworkMessage::IdentityAnnouncement { peer_id, name, public_key } => {
                    &&& final(self).engine() == old(self).engine()
                    &&& final(self).registry() == old(self).registry()
                    &&& (public_key@.len() == 32 && crate::crypto::key_decompresses(public_key@))
                        ==> (r matches Event::KeyAdded(n) && n == name
                        && final(self).crypto().known_keys() == old(self).crypto().known_keys().insert(peer_id@, public_key@))
                    &&& !(public_key@.len() == 32 && crate::crypto::key_decompresses(public_key@))
                        ==> r is KeyRefused && final(self).crypto().known_keys() == old(self).crypto().known_keys()
                },
                NetworkMessage::UpgradeRequest(p) => {
                    &&& r matches Event::Show(line) && line@ == proposal_line(
                        p.proposer_name@,
                        p.description@,
                        p.proposal_id@,
                    )
                    &&& final(self).registry() == old(self).registry()
                    &&& final(self).crypto().known_keys() == old(self).crypto().known_keys()
                    &&& old(self).engine().proposals.contains_key(p.proposal_id@) ==> final(self).engine()
                        == old(self).engine()
                    &&& !old(self).engine().proposals.contains_key(p.proposal_id@) ==> final(self).engine()
                        == with_proposal(old(self).engine(), p)
                },
                NetworkMessage::UpgradeVote(v) => {
                    &&& r matches Event::Show(line) && line@ == vote_line(
                        v.voter_name@,
                        v.approved,
                        v.proposal_id@,
                    )
                    &&& final(self).registry() == old(self).registry()
                    &&& final(self).crypto().known_keys() == old(self).crypto().known_keys()
                    &&& has_voted(votes_of(old(self).engine(), v.proposal_id@), v.voter_id@)
                        ==> final(self).engine() == old(self).engine()
                    &&& !has_voted(votes_of(old(self).engine(), v.proposal_id@), v.voter_id@)
                        ==> exists|w: UpgradeVote|
                        same_vote(w, v) && final(self).engine() == with_vote(old(self).engine(), w)
                },
                NetworkMessage::PartialSignature(p) => {
                    &&& r matches Event::Show(line) && line@ == partial_line(
                        p.signer_name@,
                        p.proposal_id@,
                    )
                    &&& final(self).registry() == old(self).registry()
                    &&& final(self).engine() == old(self).engine()
                    &&& final(self).crypto().known_keys() == old(self).crypto().known_keys()
                },
            },
    {
        match msg {
            NetworkMessage::Chat(m) => Event::Show(self.handle_chat_message(m)),
            NetworkMessage::SignedChat(m) => Event::Show(self.handle_signed_chat(m)),
            NetworkMessage::Discovery(info) => {
                let copy = info.clone();
                match self.handle_discovery(info) {
                    Some(true) => Event::Joined(copy),
                    Some(false) => Event::Refreshed,
                    None => Event::Quiet,
                }
            },
            NetworkMessage::Heartbeat(_) => Event::Quiet,
            NetworkMessage::Exit(id) => {
                if self.handle_exit(id.as_str()) {
                    Event::Left(id)
                } else {
                    Event::Quiet
                }
            },
            NetworkMessage::IdentityAnnouncement { peer_id, name, public_key } => {
                match self.handle_identity_announcement(peer_id, public_key) {
                    Ok(()) => Event::KeyAdded(name),
                    Err(e) => Event::KeyRefused(e),
                }
            },
            NetworkMessage::UpgradeRequest(p) => Event::Show(self.handle_upgrade_request(p)),
            NetworkMessage::UpgradeVote(v) => Event::Show(self.handle_upgrade_vote(v)),
            NetworkMessage::PartialSignature(p) => Event::Show(self.handle_partial_signature(&p)),
        }
    }

    /// The message for `content` stamped `timestamp`: always signed; outside
    /// secure-only mode a legacy chat form with the same signature and key
    /// is the fallback.
    pub fn broadcast_plan_at(&self, content: &str, timestamp: u64) -> (r: Outbound)
        requires
            self.wf(),
        ensures
            lists_registry(self.registry(), r.targets@),
            r.message matches NetworkMessage::SignedChat(m) && self.crypto().signs(
                content@,
                timestamp,
                m,
            ),
            self.engine().secure_only ==> r.fallback is None,
            !self.engine().secure_only ==> (r.fallback matches Some(NetworkMessage::Chat(c)) && {
                &&& c.from_id@ == self.id_view()
                &&& c.from_name@ == self.name_view()
                &&& c.content@ == content@
                &&& c.timestamp == timestamp
                &&& c.signature matches Some(sig) && r.message matches NetworkMessage::SignedChat(
                    m,
                ) && sig@ == m.signature@
                &&& c.public_key matches Some(k) && k@ == self.crypto().public_key()
            }),
    {
        let signed = self.crypto_manager.sign_message(content, timestamp).unwrap();
        let targets = self.peer_snapshot();
        if self.threshold_manager.is_secure_only_enabled() {
            Outbound { targets, message: NetworkMessage::SignedChat(signed), fallback: None }
        } else {
            let legacy = Message {
                from_id: self.peer_id.clone(),
                from_name: self.name.clone(),
                content: String::from_str(content),
                timestamp,
                signature: Some(signed.signature.clone()),
                public_key: Some(signed.public_key.clone()),
            };
            Outbound {
                targets,
                message: NetworkMessage::SignedChat(signed),
                fallback: Some(NetworkMessage::Chat(legacy)),
            }
        }
    }

    /// The signed broadcast of `content`, stamped with the clock; fails when
    /// the clock is before the Unix epoch.
    pub fn prepare_broadcast(&self, content: &str) -> (r: Result<Outbound, ChatError>)
        requires
            self.wf(),
        ensures
            r matches Err(e) ==> (e matches ChatError::Unknown(s) && s@ == clock_error_text()),
            r matches Ok(o) ==> (o.message matches NetworkMessage::SignedChat(m) && self.crypto().signs(
                content@,
                m.timestamp,
                m,
            )),
            r matches Ok(o) ==> lists_registry(self.registry(), o.targets@),
            r matches Ok(o) ==> (self.engine().secure_only <==> o.fallback is None),
    {
        match unix_time_now() {
            Some(t) => Ok(self.broadcast_plan_at(content, t)),
            None => Err(clock_failure()),
        }
    }

    /// The unsigned chat message for `content` stamped `timestamp`; refused
    /// in secure-only mode.
    pub fn unsigned_plan_at(&self, content: &str, timestamp: u64) -> (r: Result<Outbound, ChatError>)
        requires
            self.wf(),
        ensures
            self.engine().secure_only ==> (r matches Err(ChatError::Unknown(s)) && s@
                == policy_error_text()),
            !self.engine().secure_only ==> (r matches Ok(o) && {
                &&& lists_registry(self.registry(), o.targets@)
                &&& o.fallback is None
                &&& o.message matches NetworkMessage::Chat(c) && {
                    &&& c.from_id@ == self.id_view()
                    &&& c.from_name@ == self.name_view()
                    &&& c.content@ == content@
                    &&& c.timestamp == timestamp
                    &&& c.signature is None
                    &&& c.public_key is None
                }
            }),
    {
        if self.threshold_manager.is_secure_only_enabled() {
            return Err(policy_error());
        }
        let m = Message {
            from_id: self.peer_id.clone(),
            from_name: self.name.clone(),
            content: String::from_str(content),
            timestamp,
            signature: None,
            public_key: None,
        };
        Ok(Outbound { targets: self.peer_snapshot(), message: NetworkMessage::Chat(m), fallback: None })
    }

    /// The unsigned broadcast of `content`, stamped with the clock; refused
    /// in secure-only mode, and failing when the clock is before the epoch.
    pub fn prepare_unsigned_broadcast(&self, content: &str) -> (r: Result<Outbound, ChatError>)
        requires
            self.wf(),
        ensures
            self.engine().secure_only ==> (r matches Err(ChatError::Unknown(s)) && s@
                == policy_error_text()),
            !self.engine().secure_only ==> (r matches Err(e) ==> (e matches ChatError::Unknown(s) && s@
                == clock_error_text())),
            r is Ok ==> !self.engine().secure_only,
            r matches Ok(o) ==> (o.message matches NetworkMessage::Chat(c)
                && c.content@ == content@ && c.signature is None && c.public_key is None),
    {
        if self.threshold_manager.is_secure_only_enabled() {
            return Err(policy_error());
        }
        match unix_time_now() {
            Some(t) => self.unsigned_plan_at(content, t),
            None => Err(clock_failure()),
        }
    }

    /// The announcement of this peer's public key to every known peer.
    pub fn identity_plan(&self) -> (r: Outbound)
        requires
            self.wf(),
        ensures
            lists_registry(self.registry(), r.targets@),
            r.fallback is None,
            r.message matches NetworkMessage::IdentityAnnouncement { peer_id, name, public_key }
                && peer_id@ == self.id_view() && name@ == self.name_view() && public_key@
                == self.crypto().public_key(),
    {
        let identity = self.crypto_manager.get_identity();
        Outbound {
            targets: self.peer_snapshot(),
            message: NetworkMessage::IdentityAnnouncement {
                peer_id: identity.peer_id.clone(),
                name: identity.name.clone(),
                public_key: identity.public_key.clone(),
            },
            fallback: None,
        }
    }

    /// The proposal `proposal_id` for every known peer; fails when it is unknown.
    pub fn upgrade_proposal_plan(&self, proposal_id: &str) -> (r: Result<Outbound, ChatError>)
        requires
            self.wf(),
        ensures
            !self.engine().proposals.contains_key(proposal_id@) ==> (r matches Err(
                ChatError::Unknown(s),
            ) && s@ == "Proposal not found"@),
            self.engine().proposals.contains_key(proposal_id@) ==> (r matches Ok(o) && {
                &&& lists_registry(self.registry(), o.targets@)
                &&& o.fallback is None
                &&& o.message matches NetworkMessage::UpgradeRequest(p) && p == self.engine().proposals[proposal_id@]
            }),
    {
        match self.threshold_manager.get_proposal(proposal_id) {
            Some(p) => Ok(
                Outbound {
                    targets: self.peer_snapshot(),
                    message: NetworkMessage::UpgradeRequest(p),
                    fallback: None,
                },
            ),
            None => Err(ChatError::Unknown(String::from_str("Proposal not found"))),
        }
    }

    /// This peer's own vote on `proposal_id` for every known peer; fails
    /// when it has not voted.
    pub fn proposal_vote_plan(&self, proposal_id: &str) -> (r: Result<Outbound, ChatError>)
        requires
            self.wf(),
        ensures
            !has_voted(votes_of(self.engine(), proposal_id@), self.id_view()) ==> (r matches Err(
                ChatError::Unknown(s),
            ) && s@ == "Unknown error: Vote not found"@),
            has_voted(votes_of(self.engine(), proposal_id@), self.id_view()) ==> (r matches Ok(o) && {
                &&& lists_registry(self.registry(), o.targets@)
                &&& o.fallback is None
                &&& o.message matches NetworkMessage::UpgradeVote(v) && v.voter_id@ == self.id_view()
                    && exists|i: int|
                    0 <= i < votes_of(self.engine(), proposal_id@).len() && same_vote(
                        v,
                        votes_of(self.engine(), proposal_id@)[i],
                    )
            }),
    {
        let votes = self.threshold_manager.get_proposal_votes(proposal_id);
        let mut i: usize = 0;
        while i < votes.len()
            invariant
                i <= votes@.len(),
                votes@.len() == votes_of(self.engine(), proposal_id@).len(),
                forall|j: int|
                    0 <= j < votes@.len() ==> same_vote(
                        #[trigger] votes@[j],
                        votes_of(self.engine(), proposal_id@)[j],
                    ),
                forall|j: int| 0 <= j < i ==> (#[trigger] votes@[j]).voter_id@ != self.peer_id@,
                self.wf(),
            decreases votes@.len() - i,
        {
            if crate::text::same_text(votes[i].voter_id.as_str(), self.peer_id.as_str()) {
                let v = votes[i].clone();
                return Ok(
                    Outbound {
                        targets: self.peer_snapshot(),
                        message: NetworkMessage::UpgradeVote(v),
                        fallback: None,
                    },
                );
            }
            i = i + 1;
        }
        proof {
            if has_voted(votes_of(self.engine(), proposal_id@), self.id_view()) {
                let j = choose|j: int|
                    0 <= j < votes_of(self.engine(), proposal_id@).len() && (#[trigger] votes_of(
                        self.engine(),
                        proposal_id@,
                    )[j]).voter_id@ == self.id_view();
                assert(same_vote(votes@[j], votes_of(self.engine(), proposal_id@)[j]));
            }
        }
        Err(ChatError::Unknown(String::from_str("Unknown error: Vote not found")))
    }

    /// The exit notice for every known peer.
    pub fn exit_plan(&self) -> (r: Outbound)
        requires
            self.wf(),
        ensures
            lists_registry(self.registry(), r.targets@),
            r.fallback is None,
            r.message matches NetworkMessage::Exit(id) && id@ == self.id_view(),
    {
        Outbound {
            targets: self.peer_snapshot(),
            message: NetworkMessage::Exit(self.peer_id.clone()),
            fallback: None,
        }
    }

    /// Creates a proposal to enable secure-only messaging, by this peer,
    /// requiring a simple majority of the `N = n + 1` peers (the `n` known
    /// peers and this one): `N / 2 + 1` approvals.
    pub fn propose_secure_upgrade(&mut self, description: &str) -> (r: Result<String, ChatError>)
        requires
            old(self).wf(),
        ensures
            final(self).wf(),
            old(self).engine().secure_only ==> final(self).engine().secure_only,
            same_identity(*old(self), *final(self)),
            final(self).registry() == old(self).registry(),
            final(self).crypto().known_keys() == old(self).crypto().known_keys(),
            r matches Err(e) ==> (e matches ChatError::Unknown(s) && s@ == "Unknown error: "@
                + clock_error_text()) && final(self).engine() == old(self).engine(),
            r matches Ok(id) ==> exists|p: UpgradeProposal|
                {
                    &&& p.proposal_id@ == id@
                    &&& p.proposer_id@ == old(self).id_view()
                    &&& p.proposer_name@ == old(self).name_view()
                    &&& p.description@ == description@
                    &&& p.required_approvals == p.total_peers / 2 + 1
                    &&& (old(self).registry().dom().len() < usize::MAX ==> {
                        &&& p.total_peers == old(self).registry().dom().len() + 1
                        &&& p.required_approvals == (old(self).registry().dom().len() + 1) / 2 + 1
                    })
                    &&& final(self).engine() == with_proposal(old(self).engine(), p)
                },
    {
        let n = self.peers.len();
        let total = if n < usize::MAX {
            n + 1
        } else {
            n
        };
        let required = total / 2 + 1;
        let proposer_id = self.peer_id.clone();
        let proposer_name = self.name.clone();
        let desc = String::from_str(description);
        let ghost e0 = self.threshold_manager@;
        match self.threshold_manager.create_proposal(
            proposer_id,
            proposer_name,
            desc,
            required,
            total,
        ) {
            Ok(id) => {
                proof {
                    let p = choose|p: UpgradeProposal|
                        {
                            &&& p.proposal_id@ == id@
                            &&& p.proposer_id == proposer_id
                            &&& p.proposer_name == proposer_name
                            &&& p.description == desc
                            &&& p.required_approvals == required
                            &&& p.total_peers == total
                            &&& self.threshold_manager@ == with_proposal(e0, p)
                        };
                    assert(p.proposer_id@ == old(self).id_view());
                    assert(p.proposer_name@ == old(self).name_view());
                    assert(p.description@ == description@);
                    assert(p.required_approvals == p.total_peers / 2 + 1);
                    assert(self.engine() == with_proposal(old(self).engine(), p));
                }
                Ok(id)
            },
            Err(e) => Err(ChatError::from_crypto(&e)),
        }
    }

    /// Casts this peer's vote on `proposal_id`.
    pub fn vote_on_proposal(&mut self, proposal_id: &str, approved: bool) -> (r: Result<(), ChatError>)
        requires
            old(self).wf(),
        ensures
            final(self).wf(),
            old(self).engine().secure_only ==> final(self).engine().secure_only,
            same_identity(*old(self), *final(self)),
            final(self).registry() == old(self).registry(),
            final(self).crypto().known_keys() == old(self).crypto().known_keys(),
            vote_refusal(old(self).engine(), proposal_id@, old(self).id_view()) matches Some(f) ==> (r matches Err(
                ChatError::Unknown(s),
            ) && s@ == "Unknown error: "@ + refusal_text(f) && final(self).engine() == old(self).engine()),
            vote_refusal(old(self).engine(), proposal_id@, old(self).id_view()) is None ==> {
                &&& r is Err ==> final(self).engine() == old(self).engine()
                &&& r matches Err(e) ==> (e matches ChatError::Unknown(s) && s@ == "Unknown error: "@
                    + clock_error_text())
                &&& r is Ok ==> exists|v: UpgradeVote|
                    {
                        &&& v.proposal_id@ == proposal_id@
                        &&& v.voter_id@ == old(self).id_view()
                        &&& v.voter_name@ == old(self).name_view()
                        &&& v.approved == approved
                        &&& final(self).engine() == with_vote(old(self).engine(), v)
                    }
            },
    {
        match self.threshold_manager.cast_vote(
            proposal_id,
            self.peer_id.clone(),
            self.name.clone(),
            approved,
            &self.crypto_manager,
        ) {
            Ok(()) => Ok(()),
            Err(e) => Err(ChatError::from_crypto(&e)),
        }
    }

    /// Whether secure-only messaging is on.
    pub fn is_secure_only_enabled(&self) -> (r: bool)
        ensures
            r == self.engine().secure_only,
    {
        self.threshold_manager.is_secure_only_enabled()
    }

    /// The proposals that are still open, each once.
    pub fn get_active_proposals(&self) -> (r: Vec<UpgradeProposal>)
        requires
            self.wf(),
        ensures
            forall|i: int|
                0 <= i < r@.len() ==> {
                    &&& self.engine().proposals.contains_key((#[trigger] r@[i]).proposal_id@)
                    &&& self.engine().proposals[r@[i].proposal_id@] == r@[i]
                    &&& self.engine().states[r@[i].proposal_id@] == ProposalState::Open
                },
            forall|p: Seq<char>| #[trigger]
                self.engine().proposals.contains_key(p) && self.engine().states[p] == ProposalState::Open
                    ==> exists|i: int| 0 <= i < r@.len() && (#[trigger] r@[i]).proposal_id@ == p,
    {
        self.threshold_manager.get_active_proposals()
    }

    /// The votes recorded for `proposal_id`.
    pub fn get_proposal_votes(&self, proposal_id: &str) -> (r: Vec<UpgradeVote>)
        requires
            self.wf(),
        ensures
            r@.len() == votes_of(self.engine(), proposal_id@).len(),
            forall|i: int|
                0 <= i < r@.len() ==> same_vote(#[trigger] r@[i], votes_of(self.engine(), proposal_id@)[i]),
    {
        self.threshold_manager.get_proposal_votes(proposal_id)
    }

    /// Takes in an mDNS response: a valid peer other than this one is stored
    /// in the registry; when it is new, this peer introduces itself to it
    /// with a `Discovery` message carrying the address it was seen at.
    pub fn handle_mdns_response(&mut self, resp: &MdnsResponse) -> (r: Option<Outbound>)
        requires
            old(self).wf(),
        ensures
            final(self).wf(),
            same_identity(*old(self), *final(self)),
            final(self).engine() == old(self).engine(),
            final(self).crypto().known_keys() == old(self).crypto().known_keys(),
            !mdns_accepts(*resp, old(self).id_view(), old(self).port_view()) ==> r is None && final(self).registry() == old(self).registry(),
            mdns_accepts(*resp, old(self).id_view(), old(self).port_view()) ==> ({
                let id = response_peer_id(records_view(resp.txt_records))->Some_0;
                let ip = resp.ip->Some_0;
                let info = final(self).registry()[id];
                &&& final(self).registry().contains_key(id)
                &&& final(self).registry().remove(id) == old(self).registry().remove(id)
                &&& info.id@ == id
                &&& info.name@ == mdns_name(*resp)
                &&& info.ip == ip
                &&& info.port == mdns_port(*resp, old(self).port_view())
                &&& (r is Some <==> !old(self).registry().contains_key(id))
                &&& r matches Some(o) ==> {
                    &&& o.targets@ == seq![info]
                    &&& o.fallback is None
                    &&& o.message matches NetworkMessage::Discovery(me) && me.id@ == old(self).id_view() && me.name@ == old(self).name_view() && me.ip == ip && me.port
                        == old(self).port_view()
                }
            }),
    {
        let id = match peer_id_of_records(&resp.txt_records) {
            Some(i) => i,
            None => return None,
        };
        let ip = match resp.ip {
            Some(ip) => ip,
            None => return None,
        };
        let name = match &resp.instance_name {
            Some(n) => n.clone(),
            None => String::from_str("unknown"),
        };
        let port = match resp.port {
            Some(p) => p,
            None => self.port,
        };
        let info = PeerInfo { id, name, ip, port };
        let target = info.clone();
        let me = PeerInfo { id: self.peer_id.clone(), name: self.name.clone(), ip, port: self.port };
        let ghost reg = self.registry();
        match self.handle_discovery(info) {
            Some(true) => {
                let mut targets: Vec<PeerInfo> = Vec::new();
                targets.push(target);
                assert(targets@ =~= seq![target]);
                Some(Outbound { targets, message: NetworkMessage::Discovery(me), fallback: None })
            },
            _ => {
                proof {
                    if mdns_accepts(*resp, old(self).id_view(), old(self).port_view()) {
                        assert(self.registry().remove(target.id@) =~= reg.remove(target.id@));
                    }
                }
                None
            },
        }
    }
}

} // verus!
