//! Ed25519 identity, message signing and verification, and the cache of
//! public keys learned from other peers (trust on first use).
use vstd::prelude::*;
use ed25519_dalek::{Signature, Signer, SigningKey, Verifier, VerifyingKey};
use rand::rngs::OsRng;
use crate::error::CryptoError;
use crate::strmap::StrMap;
use crate::text::{concat3, decimal, decimal_string};

verus! {

/// The public key (32 bytes) that Ed25519 derives from a secret key.
pub uninterp spec fn ed25519_public_key(secret: Seq<u8>) -> Seq<u8>;

/// The Ed25519 signature (64 bytes) of the UTF-8 bytes of `text` under a secret key.
pub uninterp spec fn ed25519_signature(secret: Seq<u8>, text: Seq<char>) -> Seq<u8>;

/// Whether 32 bytes decompress to a point of the curve, that is, form a public key.
pub uninterp spec fn key_decompresses(key: Seq<u8>) -> bool;

/// Whether `sig` is accepted as a signature of the UTF-8 bytes of `text` under `key`.
pub uninterp spec fn signature_accepted(key: Seq<u8>, text: Seq<char>, sig: Seq<u8>) -> bool;

/// Relies on `SigningKey::generate` with `OsRng`: a fresh random secret key of 32 bytes.
#[verifier::external_body]
fn generate_secret_key() -> (r: Vec<u8>)
    ensures
        r@.len() == 32,
{
    SigningKey::generate(&mut OsRng).to_bytes().to_vec()
}

/// Relies on `SigningKey::verifying_key`: the public key of a secret key, in
/// compressed form, which decompresses again.
#[verifier::external_body]
fn derive_public_key(secret: &[u8]) -> (r: Vec<u8>)
    requires
        secret@.len() == 32,
    ensures
        r@ == ed25519_public_key(secret@),
        r@.len() == 32,
        key_decompresses(r@),
{
    let s: [u8; 32] = secret.try_into().unwrap();
    SigningKey::from_bytes(&s).verifying_key().to_bytes().to_vec()
}

/// Relies on `Signer::sign` of `SigningKey`: the deterministic Ed25519
/// signature, which the matching public key accepts.
#[verifier::external_body]
fn sign_text(secret: &[u8], text: &str) -> (r: Vec<u8>)
    requires
        secret@.len() == 32,
    ensures
        r@ == ed25519_signature(secret@, text@),
        r@.len() == 64,
        signature_accepted(ed25519_public_key(secret@), text@, r@),
{
    let s: [u8; 32] = secret.try_into().unwrap();
    SigningKey::from_bytes(&s).sign(text.as_bytes()).to_bytes().to_vec()
}

/// Relies on `VerifyingKey::from_bytes`: whether the bytes form a public key.
#[verifier::external_body]
fn key_is_valid(key: &[u8]) -> (r: bool)
    requires
        key@.len() == 32,
    ensures
        r == key_decompresses(key@),
{
    let k: [u8; 32] = key.try_into().unwrap();
    VerifyingKey::from_bytes(&k).is_ok()
}

/// Relies on `Verifier::verify` of `VerifyingKey`: whether the signature of
/// the text's bytes is accepted under the key.
#[verifier::external_body]
fn signature_is_accepted(key: &[u8], text: &str, sig: &[u8]) -> (r: bool)
    requires
        key@.len() == 32,
        sig@.len() == 64,
        key_decompresses(key@),
    ensures
        r == signature_accepted(key@, text@, sig@),
{
    let k: [u8; 32] = key.try_into().unwrap();
    let s: [u8; 64] = sig.try_into().unwrap();
    match VerifyingKey::from_bytes(&k) {
        Ok(vk) => vk.verify(text.as_bytes(), &Signature::from_bytes(&s)).is_ok(),
        Err(_) => false,
    }
}

/// Relies on `SystemTime::now` and `duration_since(UNIX_EPOCH)`: whole
/// seconds since the epoch, or `None` when the clock is before it.
#[verifier::external_body]
pub(crate) fn unix_time_now() -> (r: Option<u64>) {
    match std::time::SystemTime::now().duration_since(std::time::UNIX_EPOCH) {
        Ok(d) => Some(d.as_secs()),
        Err(_) => None,
    }
}

/// The text that a signature covers: the message, a colon, and the timestamp
/// in decimal.
pub open spec fn signing_payload(message: Seq<char>, timestamp: u64) -> Seq<char> {
    message + seq![':'] + decimal(timestamp as nat)
}

/// Builds the text that a signature covers.
pub fn payload_text(message: &str, timestamp: u64) -> (r: String)
    ensures
        r@ == signing_payload(message@, timestamp),
{
    let d = decimal_string(timestamp);
    let r = concat3(message, ":", d.as_str());
    proof {
        reveal_strlit(":");
        assert(":"@ =~= seq![':']);
    }
    r
}

/// A peer's public identity.
#[derive(Debug)]
pub struct CryptoIdentity {
    pub public_key: Vec<u8>,
    pub peer_id: String,
    pub name: String,
}

/// A message with the signer's signature over its text and timestamp.
#[derive(Debug)]
pub struct SignedMessage {
    pub message: String,
    pub signature: Vec<u8>,
    pub public_key: Vec<u8>,
    pub signer_id: String,
    pub signer_name: String,
    pub timestamp: u64,
}

impl Clone for SignedMessage {
    fn clone(&self) -> (r: Self)
        ensures
            r.message == self.message,
            r.signature@ == self.signature@,
            r.public_key@ == self.public_key@,
            r.signer_id == self.signer_id,
            r.signer_name == self.signer_name,
            r.timestamp == self.timestamp,
    {
        SignedMessage {
            message: self.message.clone(),
            signature: self.signature.clone(),
            public_key: self.public_key.clone(),
            signer_id: self.signer_id.clone(),
            signer_name: self.signer_name.clone(),
            timestamp: self.timestamp,
        }
    }
}

/// The key that checks `m`: the cached key of its signer, else the key it
/// carries when that forms a public key.
pub open spec fn key_for(known: Map<Seq<char>, Seq<u8>>, m: SignedMessage) -> Option<Seq<u8>> {
    if known.contains_key(m.signer_id@) {
        Some(known[m.signer_id@])
    } else if m.public_key@.len() == 32 && key_decompresses(m.public_key@) {
        Some(m.public_key@)
    } else {
        None
    }
}

/// The outcome of verifying `m` against the key cache `known`.
pub open spec fn verify_outcome(known: Map<Seq<char>, Seq<u8>>, m: SignedMessage) -> Result<
    bool,
    CryptoError,
> {
    match key_for(known, m) {
        None => Err(CryptoError::InvalidPublicKey),
        Some(k) => if m.signature@.len() != 64 {
            Err(CryptoError::InvalidSignature)
        } else {
            Ok(signature_accepted(k, signing_payload(m.message@, m.timestamp), m.signature@))
        },
    }
}

/// The key cache after verifying `m`: a signer seen for the first time is
/// cached with the key it carries, when that key is usable.
pub open spec fn keys_after_verify(known: Map<Seq<char>, Seq<u8>>, m: SignedMessage) -> Map<
    Seq<char>,
    Seq<u8>,
> {
    if !known.contains_key(m.signer_id@) && m.public_key@.len() == 32 && key_decompresses(
        m.public_key@,
    ) {
        known.insert(m.signer_id@, m.public_key@)
    } else {
        known
    }
}

/// Whether `now - timestamp`, saturating at zero, is at most `max_age`.
pub open spec fn recent_at(now: u64, timestamp: u64, max_age: u64) -> bool {
    (if now >= timestamp {
        now - timestamp
    } else {
        0
    }) <= max_age
}

/// Whether a message stamped `timestamp` is recent at time `now`.
pub fn is_recent_at(now: u64, timestamp: u64, max_age_seconds: u64) -> (r: bool)
    ensures
        r == recent_at(now, timestamp, max_age_seconds),
{
    now.saturating_sub(timestamp) <= max_age_seconds
}

/// A peer's keypair, identity and the public keys it has learned.
pub struct CryptoManager {
    secret: Vec<u8>,
    public: Vec<u8>,
    known_keys: StrMap<Vec<u8>>,
    identity: CryptoIdentity,
}

impl CryptoManager {
    /// The secret key.
    pub closed spec fn secret_key(&self) -> Seq<u8> {
        self.secret@
    }

    /// The public key.
    pub closed spec fn public_key(&self) -> Seq<u8> {
        self.public@
    }

    /// The identity handed out by `get_identity`.
    pub closed spec fn identity(&self) -> CryptoIdentity {
        self.identity
    }

    /// The cache of peers' public keys, by peer id.
    pub closed spec fn known_keys(&self) -> Map<Seq<char>, Seq<u8>> {
        self.known_keys@.map_values(|k: Vec<u8>| k@)
    }

    /// The keypair belongs together and every cached key is usable.
    pub closed spec fn wf(&self) -> bool {
        &&& self.secret@.len() == 32
        &&& self.public@ == ed25519_public_key(self.secret@)
        &&& self.public@.len() == 32
        &&& key_decompresses(self.public@)
        &&& self.identity.public_key@ == self.public@
        &&& self.known_keys.wf()
        &&& forall|k: Seq<char>| #[trigger]
            self.known_keys@.contains_key(k) ==> {
                &&& self.known_keys@[k]@.len() == 32
                &&& key_decompresses(self.known_keys@[k]@)
            }
    }

    /// The message that `sign_message(text, timestamp)` produces.
    pub open spec fn signs(&self, text: Seq<char>, timestamp: u64, m: SignedMessage) -> bool {
        &&& m.message@ == text
        &&& m.signature@ == ed25519_signature(self.secret_key(), signing_payload(text, timestamp))
        &&& m.signature@.len() == 64
        &&& signature_accepted(self.public_key(), signing_payload(text, timestamp), m.signature@)
        &&& m.public_key@ == self.public_key()
        &&& m.signer_id@ == self.identity().peer_id@
        &&& m.signer_name@ == self.identity().name@
        &&& m.timestamp == timestamp
    }

    /// A manager with a fresh random keypair and an empty key cache.
    pub fn new(peer_id: String, name: String) -> (r: Self)
        ensures
            r.wf(),
            r.identity().peer_id@ == peer_id@,
            r.identity().name@ == name@,
            r.identity().public_key@ == r.public_key(),
            r.known_keys() == Map::<Seq<char>, Seq<u8>>::empty(),
    {
        let secret = generate_secret_key();
        let public = derive_public_key(secret.as_slice());
        let identity = CryptoIdentity { public_key: public.clone(), peer_id, name };
        let r = CryptoManager { secret, public, known_keys: StrMap::new(), identity };
        assert(r.known_keys() =~= Map::<Seq<char>, Seq<u8>>::empty());
        r
    }

    /// The peer's public identity.
    pub fn get_identity(&self) -> (r: &CryptoIdentity)
        requires
            self.wf(),
        ensures
            *r == self.identity(),
            r.public_key@ == self.public_key(),
    {
        &self.identity
    }

    /// The peer's public key.
    pub fn get_public_key(&self) -> (r: Vec<u8>)
        ensures
            r@ == self.public_key(),
    {
        self.public.clone()
    }

    /// Signs `message` together with `timestamp`.
    pub fn sign_message(&self, message: &str, timestamp: u64) -> (r: Result<
        SignedMessage,
        CryptoError,
    >)
        requires
            self.wf(),
        ensures
            r is Ok,
            r matches Ok(m) ==> self.signs(message@, timestamp, m),
    {
        let payload = payload_text(message, timestamp);
        let signature = sign_text(self.secret.as_slice(), payload.as_str());
        Ok(
            SignedMessage {
                message: String::from_str(message),
                signature,
                public_key: self.public.clone(),
                signer_id: self.identity.peer_id.clone(),
                signer_name: self.identity.name.clone(),
                timestamp,
            },
        )
    }

    /// Verifies a signed message. The key comes from the cache when the
    /// signer is known, else from the message, and is then cached.
    pub fn verify_message(&mut self, signed_msg: &SignedMessage) -> (r: Result<bool, CryptoError>)
        requires
            old(self).wf(),
        ensures
            final(self).wf(),
            r == verify_outcome(old(self).known_keys(), *signed_msg),
            final(self).known_keys() == keys_after_verify(old(self).known_keys(), *signed_msg),
            final(self).identity() == old(self).identity(),
            final(self).public_key() == old(self).public_key(),
            final(self).secret_key() == old(self).secret_key(),
    {
        let ghost known = self.known_keys();
        let key: Vec<u8> = match self.known_keys.get(signed_msg.signer_id.as_str()) {
            Some(k) => k.clone(),
            None => {
                if signed_msg.public_key.len() != 32 {
                    return Err(CryptoError::InvalidPublicKey);
                }
                if !key_is_valid(signed_msg.public_key.as_slice()) {
                    return Err(CryptoError::InvalidPublicKey);
                }
                let k = signed_msg.public_key.clone();
                self.known_keys.insert(signed_msg.signer_id.clone(), signed_msg.public_key.clone());
                proof {
                    assert(self.known_keys() =~= known.insert(
                        signed_msg.signer_id@,
                        signed_msg.public_key@,
                    ));
                }
                k
            },
        };
        assert(key@ =~= key_for(known, *signed_msg)->Some_0);
        let payload = payload_text(signed_msg.message.as_str(), signed_msg.timestamp);
        if signed_msg.signature.len() != 64 {
            return Err(CryptoError::InvalidSignature);
        }
        Ok(signature_is_accepted(key.as_slice(), payload.as_str(), signed_msg.signature.as_slice()))
    }

    /// Caches `public_key` for `peer_id`, replacing any earlier key; refuses
    /// bytes that do not form a public key.
    pub fn add_known_peer(&mut self, peer_id: String, public_key: Vec<u8>) -> (r: Result<
        (),
        CryptoError,
    >)
        requires
            old(self).wf(),
        ensures
            final(self).wf(),
            (public_key@.len() == 32 && key_decompresses(public_key@)) ==> r is Ok
                && final(self).known_keys() == old(self).known_keys().insert(
                peer_id@,
                public_key@,
            ),
            !(public_key@.len() == 32 && key_decompresses(public_key@)) ==> r == Err::<
                (),
                CryptoError,
            >(CryptoError::InvalidPublicKey) && final(self).known_keys() == old(self).known_keys(),
            final(self).identity() == old(self).identity(),
            final(self).public_key() == old(self).public_key(),
            final(self).secret_key() == old(self).secret_key(),
    {
        if public_key.len() != 32 {
            return Err(CryptoError::InvalidPublicKey);
        }
        if !key_is_valid(public_key.as_slice()) {
            return Err(CryptoError::InvalidPublicKey);
        }
        let ghost known = self.known_keys();
        self.known_keys.insert(peer_id, public_key);
        proof {
            assert(self.known_keys() =~= known.insert(peer_id@, public_key@));
        }
        Ok(())
    }

    /// Whether `timestamp` is at most `max_age_seconds` old by the clock; a
    /// timestamp in the future counts as recent.
    pub fn is_message_recent(&self, timestamp: u64, max_age_seconds: u64) -> (r: bool)
        ensures
            exists|now: u64| r == #[trigger] recent_at(now, timestamp, max_age_seconds),
    {
        let now = match unix_time_now() {
            Some(t) => t,
            None => 0,
        };
        let r = is_recent_at(now, timestamp, max_age_seconds);
        assert(r == recent_at(now, timestamp, max_age_seconds));
        r
    }

    /// Signs `text` exactly as given, with no timestamp appended.
    pub fn sign_raw(&self, text: &str) -> (r: Vec<u8>)
        requires
            self.wf(),
        ensures
            r@ == ed25519_signature(self.secret_key(), text@),
            r@.len() == 64,
            signature_accepted(self.public_key(), text@, r@),
    {
        sign_text(self.secret.as_slice(), text)
    }

    /// The keypair belongs together: the public key is usable.
    pub proof fn lemma_keypair(&self)
        requires
            self.wf(),
        ensures
            self.public_key().len() == 32,
            key_decompresses(self.public_key()),
            self.identity().public_key@ == self.public_key(),
    {
    }

    /// The number of cached peer keys.
    pub fn known_peers_count(&self) -> (r: usize)
        requires
            self.wf(),
        ensures
            r == self.known_keys().dom().len(),
    {
        assert(self.known_keys().dom() =~= self.known_keys@.dom());
        self.known_keys.len()
    }
}

/// A message that a manager signed verifies as authentic, unless the key
/// cache holds another key for the signer's id.
pub proof fn lemma_sign_then_verify(c: CryptoManager, text: Seq<char>, timestamp: u64, m: SignedMessage)
    requires
        c.wf(),
        c.signs(text, timestamp, m),
        c.known_keys().contains_key(m.signer_id@) ==> c.known_keys()[m.signer_id@]
            == c.public_key(),
    ensures
        verify_outcome(c.known_keys(), m) == Ok::<bool, CryptoError>(true),
{
    c.lemma_keypair();
}

/// The signed text determines the message and the timestamp: changing either
/// changes what the signature must cover.
pub proof fn lemma_payload_injective(m1: Seq<char>, t1: u64, m2: Seq<char>, t2: u64)
    requires
        signing_payload(m1, t1) == signing_payload(m2, t2),
    ensures
        m1 == m2,
        t1 == t2,
{
    let p = signing_payload(m1, t1);
    let d1 = decimal(t1 as nat);
    let d2 = decimal(t2 as nat);
    crate::text::lemma_decimal_digits(t1 as nat);
    crate::text::lemma_decimal_digits(t2 as nat);
    assert(p[m1.len() as int] == ':');
    assert(signing_payload(m2, t2)[m2.len() as int] == ':');
    let q1 = m1 + seq![':'];
    let q2 = m2 + seq![':'];
    assert(p == q1 + d1);
    assert(signing_payload(m2, t2) == q2 + d2);
    assert(p.len() == m1.len() + 1 + d1.len());
    assert(p.len() == m2.len() + 1 + d2.len());
    if m1.len() < m2.len() {
        let k = m2.len() - m1.len() - 1;
        assert((q1 + d1)[m2.len() as int] == d1[k]);
        assert(d1[k] != ':');
        assert(false);
    } else if m2.len() < m1.len() {
        let k = m1.len() - m2.len() - 1;
        assert((q2 + d2)[m1.len() as int] == d2[k]);
        assert(d2[k] != ':');
        assert(false);
    }
    assert(m1 =~= p.subrange(0, m1.len() as int));
    assert(m2 =~= signing_payload(m2, t2).subrange(0, m2.len() as int));
    assert(d1 =~= p.subrange(m1.len() as int + 1, p.len() as int));
    assert(d2 =~= signing_payload(m2, t2).subrange(m2.len() as int + 1, p.len() as int));
    crate::text::lemma_decimal_injective(t1 as nat, t2 as nat);
}

} // verus!
