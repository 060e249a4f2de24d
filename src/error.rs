//! The error types of the chat and of its cryptographic layer.
use vstd::prelude::*;

verus! {

/// Errors that can occur during cryptographic operations.
#[derive(Debug)]
pub enum CryptoError {
    InvalidPublicKey,
    InvalidSignature,
    VerificationFailed,
    MessageTooOld,
    Unknown(String),
}

/// Errors of the chat as a whole.
#[derive(Debug)]
pub enum ChatError {
    Network(String),
    Serialization(String),
    Unknown(String),
}

/// The text that describes a cryptographic error.
pub open spec fn crypto_error_text(e: CryptoError) -> Seq<char> {
    match e {
        CryptoError::InvalidPublicKey => "Invalid public key format"@,
        CryptoError::InvalidSignature => "Invalid signature format"@,
        CryptoError::VerificationFailed => "Message verification failed"@,
        CryptoError::MessageTooOld => "Message is too old"@,
        CryptoError::Unknown(s) => "Unknown error: "@ + s@,
    }
}

/// The text that describes a chat error.
pub open spec fn chat_error_text(e: ChatError) -> Seq<char> {
    match e {
        ChatError::Network(s) => "Network error: "@ + s@,
        ChatError::Serialization(s) => "Serialization error: "@ + s@,
        ChatError::Unknown(s) => "Unknown error: "@ + s@,
    }
}

/// A chat error that carries the text of a cryptographic error.
pub open spec fn chat_error_of(e: CryptoError, r: ChatError) -> bool {
    match r {
        ChatError::Unknown(s) => s@ == crypto_error_text(e),
        _ => false,
    }
}

impl CryptoError {
    /// The human-readable description of this error.
    pub fn to_string(&self) -> (r: String)
        ensures
            r@ == crypto_error_text(*self),
    {
        match self {
            CryptoError::InvalidPublicKey => String::from_str("Invalid public key format"),
            CryptoError::InvalidSignature => String::from_str("Invalid signature format"),
            CryptoError::VerificationFailed => String::from_str("Message verification failed"),
            CryptoError::MessageTooOld => String::from_str("Message is too old"),
            CryptoError::Unknown(s) => crate::text::concat2("Unknown error: ", s.as_str()),
        }
    }
}

impl ChatError {
    /// The human-readable description of this error.
    pub fn to_string(&self) -> (r: String)
        ensures
            r@ == chat_error_text(*self),
    {
        match self {
            ChatError::Network(s) => crate::text::concat2("Network error: ", s.as_str()),
            ChatError::Serialization(s) => crate::text::concat2("Serialization error: ", s.as_str()),
            ChatError::Unknown(s) => crate::text::concat2("Unknown error: ", s.as_str()),
        }
    }

    /// The chat error that reports a cryptographic error.
    pub fn from_crypto(e: &CryptoError) -> (r: ChatError)
        ensures
            chat_error_of(*e, r),
    {
        ChatError::Unknown(e.to_string())
    }
}

} // verus!
