//! A peer for a decentralised LAN chat: identities and message signatures,
//! the peer registry, the wire messages and their handling, and the vote
//! that switches the network to signed-only messages.
pub mod text;
pub mod error;
pub mod strmap;
pub mod peer;
pub mod crypto;
pub mod threshold;
pub mod display;
pub mod discovery;
pub mod chat;
pub mod command;
