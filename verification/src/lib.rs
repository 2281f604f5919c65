//! A signature-verified, replay-protected username registry.
//!
//! A user binds a human-readable username to an Ethereum-style 20-byte
//! address by presenting a recoverable ECDSA signature over a
//! nonce-tagged canonical message. Anyone can later look the username
//! up, optionally proving control of the address first through a
//! signature over a fresh challenge message.

pub mod address;
pub mod bytes;
pub mod crypto;
pub mod encoding;
pub mod hexstr;
pub mod laws;
pub mod registry;
pub mod rpc;
pub mod sigverify;
