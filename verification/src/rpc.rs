//! The read gateway: plain lookup, and a lookup gated behind a signature
//! over an application-chosen challenge message, so that a caller proves
//! control of an address before being told its username.

use vstd::prelude::*;

use crate::address::EthereumAddress;
use crate::hexstr::{hex_decode, hex_decoded, hex_ok, strip_0x, strip_hex_prefix};
use crate::registry::Pallet;
use crate::sigverify::{verify_ethereum_signature, verify_spec};

verus! {

/// The errors that the secure lookup can return.
#[derive(Clone, Copy, Debug, PartialEq, Eq, Structural)]
pub enum RpcError {
    /// The signature is not well-formed hex.
    InvalidSignatureFormat,
    /// The decoded signature is not 65 bytes.
    InvalidSignatureLength,
    /// The signature does not recover to the queried address.
    InvalidSignature,
}

impl RpcError {
    /// The numeric code that the transport reports for this error.
    pub fn code(&self) -> (r: u32)
        ensures
            r == match *self {
                RpcError::InvalidSignatureFormat => 2u32,
                RpcError::InvalidSignatureLength => 2u32,
                RpcError::InvalidSignature => 3u32,
            },
    {
        match self {
            RpcError::InvalidSignatureFormat => 2,
            RpcError::InvalidSignatureLength => 2,
            RpcError::InvalidSignature => 3,
        }
    }
}

/// The read-side handler over one consistent snapshot of the registry.
pub struct UsernameRpc {
    client: Pallet,
}

impl UsernameRpc {
    /// The snapshot this handler reads from.
    pub closed spec fn client(self) -> Pallet {
        self.client
    }

    /// Wraps a registry snapshot.
    pub fn new(client: Pallet) -> (r: UsernameRpc)
        ensures
            r.client() == client,
    {
        UsernameRpc { client }
    }

    /// The username bound to `eth_address` in this snapshot, or `None`.
    pub fn get_username(&self, eth_address: &EthereumAddress) -> (r: Option<Vec<u8>>)
        ensures
            match r {
                Some(u) => self.client().spec_username(eth_address@) == Some(u@),
                None => self.client().spec_username(eth_address@) is None,
            },
    {
        self.client.get_username(eth_address)
    }

    /// Like `get_username`, but only after `signature` (hex, optionally
    /// `"0x"`-prefixed) proves control of `eth_address` by verifying over
    /// the caller-chosen challenge `message`.
    pub fn get_username_secure(
        &self,
        eth_address: &EthereumAddress,
        signature: &Vec<u8>,
        message: &Vec<u8>,
    ) -> (r: Result<Option<Vec<u8>>, RpcError>)
        ensures
            match r {
                Ok(u) => {
                    &&& hex_ok(strip_0x(signature@))
                    &&& hex_decoded(strip_0x(signature@)).len() == 65
                    &&& verify_spec(eth_address@, message@, hex_decoded(strip_0x(signature@)))
                    &&& match u {
                        Some(b) => self.client().spec_username(eth_address@) == Some(b@),
                        None => self.client().spec_username(eth_address@) is None,
                    }
                },
                Err(RpcError::InvalidSignatureFormat) => !hex_ok(strip_0x(signature@)),
                Err(RpcError::InvalidSignatureLength) => hex_ok(strip_0x(signature@))
                    && hex_decoded(strip_0x(signature@)).len() != 65,
                Err(RpcError::InvalidSignature) => {
                    &&& hex_ok(strip_0x(signature@))
                    &&& hex_decoded(strip_0x(signature@)).len() == 65
                    &&& !verify_spec(eth_address@, message@, hex_decoded(strip_0x(signature@)))
                },
            },
    {
        let stripped = strip_hex_prefix(signature);
        let sig_bytes = match hex_decode(&stripped) {
            Some(b) => b,
            None => {
                return Err(RpcError::InvalidSignatureFormat);
            },
        };
        if sig_bytes.len() != 65 {
            return Err(RpcError::InvalidSignatureLength);
        }
        if !verify_ethereum_signature(eth_address, message, &sig_bytes) {
            return Err(RpcError::InvalidSignature);
        }
        Ok(self.get_username(eth_address))
    }
}

} // verus!
