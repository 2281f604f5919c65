//! Trusted bindings to the cryptographic primitives: Keccak-256 hashing and
//! secp256k1 ECDSA public-key recovery. Both are pure functions of their
//! byte inputs; their results are given names that the verified code
//! reasons with.

use vstd::prelude::*;

verus! {

/// The Keccak-256 digest of `data`: a pure function of the input bytes.
pub uninterp spec fn keccak256_of(data: Seq<u8>) -> Seq<u8>;

/// Relies on `sp_io::hashing::keccak_256`: the Keccak-256 digest depends on
/// the input bytes alone and is always 32 bytes long.
#[verifier::external_body]
pub(crate) fn keccak256(data: &Vec<u8>) -> (r: Vec<u8>)
    ensures
        r@ == keccak256_of(data@),
        r@.len() == 32,
{
    sp_io::hashing::keccak_256(data.as_slice()).to_vec()
}

/// The public key recovered from a 65-byte recoverable ECDSA signature and a
/// 32-byte digest, or `None` when recovery fails: a pure function of the two
/// byte inputs.
pub uninterp spec fn recover_of(sig: Seq<u8>, digest: Seq<u8>) -> Option<Seq<u8>>;

/// Relies on `sp_io::crypto::secp256k1_ecdsa_recover`: public-key recovery
/// over the secp256k1 curve depends on the signature and the digest alone;
/// on success it returns the 64-byte uncompressed public key without the
/// leading format byte, and on a bad signature it returns an error.
#[verifier::external_body]
pub(crate) fn secp256k1_recover(sig: &Vec<u8>, digest: &Vec<u8>) -> (r: Option<Vec<u8>>)
    requires
        sig@.len() == 65,
        digest@.len() == 32,
    ensures
        match r {
            Some(pk) => recover_of(sig@, digest@) == Some(pk@) && pk@.len() == 64,
            None => recover_of(sig@, digest@) is None,
        },
{
    let mut s = [0u8; 65];
    s.copy_from_slice(sig.as_slice());
    let mut d = [0u8; 32];
    d.copy_from_slice(digest.as_slice());
    match sp_io::crypto::secp256k1_ecdsa_recover(&s, &d) {
        Ok(pk) => Some(pk.to_vec()),
        Err(_) => None,
    }
}

} // verus!
