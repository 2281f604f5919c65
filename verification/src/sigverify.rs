//! Ethereum-compatible signature verification: canonicalize the message,
//! hash it, recover the public key from the 65-byte recoverable signature,
//! derive the candidate address and compare it to the claimed one.

use vstd::prelude::*;

use crate::address::EthereumAddress;
use crate::bytes::copy_tail;
use crate::crypto::{keccak256, keccak256_of, recover_of, secp256k1_recover};
use crate::encoding::{build_eth_payload, eth_payload};

verus! {

/// The recovery id that byte 64 of a signature normalizes to: values 27-30
/// map to 0-3, values 0-3 stand as they are, anything else is invalid.
pub open spec fn normalized_rec_id(v: u8) -> Option<u8> {
    if 27 <= v && v <= 30 {
        Some((v - 27) as u8)
    } else if v <= 3 {
        Some(v)
    } else {
        None
    }
}

/// The Keccak-256 digest of the canonical signed-message payload for `msg`.
pub open spec fn eth_digest(msg: Seq<u8>) -> Seq<u8> {
    keccak256_of(eth_payload(msg))
}

/// The address that a recovered 64-byte public key stands for: the last 20
/// bytes of its Keccak-256 hash.
pub open spec fn addr_of_pubkey(pk: Seq<u8>) -> Seq<u8> {
    keccak256_of(pk).skip(12)
}

/// Signature verification succeeds: the signature is 65 bytes, its recovery
/// id normalizes, public-key recovery over the canonical digest succeeds,
/// and the recovered key's address equals the claimed one.
pub open spec fn verify_spec(addr: Seq<u8>, msg: Seq<u8>, sig: Seq<u8>) -> bool {
    &&& sig.len() == 65
    &&& match normalized_rec_id(sig[64]) {
        Some(rid) => match recover_of(sig.update(64, rid), eth_digest(msg)) {
            Some(pk) => addr_of_pubkey(pk) == addr,
            None => false,
        },
        None => false,
    }
}

/// Verifies an Ethereum-style signature over `message` against the claimed
/// `eth_address`. Pure: no state is read or written.
pub fn verify_ethereum_signature(
    eth_address: &EthereumAddress,
    message: &Vec<u8>,
    signature: &Vec<u8>,
) -> (r: bool)
    ensures
        r == verify_spec(eth_address@, message@, signature@),
{
    if signature.len() != 65 {
        return false;
    }
    let v = signature[64];
    let rid: u8 = if 27 <= v && v <= 30 {
        v - 27
    } else if v <= 3 {
        v
    } else {
        return false;
    };
    // Rebuild the signature with the recovery id in normalized form.
    let mut sig_norm = copy_tail(signature, 0);
    let _ = sig_norm.pop();
    sig_norm.push(rid);
    proof {
        assert(signature@.skip(0) =~= signature@);
        assert(sig_norm@ =~= signature@.update(64, rid));
    }
    let payload = build_eth_payload(message);
    let digest = keccak256(&payload);
    match secp256k1_recover(&sig_norm, &digest) {
        Some(pk) => {
            let pk_hash = keccak256(&pk);
            let candidate = copy_tail(&pk_hash, 12);
            let addr_bytes = eth_address.as_bytes();
            let mut i: usize = 0;
            while i < 20
                invariant
                    0 <= i <= 20,
                    candidate@.len() == 20,
                    addr_bytes@.len() == 20,
                    candidate@ == addr_of_pubkey(pk@),
                    addr_bytes@ == eth_address@,
                    verify_spec(eth_address@, message@, signature@) == (addr_of_pubkey(pk@)
                        == eth_address@),
                    forall|j: int| 0 <= j < i ==> candidate@[j] == addr_bytes@[j],
                decreases 20 - i,
            {
                if candidate[i] != addr_bytes[i] {
                    proof {
                        assert(addr_of_pubkey(pk@)[i as int] != eth_address@[i as int]);
                        assert(addr_of_pubkey(pk@) != eth_address@);
                    }
                    return false;
                }
                i = i + 1;
            }
            proof {
                assert(candidate@ =~= eth_address@);
            }
            true
        },
        None => false,
    }
}

} // verus!
