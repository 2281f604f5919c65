//! Laws of the protocol, stated and proved over the same spec functions
//! that the executable functions' contracts use.

use vstd::prelude::*;

use crate::address::EthereumAddress;
use crate::crypto::recover_of;
use crate::registry::{username_ok, Error, Pallet};
use crate::sigverify::{addr_of_pubkey, eth_digest, normalized_rec_id, verify_spec};

verus! {

/// Verification is complete: a 65-byte signature whose recovery id
/// normalizes and whose recovered key is the key behind the claimed
/// address always verifies. That an honest signer's signature recovers to
/// its own key is a fact of ECDSA, outside what these specs state.
pub proof fn lemma_matching_signature_accepted(
    addr: Seq<u8>,
    msg: Seq<u8>,
    sig: Seq<u8>,
    rid: u8,
    pk: Seq<u8>,
)
    requires
        sig.len() == 65,
        normalized_rec_id(sig[64]) == Some(rid),
        recover_of(sig.update(64, rid), eth_digest(msg)) == Some(pk),
        addr_of_pubkey(pk) == addr,
    ensures
        verify_spec(addr, msg, sig),
{
}

/// A signature whose length is not 65 bytes never verifies, whatever the
/// address and the message: the length check rejects it before any
/// cryptographic work.
pub proof fn lemma_wrong_length_signature_rejected(addr: Seq<u8>, msg: Seq<u8>, sig: Seq<u8>)
    requires
        sig.len() != 65,
    ensures
        !verify_spec(addr, msg, sig),
{
}

/// A registration only ever succeeds with the address's current nonce:
/// replaying an old nonce, or skipping ahead, cannot succeed.
pub proof fn lemma_register_needs_current_nonce(
    p: Pallet,
    addr: Seq<u8>,
    username: Seq<u8>,
    nonce: u64,
    sig: Seq<u8>,
)
    requires
        p.register_error(addr, username, nonce, sig) is None,
    ensures
        nonce == p.spec_nonce(addr),
{
}

/// Replay protection: once a state records nonce `n + 1` for an address —
/// as it does right after a registration with nonce `n` succeeded — any
/// further registration carrying nonce `n` fails with `InvalidNonce`,
/// whatever its username and signature.
pub proof fn lemma_replay_rejected(
    p_after: Pallet,
    addr: Seq<u8>,
    n: u64,
    username: Seq<u8>,
    sig: Seq<u8>,
)
    requires
        p_after.spec_nonce(addr) == n + 1,
    ensures
        p_after.register_error(addr, username, n, sig) == Some(Error::InvalidNonce),
{
}

/// Reads are idempotent: two `get_username` calls on the same state with
/// no registration in between return the same bytes — any two results the
/// contract admits for the same state and address agree.
pub proof fn lemma_lookup_idempotent(
    p: Pallet,
    a: EthereumAddress,
    r1: Option<Vec<u8>>,
    r2: Option<Vec<u8>>,
)
    requires
        call_ensures(Pallet::get_username, (&p, &a), r1),
        call_ensures(Pallet::get_username, (&p, &a), r2),
    ensures
        (r1 is Some) == (r2 is Some),
        r1 matches Some(v1) ==> r2 matches Some(v2) && v1@ == v2@,
{
}

/// A username holding a byte outside `[A-Za-z0-9_]` is rejected with
/// `InvalidUsername` whenever the nonce and length checks ahead of it
/// pass; `set_username`'s contract adds that no state changes on any
/// error.
pub proof fn lemma_invalid_username_rejected(
    p: Pallet,
    addr: Seq<u8>,
    username: Seq<u8>,
    nonce: u64,
    sig: Seq<u8>,
)
    requires
        nonce == p.spec_nonce(addr),
        nonce != u64::MAX,
        username.len() <= p.spec_max_username_length(),
        !username_ok(username),
    ensures
        p.register_error(addr, username, nonce, sig) == Some(Error::InvalidUsername),
{
}

} // verus!
