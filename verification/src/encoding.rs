//! Canonical byte encodings shared by the signer and the verifier: decimal
//! ASCII rendering of counters and lengths, the Ethereum signed-message
//! prefix, and the registration message format.

use vstd::prelude::*;

use crate::bytes::append_bytes;

verus! {

/// The decimal ASCII digits of `n`, most significant digit first, with no
/// leading zeros (`0` itself is rendered as the single digit `0`).
pub open spec fn dec_of(n: nat) -> Seq<u8>
    decreases n,
{
    if n < 10 {
        seq![(48 + n) as u8]
    } else {
        dec_of(n / 10).push((48 + n % 10) as u8)
    }
}

/// Renders `n` in decimal ASCII.
pub fn u64_to_dec(n: u64) -> (r: Vec<u8>)
    ensures
        r@ == dec_of(n as nat),
    decreases n,
{
    if n < 10 {
        let mut v: Vec<u8> = Vec::new();
        v.push(48 + n as u8);
        proof {
            assert(v@ =~= dec_of(n as nat));
        }
        v
    } else {
        proof {
            assert(n / 10 < n) by (nonlinear_arith)
                requires
                    n >= 10,
            ;
        }
        let mut v = u64_to_dec(n / 10);
        v.push(48 + (n % 10) as u8);
        proof {
            assert(v@ =~= dec_of(n as nat));
        }
        v
    }
}

/// The bytes of `"\x19Ethereum Signed Message:\n"`, the fixed part of the
/// Ethereum signed-message domain separator.
pub open spec fn eth_prefix() -> Seq<u8> {
    seq![
        0x19u8,
        69u8,
        116u8,
        104u8,
        101u8,
        114u8,
        101u8,
        117u8,
        109u8,
        32u8,
        83u8,
        105u8,
        103u8,
        110u8,
        101u8,
        100u8,
        32u8,
        77u8,
        101u8,
        115u8,
        115u8,
        97u8,
        103u8,
        101u8,
        58u8,
        10u8,
    ]
}

/// Builds the fixed part of the Ethereum signed-message prefix.
pub fn eth_prefix_bytes() -> (r: Vec<u8>)
    ensures
        r@ == eth_prefix(),
{
    let mut v: Vec<u8> = Vec::new();
    v.push(0x19);
    v.push(69);
    v.push(116);
    v.push(104);
    v.push(101);
    v.push(114);
    v.push(101);
    v.push(117);
    v.push(109);
    v.push(32);
    v.push(83);
    v.push(105);
    v.push(103);
    v.push(110);
    v.push(101);
    v.push(100);
    v.push(32);
    v.push(77);
    v.push(101);
    v.push(115);
    v.push(115);
    v.push(97);
    v.push(103);
    v.push(101);
    v.push(58);
    v.push(10);
    proof {
        assert(v@ =~= eth_prefix());
    }
    v
}

/// The canonical signing payload for `msg`:
/// `"\x19Ethereum Signed Message:\n" + decimal(len(msg)) + msg`.
pub open spec fn eth_payload(msg: Seq<u8>) -> Seq<u8> {
    eth_prefix() + dec_of(msg.len()) + msg
}

/// Builds the canonical signing payload for `msg`.
pub fn build_eth_payload(msg: &Vec<u8>) -> (r: Vec<u8>)
    ensures
        r@ == eth_payload(msg@),
{
    let mut v = eth_prefix_bytes();
    let len_dec = u64_to_dec(msg.len() as u64);
    append_bytes(&mut v, &len_dec);
    append_bytes(&mut v, msg);
    proof {
        assert(v@ =~= eth_payload(msg@));
    }
    v
}

/// The bytes of `"set_username:"`, the fixed part of the registration
/// message.
pub open spec fn reg_prefix() -> Seq<u8> {
    seq![115u8, 101u8, 116u8, 95u8, 117u8, 115u8, 101u8, 114u8, 110u8, 97u8, 109u8, 101u8, 58u8]
}

/// The registration message that a signer commits to:
/// `"set_username:" + username + ":" + decimal(nonce)`.
pub open spec fn reg_message(username: Seq<u8>, nonce: u64) -> Seq<u8> {
    reg_prefix() + username + seq![58u8] + dec_of(nonce as nat)
}

/// Builds the registration message for `username` and `nonce`.
pub fn build_reg_message(username: &Vec<u8>, nonce: u64) -> (r: Vec<u8>)
    ensures
        r@ == reg_message(username@, nonce),
{
    let mut v: Vec<u8> = Vec::new();
    v.push(115);
    v.push(101);
    v.push(116);
    v.push(95);
    v.push(117);
    v.push(115);
    v.push(101);
    v.push(114);
    v.push(110);
    v.push(97);
    v.push(109);
    v.push(101);
    v.push(58);
    proof {
        assert(v@ =~= reg_prefix());
    }
    append_bytes(&mut v, username);
    v.push(58);
    let nonce_dec = u64_to_dec(nonce);
    append_bytes(&mut v, &nonce_dec);
    proof {
        assert(v@ =~= reg_message(username@, nonce));
    }
    v
}

} // verus!
