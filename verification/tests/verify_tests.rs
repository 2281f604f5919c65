//! Signature verification against signatures produced by a real
//! secp256k1 signer.

use sp_core::Pair as _;
use username_registry::address::EthereumAddress;
use username_registry::registry::Pallet;

fn keccak(data: &[u8]) -> [u8; 32] {
    sp_io::hashing::keccak_256(data)
}

fn eth_digest(msg: &[u8]) -> [u8; 32] {
    let prefix = format!("\x19Ethereum Signed Message:\n{}", msg.len());
    let mut payload = prefix.into_bytes();
    payload.extend_from_slice(msg);
    keccak(&payload)
}

fn pair(seed_byte: u8) -> sp_core::ecdsa::Pair {
    sp_core::ecdsa::Pair::from_seed(&[seed_byte; 32])
}

/// A 65-byte signature over `msg` with the recovery id in Ethereum form
/// (27..=30).
fn sign_eth(seed_byte: u8, msg: &[u8]) -> Vec<u8> {
    let sig = pair(seed_byte).sign_prehashed(&eth_digest(msg));
    let mut bytes = sig.0.to_vec();
    if bytes[64] < 27 {
        bytes[64] += 27;
    }
    bytes
}

/// The address of the key behind `seed_byte`: the last 20 bytes of the
/// Keccak-256 hash of the recovered 64-byte public key.
fn address_for(seed_byte: u8) -> EthereumAddress {
    let msg = b"probe";
    let digest = eth_digest(msg);
    let sig = pair(seed_byte).sign_prehashed(&digest);
    let mut raw = sig.0;
    if raw[64] >= 27 {
        raw[64] -= 27;
    }
    let pk = sp_io::crypto::secp256k1_ecdsa_recover(&raw, &digest).unwrap_or_else(|_| panic!("recovery failed"));
    let h = keccak(&pk);
    EthereumAddress::from_bytes(h[12..32].to_vec()).expect("20 bytes")
}

#[test]
fn valid_signature_verifies() {
    let msg = b"set_username:alice_01:0".to_vec();
    let sig = sign_eth(1, &msg);
    let addr = address_for(1);
    assert!(Pallet::verify_ethereum_signature(&addr, &msg, &sig));
}

#[test]
fn substrate_form_recovery_id_verifies() {
    let msg = b"hello world".to_vec();
    let mut sig = sign_eth(2, &msg);
    // Put the recovery id back in raw 0..=3 form; both forms are accepted.
    sig[64] -= 27;
    let addr = address_for(2);
    assert!(Pallet::verify_ethereum_signature(&addr, &msg, &sig));
}

#[test]
fn bit_flip_in_message_fails() {
    let msg = b"set_username:alice_01:0".to_vec();
    let sig = sign_eth(1, &msg);
    let addr = address_for(1);
    for byte in 0..msg.len() {
        for bit in 0..8 {
            let mut flipped = msg.clone();
            flipped[byte] ^= 1 << bit;
            assert!(!Pallet::verify_ethereum_signature(&addr, &flipped, &sig));
        }
    }
}

#[test]
fn wrong_length_signature_fails() {
    let msg = b"anything".to_vec();
    let addr = address_for(1);
    let mut sig = sign_eth(1, &msg);
    sig.pop();
    assert_eq!(sig.len(), 64);
    assert!(!Pallet::verify_ethereum_signature(&addr, &msg, &sig));
    let empty: Vec<u8> = Vec::new();
    assert!(!Pallet::verify_ethereum_signature(&addr, &msg, &empty));
    let mut long = sign_eth(1, &msg);
    long.push(0);
    assert!(!Pallet::verify_ethereum_signature(&addr, &msg, &long));
}

#[test]
fn out_of_range_recovery_id_fails() {
    let msg = b"anything".to_vec();
    let addr = address_for(1);
    for v in [4u8, 26, 31, 99, 255] {
        let mut sig = sign_eth(1, &msg);
        sig[64] = v;
        assert!(!Pallet::verify_ethereum_signature(&addr, &msg, &sig));
    }
}

#[test]
fn wrong_address_fails() {
    let msg = b"set_username:alice_01:0".to_vec();
    let sig = sign_eth(1, &msg);
    let other = address_for(2);
    assert!(!Pallet::verify_ethereum_signature(&other, &msg, &sig));
}

#[test]
fn address_needs_twenty_bytes() {
    assert!(EthereumAddress::from_bytes(vec![0u8; 19]).is_none());
    assert!(EthereumAddress::from_bytes(vec![0u8; 21]).is_none());
    assert!(EthereumAddress::from_bytes(vec![0xAA; 20]).is_some());
}
