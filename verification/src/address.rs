//! The 20-byte Ethereum-style address that keys the registry.

use vstd::prelude::*;

verus! {

/// A 20-byte Ethereum-style address: the last 20 bytes of the Keccak-256
/// hash of the holder's uncompressed public key.
pub struct EthereumAddress {
    bytes: Vec<u8>,
}

impl View for EthereumAddress {
    type V = Seq<u8>;

    closed spec fn view(&self) -> Seq<u8> {
        self.bytes@
    }
}

impl EthereumAddress {
    #[verifier::type_invariant]
    spec fn wf(self) -> bool {
        self.bytes@.len() == 20
    }

    /// Wraps `bytes` as an address; rejects any length other than 20.
    pub fn from_bytes(bytes: Vec<u8>) -> (r: Option<EthereumAddress>)
        ensures
            match r {
                Some(a) => bytes@.len() == 20 && a@ == bytes@,
                None => bytes@.len() != 20,
            },
    {
        if bytes.len() == 20 {
            Some(EthereumAddress { bytes })
        } else {
            None
        }
    }

    /// The raw 20 bytes of the address.
    pub fn as_bytes(&self) -> (r: &Vec<u8>)
        ensures
            r@ == self@,
            r@.len() == 20,
    {
        proof {
            use_type_invariant(self);
        }
        &self.bytes
    }
}

impl Clone for EthereumAddress {
    /// The clone holds the same 20 bytes.
    fn clone(&self) -> (r: Self)
        ensures
            r@ == self@,
    {
        proof {
            use_type_invariant(self);
        }
        let copied = crate::bytes::copy_bytes(&self.bytes);
        EthereumAddress { bytes: copied }
    }
}

impl PartialEq for EthereumAddress {
    /// Two addresses are equal iff all 20 bytes agree.
    fn eq(&self, other: &Self) -> (r: bool) {
        proof {
            use_type_invariant(self);
            use_type_invariant(other);
        }
        let mut i: usize = 0;
        while i < 20
            invariant
                0 <= i <= 20,
                self@.len() == 20,
                other@.len() == 20,
                forall|j: int| 0 <= j < i ==> self@[j] == other@[j],
            decreases 20 - i,
        {
            if self.bytes[i] != other.bytes[i] {
                return false;
            }
            i = i + 1;
        }
        proof {
            assert(self@ =~= other@);
        }
        true
    }
}

impl vstd::std_specs::cmp::PartialEqSpecImpl for EthereumAddress {
    open spec fn obeys_eq_spec() -> bool {
        true
    }

    open spec fn eq_spec(&self, other: &Self) -> bool {
        self@ == other@
    }
}

} // verus!
