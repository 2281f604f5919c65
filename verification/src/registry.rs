//! The username registry: the authoritative mapping from address to
//! username and from address to nonce, and the signature-checked,
//! replay-protected `set_username` state transition.

use vstd::prelude::*;

use crate::address::EthereumAddress;
use crate::bytes::copy_bytes;
use crate::encoding::{build_reg_message, reg_message};
use crate::sigverify::{verify_ethereum_signature, verify_spec};

verus! {

/// The errors that `set_username` can return. None of them mutates state.
#[derive(Clone, Copy, Debug, PartialEq, Eq, Structural)]
pub enum Error {
    /// The username exceeds the configured maximum length.
    UsernameTooLong,
    /// The username holds a byte outside `[A-Za-z0-9_]`.
    InvalidUsername,
    /// The supplied nonce is not the address's current nonce.
    InvalidNonce,
    /// The Ethereum signature does not recover to the claimed address.
    InvalidEthereumSignature,
}

/// The observable events that the registry emits.
pub enum Event {
    /// A username was bound to an address.
    UsernameSet { eth_address: EthereumAddress, username: Vec<u8> },
}

/// The address that an event speaks of.
pub open spec fn event_addr(e: Event) -> Seq<u8> {
    match e {
        Event::UsernameSet { eth_address, .. } => eth_address@,
    }
}

/// The username that an event speaks of.
pub open spec fn event_username(e: Event) -> Seq<u8> {
    match e {
        Event::UsernameSet { username, .. } => username@,
    }
}

/// A byte is allowed in a username iff it is ASCII alphanumeric or `_`.
pub open spec fn username_byte_ok(b: u8) -> bool {
    (65 <= b && b <= 90)  // 'A'..'Z'
     || (97 <= b && b <= 122)  // 'a'..'z'
     || (48 <= b && b <= 57)  // '0'..'9'
     || b == 95  // '_'

}

/// Every byte of the sequence is allowed in a username.
pub open spec fn username_ok(s: Seq<u8>) -> bool {
    forall|i: int| 0 <= i < s.len() ==> username_byte_ok(s[i])
}

/// Checks that every byte of `s` is ASCII alphanumeric or `_`.
pub fn is_valid_username(s: &Vec<u8>) -> (r: bool)
    ensures
        r == username_ok(s@),
{
    let mut i: usize = 0;
    while i < s.len()
        invariant
            0 <= i <= s@.len(),
            forall|j: int| 0 <= j < i ==> username_byte_ok(s@[j]),
        decreases s@.len() - i,
    {
        let b = s[i];
        let ok = (65 <= b && b <= 90) || (97 <= b && b <= 122) || (48 <= b && b <= 57) || b == 95;
        if !ok {
            return false;
        }
        i = i + 1;
    }
    true
}

/// One committed registration: the address, the nonce value stored after
/// the commit, and the username bound by it.
struct Record {
    addr: EthereumAddress,
    nonce: u64,
    username: Vec<u8>,
}

/// The registry. Committed registrations are kept as an append-only
/// journal; the maps that the operations speak of are read off it, latest
/// entry per address winning.
pub struct Pallet {
    max_username_length: usize,
    log: Vec<Record>,
    events: Vec<Event>,
}

impl Pallet {
    /// The map that a journal denotes: each address goes to the nonce and
    /// username of its latest entry.
    spec fn log_map(s: Seq<Record>) -> Map<Seq<u8>, (u64, Seq<u8>)>
        decreases s.len(),
    {
        if s.len() == 0 {
            Map::empty()
        } else {
            Self::log_map(s.drop_last()).insert(
                s.last().addr@,
                (s.last().nonce, s.last().username@),
            )
        }
    }

    /// The current nonce of `addr`: 0 until its first registration.
    pub closed spec fn spec_nonce(self, addr: Seq<u8>) -> u64 {
        if Self::log_map(self.log@).dom().contains(addr) {
            Self::log_map(self.log@)[addr].0
        } else {
            0
        }
    }

    /// The username currently bound to `addr`, if any.
    pub closed spec fn spec_username(self, addr: Seq<u8>) -> Option<Seq<u8>> {
        if Self::log_map(self.log@).dom().contains(addr) {
            Some(Self::log_map(self.log@)[addr].1)
        } else {
            None
        }
    }

    /// The configured maximum username length.
    pub closed spec fn spec_max_username_length(self) -> usize {
        self.max_username_length
    }

    /// The events emitted so far, oldest first.
    pub closed spec fn spec_events(self) -> Seq<Event> {
        self.events@
    }

    /// The error that a `set_username` call returns from this state, or
    /// `None` when it succeeds. The checks run in this order: nonce,
    /// length, alphabet, signature. A nonce at the counter's maximum is
    /// rejected as invalid, so a successful registration can always store
    /// its successor.
    pub open spec fn register_error(
        self,
        addr: Seq<u8>,
        username: Seq<u8>,
        nonce: u64,
        sig: Seq<u8>,
    ) -> Option<Error> {
        if nonce != self.spec_nonce(addr) || nonce == u64::MAX {
            Some(Error::InvalidNonce)
        } else if username.len() > self.spec_max_username_length() {
            Some(Error::UsernameTooLong)
        } else if !username_ok(username) {
            Some(Error::InvalidUsername)
        } else if !verify_spec(addr, reg_message(username, nonce), sig) {
            Some(Error::InvalidEthereumSignature)
        } else {
            None
        }
    }

    /// An empty registry that accepts usernames of at most
    /// `max_username_length` bytes.
    pub fn new(max_username_length: usize) -> (p: Pallet)
        ensures
            forall|a: Seq<u8>| p.spec_nonce(a) == 0,
            forall|a: Seq<u8>| p.spec_username(a) is None,
            p.spec_max_username_length() == max_username_length,
            p.spec_events() == Seq::<Event>::empty(),
    {
        let p = Pallet { max_username_length, log: Vec::new(), events: Vec::new() };
        proof {
            assert(p.events@ =~= Seq::<Event>::empty());
        }
        p
    }

    /// The events emitted so far, oldest first. Pure read.
    pub fn events(&self) -> (r: &Vec<Event>)
        ensures
            r@ == self.spec_events(),
    {
        &self.events
    }

    /// The index of the latest journal entry for `addr`, if any.
    fn find_last(&self, addr: &EthereumAddress) -> (r: Option<usize>)
        ensures
            match r {
                Some(i) => {
                    &&& i < self.log@.len()
                    &&& Self::log_map(self.log@).dom().contains(addr@)
                    &&& Self::log_map(self.log@)[addr@] == (
                        self.log@[i as int].nonce,
                        self.log@[i as int].username@,
                    )
                },
                None => !Self::log_map(self.log@).dom().contains(addr@),
            },
    {
        let ghost whole = self.log@;
        let mut i: usize = self.log.len();
        proof {
            assert(whole.take(whole.len() as int) =~= whole);
        }
        while i > 0
            invariant
                0 <= i <= self.log@.len(),
                Self::log_map(self.log@).dom().contains(addr@) == Self::log_map(
                    self.log@.take(i as int),
                ).dom().contains(addr@),
                Self::log_map(self.log@).dom().contains(addr@) ==> Self::log_map(self.log@)[addr@]
                    == Self::log_map(self.log@.take(i as int))[addr@],
            decreases i,
        {
            proof {
                assert(self.log@.take(i as int).drop_last() =~= self.log@.take(i - 1));
                assert(self.log@.take(i as int).last() == self.log@[i - 1]);
            }
            if self.log[i - 1].addr == *addr {
                return Some(i - 1);
            }
            i = i - 1;
        }
        None
    }

    /// The current nonce for `eth_address`: 0 for a never-registered
    /// address. Pure read.
    pub fn get_nonce(&self, eth_address: &EthereumAddress) -> (r: u64)
        ensures
            r == self.spec_nonce(eth_address@),
    {
        match self.find_last(eth_address) {
            Some(i) => self.log[i].nonce,
            None => 0,
        }
    }

    /// The username currently bound to `eth_address`, or `None`. Pure read.
    pub fn get_username(&self, eth_address: &EthereumAddress) -> (r: Option<Vec<u8>>)
        ensures
            match r {
                Some(u) => self.spec_username(eth_address@) == Some(u@),
                None => self.spec_username(eth_address@) is None,
            },
    {
        match self.find_last(eth_address) {
            Some(i) => Some(copy_bytes(&self.log[i].username)),
            None => None,
        }
    }

    /// Verifies an Ethereum-style signature over `message` against
    /// `eth_address`. Pure; reads no registry state.
    pub fn verify_ethereum_signature(
        eth_address: &EthereumAddress,
        message: &Vec<u8>,
        signature: &Vec<u8>,
    ) -> (r: bool)
        ensures
            r == verify_spec(eth_address@, message@, signature@),
    {
        crate::sigverify::verify_ethereum_signature(eth_address, message, signature)
    }

    /// Binds `username` to `eth_address`, provided the supplied nonce is
    /// the address's current one, the username is within bounds and over
    /// the allowed alphabet, and `eth_signature` is a valid Ethereum-style
    /// signature over the canonical registration message by the key behind
    /// `eth_address`. On success the nonce advances by exactly one and a
    /// `UsernameSet` event is emitted; on any error nothing changes.
    pub fn set_username(
        &mut self,
        eth_address: &EthereumAddress,
        username: Vec<u8>,
        nonce: u64,
        eth_signature: &Vec<u8>,
    ) -> (r: Result<(), Error>)
        ensures
            match r {
                Ok(()) => {
                    &&& old(self).register_error(eth_address@, username@, nonce, eth_signature@)
                        is None
                    &&& final(self).spec_nonce(eth_address@) == nonce + 1
                    &&& final(self).spec_username(eth_address@) == Some(username@)
                    &&& forall|a: Seq<u8>|
                        a != eth_address@ ==> final(self).spec_nonce(a) == old(self).spec_nonce(a)
                    &&& forall|a: Seq<u8>|
                        a != eth_address@ ==> final(self).spec_username(a) == old(
                            self,
                        ).spec_username(a)
                    &&& final(self).spec_max_username_length() == old(
                        self,
                    ).spec_max_username_length()
                    &&& final(self).spec_events().len() == old(self).spec_events().len() + 1
                    &&& forall|i: int|
                        0 <= i < old(self).spec_events().len() ==> final(self).spec_events()[i]
                            == old(self).spec_events()[i]
                    &&& event_addr(final(self).spec_events().last()) == eth_address@
                    &&& event_username(final(self).spec_events().last()) == username@
                },
                Err(e) => {
                    &&& Some(e) == old(self).register_error(
                        eth_address@,
                        username@,
                        nonce,
                        eth_signature@,
                    )
                    &&& *final(self) == *old(self)
                },
            },
    {
        let expected_nonce = self.get_nonce(eth_address);
        if nonce != expected_nonce || nonce == u64::MAX {
            return Err(Error::InvalidNonce);
        }
        if username.len() > self.max_username_length {
            return Err(Error::UsernameTooLong);
        }
        if !is_valid_username(&username) {
            return Err(Error::InvalidUsername);
        }
        let message = build_reg_message(&username, nonce);
        if !verify_ethereum_signature(eth_address, &message, eth_signature) {
            return Err(Error::InvalidEthereumSignature);
        }
        let ghost old_log = self.log@;
        let record = Record {
            addr: eth_address.clone(),
            nonce: nonce + 1,
            username: copy_bytes(&username),
        };
        self.log.push(record);
        self.events.push(Event::UsernameSet { eth_address: eth_address.clone(), username });
        proof {
            assert(self.log@.drop_last() =~= old_log);
            assert(Self::log_map(self.log@) == Self::log_map(old_log).insert(
                self.log@.last().addr@,
                (self.log@.last().nonce, self.log@.last().username@),
            ));
        }
        Ok(())
    }
}

} // verus!
