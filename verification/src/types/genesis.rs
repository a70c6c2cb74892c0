//! The genesis of a chain and the committee that starts it.

use vstd::prelude::*;

use crate::types::PublicKey;

verus! {

/// What the genesis file says of the chain and of its consensus.
#[derive(Clone, Debug, PartialEq, Eq)]
pub struct Genesis {
    /// Hash of the genesis block of the execution client, in hexadecimal digits.
    pub eth_genesis_hash: String,
    /// Public polynomial of the threshold key, in hexadecimal digits.
    pub identity: String,
    pub leader_timeout_ms: u64,
    pub notarization_timeout_ms: u64,
    pub nullify_timeout_ms: u64,
    pub activity_timeout_views: u64,
    pub skip_timeout_views: u64,
    pub namespace: String,
}

/// An address of the Internet protocol.
#[derive(Clone, Copy, Debug, PartialEq, Eq)]
pub enum IpAddr {
    V4([u8; 4]),
    V6([u8; 16]),
}

/// An address and a port on it.
#[derive(Clone, Copy, Debug, PartialEq, Eq)]
pub struct SocketAddr {
    pub ip: IpAddr,
    pub port: u16,
}

/// The validators that the genesis file lists, each with its address.
#[derive(Clone, Debug, PartialEq, Eq)]
pub struct GenesisCommittee {
    pub validators: Vec<(PublicKey, SocketAddr)>,
}

impl GenesisCommittee {
    /// The keys of the validators.
    pub open spec fn keys(self) -> Seq<PublicKey> {
        self.validators@.map_values(|validator: (PublicKey, SocketAddr)| validator.0)
    }

    /// The address of the first validator with the given key.
    pub open spec fn address_of(self, key: PublicKey) -> Option<SocketAddr> {
        match self.keys().index_of_first(key) {
            Some(place) => Some(self.validators@[place].1),
            None => None,
        }
    }

    /// Lists the keys of the validators.
    pub fn peers(&self) -> (peers: Vec<PublicKey>)
        ensures
            peers@ == self.keys(),
    {
        let mut peers: Vec<PublicKey> = Vec::new();
        let mut i: usize = 0;
        while i < self.validators.len()
            invariant
                i <= self.validators@.len(),
                peers@ == self.keys().take(i as int),
            decreases self.validators@.len() - i,
        {
            peers.push(self.validators[i].0);
            i = i + 1;
        }
        peers
    }

    /// Finds the address of the validator with the given key.
    pub fn ip_of(&self, key: &PublicKey) -> (address: Option<SocketAddr>)
        ensures
            address == self.address_of(*key),
    {
        proof {
            self.keys().index_of_first_ensures(*key);
        }
        let mut i: usize = 0;
        while i < self.validators.len()
            invariant
                i <= self.validators@.len(),
                forall|j: int| 0 <= j < i ==> self.keys()[j] != *key,
            decreases self.validators@.len() - i,
        {
            if self.validators[i].0.equals(key) {
                proof {
                    self.keys().index_of_first_ensures(*key);
                    assert(self.keys()[i as int] == *key);
                    assert(self.keys().contains(*key));
                }
                return Some(self.validators[i].1);
            }
            i = i + 1;
        }
        None
    }
}

/// The keys of a committee are those of its validators, in their places.
pub proof fn law_keys_are_in_place(committee: GenesisCommittee, i: int)
    requires
        0 <= i < committee.validators@.len(),
    ensures
        committee.keys().len() == committee.validators@.len(),
        committee.keys()[i] == committee.validators@[i].0,
{
}

/// A key has an address if and only if a validator is listed with it, and then its address is that
/// of the first such validator.
pub proof fn law_addresses_are_listed(committee: GenesisCommittee, key: PublicKey)
    ensures
        committee.address_of(key) is Some <==> exists|i: int|
            0 <= i < committee.validators@.len() && (#[trigger] committee.validators@[i]).0 == key,
        committee.address_of(key) matches Some(address) ==> exists|i: int|
            0 <= i < committee.validators@.len() && #[trigger] committee.validators@[i] == (key, address)
                && forall|earlier: int|
                0 <= earlier < i ==> (#[trigger] committee.validators@[earlier]).0 != key,
{
    let keys = committee.keys();
    keys.index_of_first_ensures(key);
    if exists|i: int| 0 <= i < committee.validators@.len() && (#[trigger] committee.validators@[i]).0 == key {
        let i = choose|i: int|
            0 <= i < committee.validators@.len() && (#[trigger] committee.validators@[i]).0 == key;
        assert(keys[i] == key);
        assert(keys.contains(key));
    }
    if let Some(address) = committee.address_of(key) {
        let place = keys.index_of_first(key)->0;
        assert(keys[place] == key);
        assert(committee.validators@[place] == (key, address));
        assert forall|earlier: int| 0 <= earlier < place implies (#[trigger] committee.validators@[earlier]).0
            != key by {
            assert(keys[earlier] != key);
        }
    }
}

} // verus!
