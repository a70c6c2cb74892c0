//! Values shared by every part of the node.

use vstd::prelude::*;

pub mod block;
pub mod frame;
pub mod genesis;
pub mod laws;

pub use block::{
    Block, BlockContents, BlockRequest, ExecutionPayload, Notarized, PayloadEnvelope, Withdrawal,
};
pub use genesis::{Genesis, GenesisCommittee, IpAddr, SocketAddr};

verus! {

/// A SHA-256 digest.
#[derive(Clone, Copy, Debug, PartialEq, Eq, Hash)]
pub struct Digest(pub [u8; 32]);

/// A BLS12-381 public key, held by its compressed encoding.
#[derive(Clone, Copy, Debug, PartialEq, Eq, Hash)]
pub struct PublicKey(pub [u8; 48]);

/// The head, safe and finalized blocks that the execution client is told of.
#[derive(Clone, Copy, Debug, PartialEq, Eq)]
pub struct ForkchoiceState {
    pub head_block_hash: [u8; 32],
    pub safe_block_hash: [u8; 32],
    pub finalized_block_hash: [u8; 32],
}

/// The name by which the execution client knows a payload that it is building.
#[derive(Clone, Copy, Debug, PartialEq, Eq)]
pub struct PayloadId(pub [u8; 8]);

/// How much may pass a rate limiter: a burst of cells, and one more cell each interval.
#[derive(Clone, Copy, Debug, PartialEq, Eq)]
pub struct Quota {
    pub burst_size: u32,
    pub replenish_interval_ns: u64,
}

/// A participant's share of the threshold key.
#[derive(Clone, Debug, PartialEq, Eq)]
pub struct Share {
    pub index: u32,
    pub private: [u8; 32],
}

/// How much is logged.
#[derive(Clone, Copy, Debug, PartialEq, Eq)]
pub enum LogLevel {
    Error,
    Warn,
    Info,
    Debug,
    Trace,
}

/// Tells whether two byte strings are the same.
pub fn bytes_equal(a: &[u8], b: &[u8]) -> (r: bool)
    ensures
        r == (a@ == b@),
{
    if a.len() != b.len() {
        return false;
    }
    let mut i: usize = 0;
    while i < a.len()
        invariant
            a@.len() == b@.len(),
            i <= a@.len(),
            forall|j: int| 0 <= j < i ==> a@[j] == b@[j],
        decreases a@.len() - i,
    {
        if a[i] != b[i] {
            return false;
        }
        i = i + 1;
    }
    assert(a@ =~= b@);
    true
}

/// Tells whether two 32-byte values are the same.
pub fn words_equal(a: &[u8; 32], b: &[u8; 32]) -> (r: bool)
    ensures
        r == (*a == *b),
{
    let r = bytes_equal(a.as_slice(), b.as_slice());
    assert(a@ == b@ ==> *a =~= *b);
    r
}

impl Digest {
    /// Tells whether two digests are the same.
    pub fn equals(&self, other: &Digest) -> (r: bool)
        ensures
            r == (*self == *other),
    {
        words_equal(&self.0, &other.0)
    }
}

impl PublicKey {
    /// Tells whether two public keys are the same.
    pub fn equals(&self, other: &PublicKey) -> (r: bool)
        ensures
            r == (*self == *other),
    {
        let r = bytes_equal(self.0.as_slice(), other.0.as_slice());
        assert(self.0@ == other.0@ ==> self.0 =~= other.0);
        r
    }
}

} // verus!
