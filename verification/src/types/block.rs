//! Blocks, the payloads they carry, and their digests.

use vstd::prelude::*;

use vstd::bytes::{
    lemma_auto_spec_u64_to_from_le_bytes, spec_u64_to_le_bytes, u64_to_le_bytes,
};
use vstd::slice::slice_to_vec;

use crate::outside::{sha256, sha256_of};
use crate::types::frame::{
    address, bloom, frame, framed, law_frames_are_apart, lemma_framed_bounds, number, unframe, views, word,
};
use crate::types::Digest;

verus! {

/// A withdrawal that an execution payload carries.
#[derive(Clone, Debug, PartialEq, Eq)]
pub struct Withdrawal {
    pub index: u64,
    pub validator_index: u64,
    pub address: [u8; 20],
    pub amount: u64,
}

/// The execution payload that an execution client builds and executes.
///
/// The 256-bit quantities are held as 32 big-endian bytes.
#[derive(Clone, Debug, PartialEq, Eq)]
pub struct ExecutionPayload {
    pub parent_hash: [u8; 32],
    pub fee_recipient: [u8; 20],
    pub state_root: [u8; 32],
    pub receipts_root: [u8; 32],
    pub logs_bloom: [u8; 256],
    pub prev_randao: [u8; 32],
    pub block_number: u64,
    pub gas_limit: u64,
    pub gas_used: u64,
    pub timestamp: u64,
    pub extra_data: Vec<u8>,
    pub base_fee_per_gas: [u8; 32],
    pub block_hash: [u8; 32],
    pub transactions: Vec<Vec<u8>>,
    pub withdrawals: Vec<Withdrawal>,
    pub blob_gas_used: u64,
    pub excess_blob_gas: u64,
}

/// What a block says, before it has a digest.
#[derive(Clone, Debug, PartialEq, Eq)]
pub struct BlockContents {
    pub parent: Digest,
    pub height: u64,
    pub timestamp: u64,
    pub payload: ExecutionPayload,
    pub execution_requests: Vec<Vec<u8>>,
    pub block_value: [u8; 32],
}

/// A block of the consensus chain.
#[derive(Clone, Debug, PartialEq, Eq)]
pub struct Block {
    pub digest: Digest,
    pub parent: Digest,
    pub height: u64,
    pub timestamp: u64,
    pub payload: ExecutionPayload,
    pub execution_requests: Vec<Vec<u8>>,
    pub block_value: [u8; 32],
}

/// A block with the notarization that a quorum gave it.
#[derive(Clone, Debug, PartialEq, Eq)]
pub struct Notarized {
    pub proof: Vec<u8>,
    pub block: Block,
}

/// What is asked of the syncer to get a block: its digest, and the view in which it was notarized
/// where that is known.
#[derive(Clone, Copy, Debug, PartialEq, Eq)]
pub struct BlockRequest {
    pub view: Option<u64>,
    pub payload: Digest,
}

/// What the execution client hands over when a payload is built.
#[derive(Clone, Debug, PartialEq, Eq)]
pub struct PayloadEnvelope {
    pub execution_payload: ExecutionPayload,
    pub execution_requests: Vec<Vec<u8>>,
    pub block_value: [u8; 32],
}

impl Withdrawal {
    /// The parts of the withdrawal, each as bytes.
    pub open spec fn parts(self) -> Seq<Seq<u8>> {
        seq![
            spec_u64_to_le_bytes(self.index),
            spec_u64_to_le_bytes(self.validator_index),
            self.address@,
            spec_u64_to_le_bytes(self.amount),
        ]
    }

    /// The bytes that stand for the withdrawal.
    pub open spec fn encoding(self) -> Seq<u8> {
        framed(self.parts())
    }

    /// Encodes the withdrawal.
    pub fn encode(&self) -> (bytes: Vec<u8>)
        ensures
            bytes@ == self.encoding(),
    {
        let mut parts: Vec<Vec<u8>> = Vec::new();
        parts.push(u64_to_le_bytes(self.index));
        parts.push(u64_to_le_bytes(self.validator_index));
        parts.push(slice_to_vec(self.address.as_slice()));
        parts.push(u64_to_le_bytes(self.amount));
        assert(views(parts@) =~= self.parts());
        frame(&parts)
    }

    /// The parts have the shapes of the parts of a withdrawal.
    pub open spec fn fits(parts: Seq<Seq<u8>>) -> bool {
        &&& parts.len() == 4
        &&& parts[0].len() == 8
        &&& parts[1].len() == 8
        &&& parts[2].len() == 20
        &&& parts[3].len() == 8
    }

    /// Decodes a withdrawal. There is none where the bytes stand for none.
    pub fn decode(bytes: &[u8]) -> (decoded: Option<Withdrawal>)
        ensures
            match decoded {
                Some(decoded) => decoded.encoding() == bytes@,
                None => forall|value: Withdrawal| value.encoding() != bytes@,
            },
    {
        let parts = match unframe(bytes) {
            Some(parts) => parts,
            None => return None,
        };
        proof {
            lemma_auto_spec_u64_to_from_le_bytes();
            assert(bytes.len() <= u64::MAX);
            assert forall|value: Withdrawal| #[trigger] value.encoding() == bytes@ implies Withdrawal::fits(views(parts@)) by {
                law_frames_are_apart(views(parts@), value.parts());
            }
        }
        if parts.len() != 4 {
            return None;
        }
        let index = match number(parts[0].as_slice()) {
            Some(index) => index,
            None => return None,
        };
        let validator_index = match number(parts[1].as_slice()) {
            Some(validator_index) => validator_index,
            None => return None,
        };
        let address = match address(parts[2].as_slice()) {
            Some(address) => address,
            None => return None,
        };
        let amount = match number(parts[3].as_slice()) {
            Some(amount) => amount,
            None => return None,
        };
        let decoded = Withdrawal {
            index,
            validator_index,
            address,
            amount,
        };
        assert(decoded.parts() =~= views(parts@));
        Some(decoded)
    }
}

/// The encodings of a series of withdrawals.
pub open spec fn withdrawal_encodings(withdrawals: Seq<Withdrawal>) -> Seq<Seq<u8>> {
    withdrawals.map_values(|withdrawal: Withdrawal| withdrawal.encoding())
}

/// Encodes each of a series of withdrawals.
pub fn encode_withdrawals(withdrawals: &Vec<Withdrawal>) -> (encodings: Vec<Vec<u8>>)
    ensures
        views(encodings@) == withdrawal_encodings(withdrawals@),
{
    let mut encodings: Vec<Vec<u8>> = Vec::new();
    let mut i: usize = 0;
    while i < withdrawals.len()
        invariant
            i <= withdrawals@.len(),
            encodings@.len() == i,
            forall|j: int| 0 <= j < i ==> (#[trigger] encodings@[j])@ == withdrawals@[j].encoding(),
        decreases withdrawals@.len() - i,
    {
        encodings.push(withdrawals[i].encode());
        i = i + 1;
    }
    assert(views(encodings@) =~= withdrawal_encodings(withdrawals@));
    encodings
}

/// Decodes a series of withdrawals. There is none where the bytes stand for none.
pub fn decode_withdrawals(bytes: &[u8]) -> (decoded: Option<Vec<Withdrawal>>)
    ensures
        match decoded {
            Some(decoded) => framed(withdrawal_encodings(decoded@)) == bytes@,
            None => forall|list: Seq<Withdrawal>| framed(#[trigger] withdrawal_encodings(list)) != bytes@,
        },
{
    let parts = match unframe(bytes) {
        Some(parts) => parts,
        None => return None,
    };
    let mut decoded: Vec<Withdrawal> = Vec::new();
    let mut i: usize = 0;
    assert(bytes.len() <= u64::MAX);
    while i < parts.len()
        invariant
            i <= parts@.len(),
            decoded@.len() == i,
            bytes@.len() <= u64::MAX,
            framed(views(parts@)) == bytes@,
            forall|j: int| 0 <= j < i ==> (#[trigger] decoded@[j]).encoding() == parts@[j]@,
        decreases parts@.len() - i,
    {
        match Withdrawal::decode(parts[i].as_slice()) {
            Some(withdrawal) => decoded.push(withdrawal),
            None => {
                assert forall|list: Seq<Withdrawal>| framed(#[trigger] withdrawal_encodings(list)) != bytes@ by {
                    if framed(withdrawal_encodings(list)) == bytes@ {
                        law_frames_are_apart(views(parts@), withdrawal_encodings(list));
                        assert(withdrawal_encodings(list)[i as int] == views(parts@)[i as int]);
                        assert(list[i as int].encoding() == parts@[i as int]@);
                    }
                }
                return None;
            },
        }
        i = i + 1;
    }
    assert(withdrawal_encodings(decoded@) =~= views(parts@));
    Some(decoded)
}

impl ExecutionPayload {
    /// The parts of the payload, each as bytes.
    pub open spec fn parts(self) -> Seq<Seq<u8>> {
        seq![
            self.parent_hash@,
            self.fee_recipient@,
            self.state_root@,
            self.receipts_root@,
            self.logs_bloom@,
            self.prev_randao@,
            spec_u64_to_le_bytes(self.block_number),
            spec_u64_to_le_bytes(self.gas_limit),
            spec_u64_to_le_bytes(self.gas_used),
            spec_u64_to_le_bytes(self.timestamp),
            self.extra_data@,
            self.base_fee_per_gas@,
            self.block_hash@,
            framed(views(self.transactions@)),
            framed(withdrawal_encodings(self.withdrawals@)),
            spec_u64_to_le_bytes(self.blob_gas_used),
            spec_u64_to_le_bytes(self.excess_blob_gas),
        ]
    }

    /// The bytes that stand for the payload.
    pub open spec fn encoding(self) -> Seq<u8> {
        framed(self.parts())
    }

    /// The two agree in every part.
    pub open spec fn says_as(self, other: ExecutionPayload) -> bool {
        &&& self.parent_hash == other.parent_hash
        &&& self.fee_recipient == other.fee_recipient
        &&& self.state_root == other.state_root
        &&& self.receipts_root == other.receipts_root
        &&& self.logs_bloom == other.logs_bloom
        &&& self.prev_randao == other.prev_randao
        &&& self.block_number == other.block_number
        &&& self.gas_limit == other.gas_limit
        &&& self.gas_used == other.gas_used
        &&& self.timestamp == other.timestamp
        &&& self.extra_data@ == other.extra_data@
        &&& self.base_fee_per_gas == other.base_fee_per_gas
        &&& self.block_hash == other.block_hash
        &&& views(self.transactions@) == views(other.transactions@)
        &&& self.withdrawals@ == other.withdrawals@
        &&& self.blob_gas_used == other.blob_gas_used
        &&& self.excess_blob_gas == other.excess_blob_gas
    }

    /// Encodes the payload.
    pub fn encode(&self) -> (bytes: Vec<u8>)
        ensures
            bytes@ == self.encoding(),
    {
        let mut parts: Vec<Vec<u8>> = Vec::new();
        parts.push(slice_to_vec(self.parent_hash.as_slice()));
        parts.push(slice_to_vec(self.fee_recipient.as_slice()));
        parts.push(slice_to_vec(self.state_root.as_slice()));
        parts.push(slice_to_vec(self.receipts_root.as_slice()));
        parts.push(slice_to_vec(self.logs_bloom.as_slice()));
        parts.push(slice_to_vec(self.prev_randao.as_slice()));
        parts.push(u64_to_le_bytes(self.block_number));
        parts.push(u64_to_le_bytes(self.gas_limit));
        parts.push(u64_to_le_bytes(self.gas_used));
        parts.push(u64_to_le_bytes(self.timestamp));
        parts.push(slice_to_vec(self.extra_data.as_slice()));
        parts.push(slice_to_vec(self.base_fee_per_gas.as_slice()));
        parts.push(slice_to_vec(self.block_hash.as_slice()));
        parts.push(frame(&self.transactions));
        parts.push(frame(&encode_withdrawals(&self.withdrawals)));
        parts.push(u64_to_le_bytes(self.blob_gas_used));
        parts.push(u64_to_le_bytes(self.excess_blob_gas));
        assert(views(parts@) =~= self.parts());
        frame(&parts)
    }

    /// The parts have the shapes of the parts of a payload.
    pub open spec fn fits(parts: Seq<Seq<u8>>) -> bool {
        &&& parts.len() == 17
        &&& parts[0].len() == 32
        &&& parts[1].len() == 20
        &&& parts[2].len() == 32
        &&& parts[3].len() == 32
        &&& parts[4].len() == 256
        &&& parts[5].len() == 32
        &&& parts[6].len() == 8
        &&& parts[7].len() == 8
        &&& parts[8].len() == 8
        &&& parts[9].len() == 8
        &&& parts[11].len() == 32
        &&& parts[12].len() == 32
        &&& exists|list: Seq<Seq<u8>>| #[trigger] framed(list) == parts[13]
        &&& exists|list: Seq<Withdrawal>| framed(#[trigger] withdrawal_encodings(list)) == parts[14]
        &&& parts[15].len() == 8
        &&& parts[16].len() == 8
    }

    /// Decodes a payload. There is none where the bytes stand for none.
    pub fn decode(bytes: &[u8]) -> (decoded: Option<ExecutionPayload>)
        ensures
            match decoded {
                Some(decoded) => decoded.encoding() == bytes@,
                None => forall|value: ExecutionPayload| value.encoding() != bytes@,
            },
    {
        let parts = match unframe(bytes) {
            Some(parts) => parts,
            None => return None,
        };
        proof {
            lemma_auto_spec_u64_to_from_le_bytes();
            assert(bytes.len() <= u64::MAX);
            assert forall|value: ExecutionPayload| #[trigger] value.encoding() == bytes@ implies ExecutionPayload::fits(views(parts@)) by {
                law_frames_are_apart(views(parts@), value.parts());
                assert(framed(views(value.transactions@)) == views(parts@)[13]);
                assert(framed(withdrawal_encodings(value.withdrawals@)) == views(parts@)[14]);
            }
        }
        if parts.len() != 17 {
            return None;
        }
        let parent_hash = match word(parts[0].as_slice()) {
            Some(parent_hash) => parent_hash,
            None => return None,
        };
        let fee_recipient = match address(parts[1].as_slice()) {
            Some(fee_recipient) => fee_recipient,
            None => return None,
        };
        let state_root = match word(parts[2].as_slice()) {
            Some(state_root) => state_root,
            None => return None,
        };
        let receipts_root = match word(parts[3].as_slice()) {
            Some(receipts_root) => receipts_root,
            None => return None,
        };
        let logs_bloom = match bloom(parts[4].as_slice()) {
            Some(logs_bloom) => logs_bloom,
            None => return None,
        };
        let prev_randao = match word(parts[5].as_slice()) {
            Some(prev_randao) => prev_randao,
            None => return None,
        };
        let block_number = match number(parts[6].as_slice()) {
            Some(block_number) => block_number,
            None => return None,
        };
        let gas_limit = match number(parts[7].as_slice()) {
            Some(gas_limit) => gas_limit,
            None => return None,
        };
        let gas_used = match number(parts[8].as_slice()) {
            Some(gas_used) => gas_used,
            None => return None,
        };
        let timestamp = match number(parts[9].as_slice()) {
            Some(timestamp) => timestamp,
            None => return None,
        };
        let extra_data = slice_to_vec(parts[10].as_slice());
        let base_fee_per_gas = match word(parts[11].as_slice()) {
            Some(base_fee_per_gas) => base_fee_per_gas,
            None => return None,
        };
        let block_hash = match word(parts[12].as_slice()) {
            Some(block_hash) => block_hash,
            None => return None,
        };
        let transactions = match unframe(parts[13].as_slice()) {
            Some(transactions) => transactions,
            None => return None,
        };
        let withdrawals = match decode_withdrawals(parts[14].as_slice()) {
            Some(withdrawals) => withdrawals,
            None => return None,
        };
        let blob_gas_used = match number(parts[15].as_slice()) {
            Some(blob_gas_used) => blob_gas_used,
            None => return None,
        };
        let excess_blob_gas = match number(parts[16].as_slice()) {
            Some(excess_blob_gas) => excess_blob_gas,
            None => return None,
        };
        let decoded = ExecutionPayload {
            parent_hash,
            fee_recipient,
            state_root,
            receipts_root,
            logs_bloom,
            prev_randao,
            block_number,
            gas_limit,
            gas_used,
            timestamp,
            extra_data,
            base_fee_per_gas,
            block_hash,
            transactions,
            withdrawals,
            blob_gas_used,
            excess_blob_gas,
        };
        assert(decoded.parts() =~= views(parts@));
        Some(decoded)
    }
}

/// Encodes the contents that the given parts make.
fn encode_contents(
    parent: &Digest,
    height: u64,
    timestamp: u64,
    payload: &ExecutionPayload,
    execution_requests: &Vec<Vec<u8>>,
    block_value: &[u8; 32],
) -> (bytes: Vec<u8>)
    ensures
        bytes@ == (BlockContents {
            parent: *parent,
            height,
            timestamp,
            payload: *payload,
            execution_requests: *execution_requests,
            block_value: *block_value,
        }).encoding(),
{
    let mut parts: Vec<Vec<u8>> = Vec::new();
    parts.push(slice_to_vec(parent.0.as_slice()));
    parts.push(u64_to_le_bytes(height));
    parts.push(u64_to_le_bytes(timestamp));
    parts.push(payload.encode());
    parts.push(frame(execution_requests));
    parts.push(slice_to_vec(block_value.as_slice()));
    let ghost contents = BlockContents {
        parent: *parent,
        height,
        timestamp,
        payload: *payload,
        execution_requests: *execution_requests,
        block_value: *block_value,
    };
    assert(views(parts@) =~= contents.parts());
    frame(&parts)
}

impl BlockContents {
    /// The parts of the contents, each as bytes.
    pub open spec fn parts(self) -> Seq<Seq<u8>> {
        seq![
            self.parent.0@,
            spec_u64_to_le_bytes(self.height),
            spec_u64_to_le_bytes(self.timestamp),
            self.payload.encoding(),
            framed(views(self.execution_requests@)),
            self.block_value@,
        ]
    }

    /// The bytes that stand for the contents.
    pub open spec fn encoding(self) -> Seq<u8> {
        framed(self.parts())
    }

    /// The two agree in every part.
    pub open spec fn says_as(self, other: BlockContents) -> bool {
        &&& self.parent == other.parent
        &&& self.height == other.height
        &&& self.timestamp == other.timestamp
        &&& self.payload.says_as(other.payload)
        &&& views(self.execution_requests@) == views(other.execution_requests@)
        &&& self.block_value == other.block_value
    }

    /// Encodes the contents.
    pub fn encode(&self) -> (bytes: Vec<u8>)
        ensures
            bytes@ == self.encoding(),
    {
        encode_contents(
            &self.parent,
            self.height,
            self.timestamp,
            &self.payload,
            &self.execution_requests,
            &self.block_value,
        )
    }

    /// The parts have the shapes of the parts of contents.
    pub open spec fn fits(parts: Seq<Seq<u8>>) -> bool {
        &&& parts.len() == 6
        &&& parts[0].len() == 32
        &&& parts[1].len() == 8
        &&& parts[2].len() == 8
        &&& exists|payload: ExecutionPayload| #[trigger] payload.encoding() == parts[3]
        &&& exists|list: Seq<Seq<u8>>| #[trigger] framed(list) == parts[4]
        &&& parts[5].len() == 32
    }

    /// Decodes contents. There is none where the bytes stand for none.
    pub fn decode(bytes: &[u8]) -> (decoded: Option<BlockContents>)
        ensures
            match decoded {
                Some(decoded) => decoded.encoding() == bytes@,
                None => forall|value: BlockContents| value.encoding() != bytes@,
            },
    {
        let parts = match unframe(bytes) {
            Some(parts) => parts,
            None => return None,
        };
        proof {
            lemma_auto_spec_u64_to_from_le_bytes();
            assert(bytes.len() <= u64::MAX);
            assert forall|value: BlockContents| #[trigger] value.encoding() == bytes@ implies BlockContents::fits(views(parts@)) by {
                law_frames_are_apart(views(parts@), value.parts());
                assert(value.payload.encoding() == views(parts@)[3]);
                assert(framed(views(value.execution_requests@)) == views(parts@)[4]);
            }
        }
        if parts.len() != 6 {
            return None;
        }
        let parent = match word(parts[0].as_slice()) {
            Some(parent) => parent,
            None => return None,
        };
        let height = match number(parts[1].as_slice()) {
            Some(height) => height,
            None => return None,
        };
        let timestamp = match number(parts[2].as_slice()) {
            Some(timestamp) => timestamp,
            None => return None,
        };
        let payload = match ExecutionPayload::decode(parts[3].as_slice()) {
            Some(payload) => payload,
            None => return None,
        };
        let execution_requests = match unframe(parts[4].as_slice()) {
            Some(execution_requests) => execution_requests,
            None => return None,
        };
        let block_value = match word(parts[5].as_slice()) {
            Some(block_value) => block_value,
            None => return None,
        };
        let decoded = BlockContents {
            parent: Digest(parent),
            height,
            timestamp,
            payload,
            execution_requests,
            block_value,
        };
        assert(decoded.parts() =~= views(parts@));
        Some(decoded)
    }

    /// The digest of the contents: that of the bytes that stand for them.
    pub open spec fn digest(self) -> Seq<u8> {
        sha256_of(self.encoding())
    }

    /// Computes the digest of the contents.
    pub fn compute_digest(&self) -> (digest: Digest)
        ensures
            digest.0@ == self.digest(),
    {
        let bytes = self.encode();
        Digest(sha256(bytes.as_slice()))
    }
}

/// All the bytes are zero.
pub open spec fn is_zero(bytes: Seq<u8>) -> bool {
    forall|i: int| 0 <= i < bytes.len() ==> bytes[i] == 0
}

impl Block {
    /// The block that the given contents and their digest make.
    pub open spec fn sealed(contents: BlockContents, digest: Digest) -> Block {
        Block {
            digest,
            parent: contents.parent,
            height: contents.height,
            timestamp: contents.timestamp,
            payload: contents.payload,
            execution_requests: contents.execution_requests,
            block_value: contents.block_value,
        }
    }

    /// Makes a block of its contents and their digest.
    pub fn seal(contents: BlockContents, digest: Digest) -> (block: Block)
        ensures
            block == Block::sealed(contents, digest),
    {
        Block {
            digest,
            parent: contents.parent,
            height: contents.height,
            timestamp: contents.timestamp,
            payload: contents.payload,
            execution_requests: contents.execution_requests,
            block_value: contents.block_value,
        }
    }

    /// What the block says, without its digest.
    pub open spec fn contents(self) -> BlockContents {
        BlockContents {
            parent: self.parent,
            height: self.height,
            timestamp: self.timestamp,
            payload: self.payload,
            execution_requests: self.execution_requests,
            block_value: self.block_value,
        }
    }

    /// The bytes by which the block is sent and stored: those that stand for its contents.
    pub fn to_bytes(&self) -> (bytes: Vec<u8>)
        ensures
            bytes@ == self.contents().encoding(),
    {
        encode_contents(
            &self.parent,
            self.height,
            self.timestamp,
            &self.payload,
            &self.execution_requests,
            &self.block_value,
        )
    }

    /// The block that was sent or stored as the given bytes. Its digest is computed from them.
    pub fn from_bytes(bytes: &[u8]) -> (block: Option<Block>)
        ensures
            match block {
                Some(block) => block.contents().encoding() == bytes@ && block.digest.0@ == sha256_of(bytes@),
                None => forall|contents: BlockContents| contents.encoding() != bytes@,
            },
    {
        match BlockContents::decode(bytes) {
            Some(contents) => {
                let digest = contents.compute_digest();
                let block = Block::seal(contents, digest);
                assert(block.contents() == contents);
                Some(block)
            },
            None => None,
        }
    }

    /// This is the first block of the chain with the given genesis hash: its digest and the hash
    /// of its payload are that hash, and everything else in it is zero or empty.
    pub open spec fn is_genesis(self, genesis_hash: Digest) -> bool {
        &&& self.digest == genesis_hash
        &&& is_zero(self.parent.0@)
        &&& self.height == 0
        &&& self.timestamp == 0
        &&& self.execution_requests@.len() == 0
        &&& is_zero(self.block_value@)
        &&& self.payload.block_hash == genesis_hash.0
        &&& is_zero(self.payload.parent_hash@)
        &&& is_zero(self.payload.fee_recipient@)
        &&& is_zero(self.payload.state_root@)
        &&& is_zero(self.payload.receipts_root@)
        &&& is_zero(self.payload.logs_bloom@)
        &&& is_zero(self.payload.prev_randao@)
        &&& self.payload.block_number == 0
        &&& self.payload.gas_limit == 0
        &&& self.payload.gas_used == 0
        &&& self.payload.timestamp == 0
        &&& self.payload.extra_data@.len() == 0
        &&& is_zero(self.payload.base_fee_per_gas@)
        &&& self.payload.transactions@.len() == 0
        &&& self.payload.withdrawals@.len() == 0
        &&& self.payload.blob_gas_used == 0
        &&& self.payload.excess_blob_gas == 0
    }

    /// The first block of the chain with the given genesis hash.
    pub fn genesis(genesis_hash: Digest) -> (block: Block)
        ensures
            block.is_genesis(genesis_hash),
    {
        let payload = ExecutionPayload {
            parent_hash: [0; 32],
            fee_recipient: [0; 20],
            state_root: [0; 32],
            receipts_root: [0; 32],
            logs_bloom: [0; 256],
            prev_randao: [0; 32],
            block_number: 0,
            gas_limit: 0,
            gas_used: 0,
            timestamp: 0,
            extra_data: Vec::new(),
            base_fee_per_gas: [0; 32],
            block_hash: genesis_hash.0,
            transactions: Vec::new(),
            withdrawals: Vec::new(),
            blob_gas_used: 0,
            excess_blob_gas: 0,
        };
        Block {
            digest: genesis_hash,
            parent: Digest([0; 32]),
            height: 0,
            timestamp: 0,
            payload,
            execution_requests: Vec::new(),
            block_value: [0; 32],
        }
    }

    /// The hash of the execution block that this block's payload builds on.
    pub fn eth_parent_hash(&self) -> (hash: [u8; 32])
        ensures
            hash == self.payload.parent_hash,
    {
        self.payload.parent_hash
    }

    /// The hash of the execution block that this block's payload is.
    pub fn eth_block_hash(&self) -> (hash: [u8; 32])
        ensures
            hash == self.payload.block_hash,
    {
        self.payload.block_hash
    }
}

impl Notarized {
    /// The bytes that stand for the notarization and its block.
    pub open spec fn encoding(self) -> Seq<u8> {
        framed(seq![self.proof@, self.block.contents().encoding()])
    }

    /// The bytes by which a notarized block is stored.
    pub fn to_bytes(&self) -> (bytes: Vec<u8>)
        ensures
            bytes@ == self.encoding(),
    {
        let mut parts: Vec<Vec<u8>> = Vec::new();
        parts.push(slice_to_vec(self.proof.as_slice()));
        parts.push(self.block.to_bytes());
        assert(views(parts@) =~= seq![self.proof@, self.block.contents().encoding()]);
        frame(&parts)
    }

    /// The notarized block that was stored as the given bytes.
    pub fn from_bytes(bytes: &[u8]) -> (notarized: Option<Notarized>)
        ensures
            match notarized {
                Some(notarized) => notarized.encoding() == bytes@ && notarized.block.digest.0@
                    == notarized.block.contents().digest(),
                None => forall|notarized: Notarized| notarized.encoding() != bytes@,
            },
    {
        let mut parts = match unframe(bytes) {
            Some(parts) => parts,
            None => return None,
        };
        let ghost held = views(parts@);
        proof {
            assert(bytes.len() <= u64::MAX);
            assert forall|notarized: Notarized| #[trigger] notarized.encoding() == bytes@ implies held.len() == 2
                && notarized.block.contents().encoding() == held[1] by {
                law_frames_are_apart(held, seq![notarized.proof@, notarized.block.contents().encoding()]);
            }
        }
        if parts.len() != 2 {
            return None;
        }
        let block = match Block::from_bytes(parts[1].as_slice()) {
            Some(block) => block,
            None => return None,
        };
        let notarized = Notarized { proof: parts.swap_remove(0), block };
        assert(seq![notarized.proof@, notarized.block.contents().encoding()] =~= held);
        Some(notarized)
    }
}

/// Two withdrawals with one encoding are one withdrawal.
pub proof fn law_withdrawals_are_apart(a: Withdrawal, b: Withdrawal)
    requires
        a.encoding() == b.encoding(),
        a.encoding().len() <= u64::MAX,
    ensures
        a == b,
{
    lemma_auto_spec_u64_to_from_le_bytes();
    law_frames_are_apart(a.parts(), b.parts());
    assert(a.parts()[0] == b.parts()[0]);
    assert(a.parts()[1] == b.parts()[1]);
    assert(a.parts()[2] == b.parts()[2]);
    assert(a.parts()[3] == b.parts()[3]);
    assert(a.address =~= b.address);
}

/// Two payloads with one encoding agree in every part.
proof fn lemma_payloads_are_apart(a: ExecutionPayload, b: ExecutionPayload)
    requires
        a.encoding() == b.encoding(),
        a.encoding().len() <= u64::MAX,
    ensures
        a.says_as(b),
{
    lemma_auto_spec_u64_to_from_le_bytes();
    law_frames_are_apart(a.parts(), b.parts());
    assert(a.parts()[0] == b.parts()[0]);
    assert(a.parent_hash =~= b.parent_hash);
    assert(a.parts()[1] == b.parts()[1]);
    assert(a.fee_recipient =~= b.fee_recipient);
    assert(a.parts()[2] == b.parts()[2]);
    assert(a.state_root =~= b.state_root);
    assert(a.parts()[3] == b.parts()[3]);
    assert(a.receipts_root =~= b.receipts_root);
    assert(a.parts()[4] == b.parts()[4]);
    assert(a.logs_bloom =~= b.logs_bloom);
    assert(a.parts()[5] == b.parts()[5]);
    assert(a.prev_randao =~= b.prev_randao);
    assert(a.parts()[6] == b.parts()[6]);
    assert(a.parts()[7] == b.parts()[7]);
    assert(a.parts()[8] == b.parts()[8]);
    assert(a.parts()[9] == b.parts()[9]);
    assert(a.parts()[10] == b.parts()[10]);
    assert(a.parts()[11] == b.parts()[11]);
    assert(a.base_fee_per_gas =~= b.base_fee_per_gas);
    assert(a.parts()[12] == b.parts()[12]);
    assert(a.block_hash =~= b.block_hash);
    assert(a.parts()[13] == b.parts()[13]);
    assert(a.parts()[14] == b.parts()[14]);
    assert(a.parts()[15] == b.parts()[15]);
    assert(a.parts()[16] == b.parts()[16]);
    lemma_framed_bounds(a.parts(), 13);
    law_frames_are_apart(views(a.transactions@), views(b.transactions@));
    lemma_framed_bounds(a.parts(), 14);
    let encodings = withdrawal_encodings(a.withdrawals@);
    law_frames_are_apart(encodings, withdrawal_encodings(b.withdrawals@));
    assert forall|i: int| 0 <= i < a.withdrawals@.len() implies a.withdrawals@[i] == b.withdrawals@[i] by {
        assert(encodings[i] == withdrawal_encodings(b.withdrawals@)[i]);
        lemma_framed_bounds(encodings, i);
        law_withdrawals_are_apart(a.withdrawals@[i], b.withdrawals@[i]);
    }
    assert(a.withdrawals@.len() == encodings.len());
    assert(a.withdrawals@ =~= b.withdrawals@);
}

/// Two payloads that agree in every part have one encoding.
proof fn lemma_payloads_agree(a: ExecutionPayload, b: ExecutionPayload)
    requires
        a.says_as(b),
    ensures
        a.encoding() == b.encoding(),
{
    assert(a.parts() =~= b.parts());
}

/// A digest is that of what the contents say, all of it and nothing else: contents are hashed as
/// the same bytes if and only if they agree in every part. The bytes have to be no more than a
/// length can count.
pub proof fn law_digests_bind_contents(a: BlockContents, b: BlockContents)
    requires
        a.encoding().len() <= u64::MAX,
    ensures
        a.encoding() == b.encoding() <==> a.says_as(b),
{
    lemma_auto_spec_u64_to_from_le_bytes();
    if a.says_as(b) {
        lemma_payloads_agree(a.payload, b.payload);
        assert(a.parts() =~= b.parts());
    }
    if a.encoding() == b.encoding() {
        law_frames_are_apart(a.parts(), b.parts());
        assert(a.parts()[0] == b.parts()[0]);
        assert(a.parent.0 =~= b.parent.0);
        assert(a.parts()[1] == b.parts()[1]);
        assert(a.parts()[2] == b.parts()[2]);
        assert(a.parts()[3] == b.parts()[3]);
        assert(a.parts()[4] == b.parts()[4]);
        assert(a.parts()[5] == b.parts()[5]);
        assert(a.block_value =~= b.block_value);
        lemma_framed_bounds(a.parts(), 3);
        lemma_payloads_are_apart(a.payload, b.payload);
        lemma_framed_bounds(a.parts(), 4);
        law_frames_are_apart(views(a.execution_requests@), views(b.execution_requests@));
    }
}

/// A block that goes by the digest of its contents is the same block after it was sent or stored:
/// what is read back from its bytes has its digest and says what it says.
pub proof fn law_blocks_survive_their_bytes(block: Block, read: Block)
    requires
        block.digest.0@ == block.contents().digest(),
        block.contents().encoding().len() <= u64::MAX,
        read.contents().encoding() == block.contents().encoding(),
        read.digest.0@ == sha256_of(block.contents().encoding()),
    ensures
        read.digest == block.digest,
        read.contents().says_as(block.contents()),
{
    law_digests_bind_contents(read.contents(), block.contents());
    assert(read.digest.0 =~= block.digest.0);
}

/// Nothing that contents say is left out of their bytes: contents with the same bytes are the same
/// in every field, down to the fields of the payload, each transaction, each withdrawal and each
/// request.
pub proof fn law_bytes_tell_every_field(a: BlockContents, b: BlockContents)
    requires
        a.encoding() == b.encoding(),
        a.encoding().len() <= u64::MAX,
    ensures
        a.parent == b.parent,
        a.height == b.height,
        a.timestamp == b.timestamp,
        a.execution_requests@.len() == b.execution_requests@.len(),
        forall|i: int| 0 <= i < a.execution_requests@.len() ==> (#[trigger] a.execution_requests@[i])@ == b.execution_requests@[i]@,
        a.block_value == b.block_value,
        a.payload.parent_hash == b.payload.parent_hash,
        a.payload.fee_recipient == b.payload.fee_recipient,
        a.payload.state_root == b.payload.state_root,
        a.payload.receipts_root == b.payload.receipts_root,
        a.payload.logs_bloom == b.payload.logs_bloom,
        a.payload.prev_randao == b.payload.prev_randao,
        a.payload.block_number == b.payload.block_number,
        a.payload.gas_limit == b.payload.gas_limit,
        a.payload.gas_used == b.payload.gas_used,
        a.payload.timestamp == b.payload.timestamp,
        a.payload.extra_data@ == b.payload.extra_data@,
        a.payload.base_fee_per_gas == b.payload.base_fee_per_gas,
        a.payload.block_hash == b.payload.block_hash,
        a.payload.transactions@.len() == b.payload.transactions@.len(),
        forall|i: int| 0 <= i < a.payload.transactions@.len() ==> (#[trigger] a.payload.transactions@[i])@ == b.payload.transactions@[i]@,
        a.payload.withdrawals@ == b.payload.withdrawals@,
        a.payload.blob_gas_used == b.payload.blob_gas_used,
        a.payload.excess_blob_gas == b.payload.excess_blob_gas,
{
    law_digests_bind_contents(a, b);
    let transactions = views(a.payload.transactions@);
    let requests = views(a.execution_requests@);
    assert(transactions.len() == a.payload.transactions@.len());
    assert(requests.len() == a.execution_requests@.len());
    assert forall|i: int| 0 <= i < a.payload.transactions@.len() implies (
    #[trigger] a.payload.transactions@[i])@ == b.payload.transactions@[i]@ by {
        assert(transactions[i] == views(b.payload.transactions@)[i]);
    }
    assert forall|i: int| 0 <= i < a.execution_requests@.len() implies (#[trigger] a.execution_requests@[i])@
        == b.execution_requests@[i]@ by {
        assert(requests[i] == views(b.execution_requests@)[i]);
    }
}

/// Nothing but what contents say enters their bytes and their digest: contents that are the same in
/// every field have the same bytes, and the digest is that of these bytes.
pub proof fn law_fields_tell_the_bytes(a: BlockContents, b: BlockContents)
    requires
        a.parent == b.parent,
        a.height == b.height,
        a.timestamp == b.timestamp,
        a.execution_requests@.len() == b.execution_requests@.len(),
        forall|i: int| 0 <= i < a.execution_requests@.len() ==> (#[trigger] a.execution_requests@[i])@ == b.execution_requests@[i]@,
        a.block_value == b.block_value,
        a.payload.parent_hash == b.payload.parent_hash,
        a.payload.fee_recipient == b.payload.fee_recipient,
        a.payload.state_root == b.payload.state_root,
        a.payload.receipts_root == b.payload.receipts_root,
        a.payload.logs_bloom == b.payload.logs_bloom,
        a.payload.prev_randao == b.payload.prev_randao,
        a.payload.block_number == b.payload.block_number,
        a.payload.gas_limit == b.payload.gas_limit,
        a.payload.gas_used == b.payload.gas_used,
        a.payload.timestamp == b.payload.timestamp,
        a.payload.extra_data@ == b.payload.extra_data@,
        a.payload.base_fee_per_gas == b.payload.base_fee_per_gas,
        a.payload.block_hash == b.payload.block_hash,
        a.payload.transactions@.len() == b.payload.transactions@.len(),
        forall|i: int| 0 <= i < a.payload.transactions@.len() ==> (#[trigger] a.payload.transactions@[i])@ == b.payload.transactions@[i]@,
        a.payload.withdrawals@ == b.payload.withdrawals@,
        a.payload.blob_gas_used == b.payload.blob_gas_used,
        a.payload.excess_blob_gas == b.payload.excess_blob_gas,
    ensures
        a.encoding() == b.encoding(),
        a.digest() == sha256_of(a.encoding()),
        b.digest() == a.digest(),
{
    assert(views(a.payload.transactions@) =~= views(b.payload.transactions@));
    assert(views(a.execution_requests@) =~= views(b.execution_requests@));
    assert(a.payload.parts() =~= b.payload.parts());
    assert(a.parts() =~= b.parts());
}

/// A block says what its contents say, under the digest that it was sealed with; and a block is
/// what sealing its contents with its digest makes.
pub proof fn law_sealing_adds_the_digest(contents: BlockContents, digest: Digest, block: Block)
    ensures
        Block::sealed(contents, digest).digest == digest,
        Block::sealed(contents, digest).parent == contents.parent,
        Block::sealed(contents, digest).height == contents.height,
        Block::sealed(contents, digest).timestamp == contents.timestamp,
        Block::sealed(contents, digest).payload == contents.payload,
        Block::sealed(contents, digest).execution_requests == contents.execution_requests,
        Block::sealed(contents, digest).block_value == contents.block_value,
        Block::sealed(contents, digest).contents() == contents,
        Block::sealed(block.contents(), block.digest) == block,
        block.contents().parent == block.parent,
        block.contents().height == block.height,
        block.contents().timestamp == block.timestamp,
        block.contents().payload == block.payload,
        block.contents().execution_requests == block.execution_requests,
        block.contents().block_value == block.block_value,
{
}

/// The genesis block goes by the genesis hash, in consensus and at the execution client, and
/// stands at height and time zero; there is nothing in it.
pub proof fn law_genesis_goes_by_its_hash(block: Block, genesis_hash: Digest)
    requires
        block.is_genesis(genesis_hash),
    ensures
        block.digest == genesis_hash,
        block.payload.block_hash == genesis_hash.0,
        block.height == 0,
        block.timestamp == 0,
        block.payload.block_number == 0,
        block.payload.timestamp == 0,
        block.payload.transactions@.len() == 0,
        block.payload.withdrawals@.len() == 0,
        block.execution_requests@.len() == 0,
        forall|i: int| 0 <= i < 32 ==> #[trigger] block.parent.0@[i] == 0,
        forall|i: int| 0 <= i < 32 ==> #[trigger] block.payload.parent_hash@[i] == 0,
        forall|i: int| 0 <= i < 32 ==> #[trigger] block.block_value@[i] == 0,
        forall|i: int| 0 <= i < 256 ==> #[trigger] block.payload.logs_bloom@[i] == 0,
{
    assert(block.parent.0@.len() == 32);
    assert(block.payload.parent_hash@.len() == 32);
    assert(block.block_value@.len() == 32);
    assert(block.payload.logs_bloom@.len() == 256);
}

/// The bytes of a notarized block tell its proof and the bytes of its block.
pub proof fn law_notarized_bytes_tell_both(a: Notarized, b: Notarized)
    requires
        a.encoding() == b.encoding(),
        a.encoding().len() <= u64::MAX,
    ensures
        a.proof@ == b.proof@,
        a.block.contents().encoding() == b.block.contents().encoding(),
{
    let parts_a = seq![a.proof@, a.block.contents().encoding()];
    let parts_b = seq![b.proof@, b.block.contents().encoding()];
    law_frames_are_apart(parts_a, parts_b);
    assert(parts_a[0] == parts_b[0]);
    assert(parts_a[1] == parts_b[1]);
}

} // verus!
