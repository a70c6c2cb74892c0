//! What the calls on blocks, frames and committees give back, and how calls relate to one another.
//!
//! Each law speaks of calls that were made: of what went into them and of what came back.

use vstd::prelude::*;

use vstd::bytes::spec_u64_to_le_bytes;

use crate::outside::{hex_bytes, is_digit_of, law_hex_is_read_back, sha256_of};
use crate::types::block::{
    law_bytes_tell_every_field, law_notarized_bytes_tell_both, law_withdrawals_are_apart,
};
use crate::types::frame::{
    frame, framed, law_frames_are_apart, law_views_are_in_place, lemma_framed_bounds, number, unframe, views, word,
};
use crate::types::genesis::{law_addresses_are_listed, law_keys_are_in_place};
use crate::types::{
    bytes_equal, words_equal, Block, BlockContents, Digest, GenesisCommittee, Notarized, PublicKey, SocketAddr, Withdrawal,
};

verus! {

/// What was framed is taken apart into the same parts.
pub proof fn law_frames_are_taken_apart(
    parts: Vec<Vec<u8>>,
    bytes: Vec<u8>,
    given: &[u8],
    read: Option<Vec<Vec<u8>>>,
    i: int,
)
    requires
        call_ensures(frame, (&parts,), bytes),
        given@ == bytes@,
        call_ensures(unframe, (given,), read),
    ensures
        read matches Some(read) && read@.len() == parts@.len() && (0 <= i < parts@.len() ==> read@[i]@
            == parts@[i]@),
{
    assert(framed(views(parts@)) == given@);
    assert(bytes.len() <= u64::MAX);
    assert(read is Some);
    let again = views(read->0@);
    law_frames_are_apart(views(parts@), again);
    assert(again.len() == read->0@.len());
    assert(views(parts@).len() == parts@.len());
    if 0 <= i < parts@.len() {
        law_views_are_in_place(parts@, i);
        law_views_are_in_place(read->0@, i);
    }
}

/// A withdrawal is read back from its bytes.
pub proof fn law_withdrawals_are_read_back(
    withdrawal: Withdrawal,
    bytes: Vec<u8>,
    given: &[u8],
    read: Option<Withdrawal>,
)
    requires
        call_ensures(Withdrawal::encode, (&withdrawal,), bytes),
        given@ == bytes@,
        call_ensures(Withdrawal::decode, (given,), read),
    ensures
        read == Some(withdrawal),
{
    assert(withdrawal.encoding() == given@);
    assert(bytes.len() <= u64::MAX);
    law_withdrawals_are_apart(read->0, withdrawal);
}

/// Contents are read back from their bytes, in every field, down to the fields of the payload, each
/// transaction, each withdrawal and each request.
pub proof fn law_contents_are_read_back(
    contents: BlockContents,
    bytes: Vec<u8>,
    given: &[u8],
    decoded: Option<BlockContents>,
)
    requires
        call_ensures(BlockContents::encode, (&contents,), bytes),
        given@ == bytes@,
        call_ensures(BlockContents::decode, (given,), decoded),
    ensures
        decoded matches Some(read) && {
            &&& read.parent == contents.parent
            &&& read.height == contents.height
            &&& read.timestamp == contents.timestamp
            &&& read.execution_requests@.len() == contents.execution_requests@.len()
            &&& forall|i: int| 0 <= i < read.execution_requests@.len() ==> (#[trigger] read.execution_requests@[i])@ == contents.execution_requests@[i]@
            &&& read.block_value == contents.block_value
            &&& read.payload.parent_hash == contents.payload.parent_hash
            &&& read.payload.fee_recipient == contents.payload.fee_recipient
            &&& read.payload.state_root == contents.payload.state_root
            &&& read.payload.receipts_root == contents.payload.receipts_root
            &&& read.payload.logs_bloom == contents.payload.logs_bloom
            &&& read.payload.prev_randao == contents.payload.prev_randao
            &&& read.payload.block_number == contents.payload.block_number
            &&& read.payload.gas_limit == contents.payload.gas_limit
            &&& read.payload.gas_used == contents.payload.gas_used
            &&& read.payload.timestamp == contents.payload.timestamp
            &&& read.payload.extra_data@ == contents.payload.extra_data@
            &&& read.payload.base_fee_per_gas == contents.payload.base_fee_per_gas
            &&& read.payload.block_hash == contents.payload.block_hash
            &&& read.payload.transactions@.len() == contents.payload.transactions@.len()
            &&& forall|i: int| 0 <= i < read.payload.transactions@.len() ==> (#[trigger] read.payload.transactions@[i])@ == contents.payload.transactions@[i]@
            &&& read.payload.withdrawals@ == contents.payload.withdrawals@
            &&& read.payload.blob_gas_used == contents.payload.blob_gas_used
            &&& read.payload.excess_blob_gas == contents.payload.excess_blob_gas
        },
{
    assert(contents.encoding() == given@);
    assert(bytes.len() <= u64::MAX);
    law_bytes_tell_every_field(decoded->0, contents);
}

/// A block is read back from its bytes in every field, and goes by the digest of these bytes,
/// whatever digest it went by.
pub proof fn law_blocks_are_read_back(block: Block, bytes: Vec<u8>, given: &[u8], decoded: Option<Block>)
    requires
        call_ensures(Block::to_bytes, (&block,), bytes),
        given@ == bytes@,
        call_ensures(Block::from_bytes, (given,), decoded),
    ensures
        decoded matches Some(read) && {
            &&& read.digest.0@ == sha256_of(bytes@)
            &&& read.parent == block.parent
            &&& read.height == block.height
            &&& read.timestamp == block.timestamp
            &&& read.execution_requests@.len() == block.execution_requests@.len()
            &&& forall|i: int| 0 <= i < read.execution_requests@.len() ==> (#[trigger] read.execution_requests@[i])@ == block.execution_requests@[i]@
            &&& read.block_value == block.block_value
            &&& read.payload.parent_hash == block.payload.parent_hash
            &&& read.payload.fee_recipient == block.payload.fee_recipient
            &&& read.payload.state_root == block.payload.state_root
            &&& read.payload.receipts_root == block.payload.receipts_root
            &&& read.payload.logs_bloom == block.payload.logs_bloom
            &&& read.payload.prev_randao == block.payload.prev_randao
            &&& read.payload.block_number == block.payload.block_number
            &&& read.payload.gas_limit == block.payload.gas_limit
            &&& read.payload.gas_used == block.payload.gas_used
            &&& read.payload.timestamp == block.payload.timestamp
            &&& read.payload.extra_data@ == block.payload.extra_data@
            &&& read.payload.base_fee_per_gas == block.payload.base_fee_per_gas
            &&& read.payload.block_hash == block.payload.block_hash
            &&& read.payload.transactions@.len() == block.payload.transactions@.len()
            &&& forall|i: int| 0 <= i < read.payload.transactions@.len() ==> (#[trigger] read.payload.transactions@[i])@ == block.payload.transactions@[i]@
            &&& read.payload.withdrawals@ == block.payload.withdrawals@
            &&& read.payload.blob_gas_used == block.payload.blob_gas_used
            &&& read.payload.excess_blob_gas == block.payload.excess_blob_gas
        },
{
    assert(block.contents().encoding() == given@);
    assert(bytes.len() <= u64::MAX);
    law_bytes_tell_every_field(decoded->0.contents(), block.contents());
}

/// A notarized block is read back from its bytes: its proof, and its block.
pub proof fn law_notarized_blocks_are_read_back(
    notarized: Notarized,
    bytes: Vec<u8>,
    given: &[u8],
    decoded: Option<Notarized>,
)
    requires
        call_ensures(Notarized::to_bytes, (&notarized,), bytes),
        given@ == bytes@,
        call_ensures(Notarized::from_bytes, (given,), decoded),
    ensures
        decoded matches Some(read) && read.proof@ == notarized.proof@ && {
            &&& read.block.parent == notarized.block.parent
            &&& read.block.height == notarized.block.height
            &&& read.block.timestamp == notarized.block.timestamp
            &&& read.block.execution_requests@.len() == notarized.block.execution_requests@.len()
            &&& forall|i: int| 0 <= i < read.block.execution_requests@.len() ==> (#[trigger] read.block.execution_requests@[i])@ == notarized.block.execution_requests@[i]@
            &&& read.block.block_value == notarized.block.block_value
            &&& read.block.payload.parent_hash == notarized.block.payload.parent_hash
            &&& read.block.payload.fee_recipient == notarized.block.payload.fee_recipient
            &&& read.block.payload.state_root == notarized.block.payload.state_root
            &&& read.block.payload.receipts_root == notarized.block.payload.receipts_root
            &&& read.block.payload.logs_bloom == notarized.block.payload.logs_bloom
            &&& read.block.payload.prev_randao == notarized.block.payload.prev_randao
            &&& read.block.payload.block_number == notarized.block.payload.block_number
            &&& read.block.payload.gas_limit == notarized.block.payload.gas_limit
            &&& read.block.payload.gas_used == notarized.block.payload.gas_used
            &&& read.block.payload.timestamp == notarized.block.payload.timestamp
            &&& read.block.payload.extra_data@ == notarized.block.payload.extra_data@
            &&& read.block.payload.base_fee_per_gas == notarized.block.payload.base_fee_per_gas
            &&& read.block.payload.block_hash == notarized.block.payload.block_hash
            &&& read.block.payload.transactions@.len() == notarized.block.payload.transactions@.len()
            &&& forall|i: int| 0 <= i < read.block.payload.transactions@.len() ==> (#[trigger] read.block.payload.transactions@[i])@ == notarized.block.payload.transactions@[i]@
            &&& read.block.payload.withdrawals@ == notarized.block.payload.withdrawals@
            &&& read.block.payload.blob_gas_used == notarized.block.payload.blob_gas_used
            &&& read.block.payload.excess_blob_gas == notarized.block.payload.excess_blob_gas
        },
{
    assert(notarized.encoding() == given@);
    assert(bytes.len() <= u64::MAX);
    law_notarized_bytes_tell_both(decoded->0, notarized);
    let contents = decoded->0.block.contents();
    let parts = seq![notarized.proof@, notarized.block.contents().encoding()];
    lemma_framed_bounds(parts, 1);
    assert(parts[1] == contents.encoding());
    law_bytes_tell_every_field(contents, notarized.block.contents());
}

/// The digest of contents is that of their bytes, and contents with different fields are hashed as
/// different bytes.
pub proof fn law_digests_are_of_the_bytes(
    a: BlockContents,
    b: BlockContents,
    bytes: (Vec<u8>, Vec<u8>),
    digests: (Digest, Digest),
)
    requires
        call_ensures(BlockContents::encode, (&a,), bytes.0),
        call_ensures(BlockContents::encode, (&b,), bytes.1),
        call_ensures(BlockContents::compute_digest, (&a,), digests.0),
        call_ensures(BlockContents::compute_digest, (&b,), digests.1),
    ensures
        digests.0.0@ == sha256_of(bytes.0@),
        digests.1.0@ == sha256_of(bytes.1@),
        bytes.0@ == bytes.1@ ==> digests.0 == digests.1,
        bytes.0@ == bytes.1@ ==> {
            &&& a.parent == b.parent
            &&& a.height == b.height
            &&& a.timestamp == b.timestamp
            &&& a.execution_requests@.len() == b.execution_requests@.len()
            &&& forall|i: int| 0 <= i < a.execution_requests@.len() ==> (#[trigger] a.execution_requests@[i])@ == b.execution_requests@[i]@
            &&& a.block_value == b.block_value
            &&& a.payload.parent_hash == b.payload.parent_hash
            &&& a.payload.fee_recipient == b.payload.fee_recipient
            &&& a.payload.state_root == b.payload.state_root
            &&& a.payload.receipts_root == b.payload.receipts_root
            &&& a.payload.logs_bloom == b.payload.logs_bloom
            &&& a.payload.prev_randao == b.payload.prev_randao
            &&& a.payload.block_number == b.payload.block_number
            &&& a.payload.gas_limit == b.payload.gas_limit
            &&& a.payload.gas_used == b.payload.gas_used
            &&& a.payload.timestamp == b.payload.timestamp
            &&& a.payload.extra_data@ == b.payload.extra_data@
            &&& a.payload.base_fee_per_gas == b.payload.base_fee_per_gas
            &&& a.payload.block_hash == b.payload.block_hash
            &&& a.payload.transactions@.len() == b.payload.transactions@.len()
            &&& forall|i: int| 0 <= i < a.payload.transactions@.len() ==> (#[trigger] a.payload.transactions@[i])@ == b.payload.transactions@[i]@
            &&& a.payload.withdrawals@ == b.payload.withdrawals@
            &&& a.payload.blob_gas_used == b.payload.blob_gas_used
            &&& a.payload.excess_blob_gas == b.payload.excess_blob_gas
        },
{
    assert(bytes.0.len() <= u64::MAX);
    if bytes.0@ == bytes.1@ {
        assert(digests.0.0 =~= digests.1.0);
        law_bytes_tell_every_field(a, b);
    }
}

/// A block that is sealed says what its contents say and goes by the digest that it was given.
pub proof fn law_sealed_blocks_say_what_they_hold(contents: BlockContents, digest: Digest, block: Block)
    requires
        call_ensures(Block::seal, (contents, digest), block),
    ensures
        block.digest == digest,
        block.parent == contents.parent,
        block.height == contents.height,
        block.timestamp == contents.timestamp,
        block.payload == contents.payload,
        block.execution_requests == contents.execution_requests,
        block.block_value == contents.block_value,
{
}

/// The first block of a chain goes by the genesis hash, in consensus and at the execution client,
/// and is empty, at height and time zero.
pub proof fn law_chains_start_at_their_hash(
    genesis_hash: Digest,
    block: Block,
    hash: [u8; 32],
    parent_hash: [u8; 32],
    i: int,
)
    requires
        call_ensures(Block::genesis, (genesis_hash,), block),
        call_ensures(Block::eth_block_hash, (&block,), hash),
        call_ensures(Block::eth_parent_hash, (&block,), parent_hash),
        0 <= i < 32,
    ensures
        block.digest == genesis_hash,
        hash == genesis_hash.0,
        hash == block.payload.block_hash,
        parent_hash == block.payload.parent_hash,
        parent_hash@[i] == 0,
        block.parent.0@[i] == 0,
        block.height == 0,
        block.timestamp == 0,
        block.payload.transactions@.len() == 0,
        block.payload.withdrawals@.len() == 0,
        block.execution_requests@.len() == 0,
{
    assert(block.parent.0@.len() == 32);
    assert(block.payload.parent_hash@.len() == 32);
}

/// The hashes of a block at the execution client are those of its payload.
pub proof fn law_hashes_are_of_the_payload(block: Block, hash: [u8; 32], parent_hash: [u8; 32])
    requires
        call_ensures(Block::eth_block_hash, (&block,), hash),
        call_ensures(Block::eth_parent_hash, (&block,), parent_hash),
    ensures
        hash == block.payload.block_hash,
        parent_hash == block.payload.parent_hash,
{
}

/// A committee lists the keys of its validators in their order, and finds for a key the address of
/// the first validator that is listed with it, and none if none is.
pub proof fn law_committees_know_their_validators(
    committee: GenesisCommittee,
    key: PublicKey,
    peers: Vec<PublicKey>,
    address: Option<SocketAddr>,
    i: int,
)
    requires
        call_ensures(GenesisCommittee::peers, (&committee,), peers),
        call_ensures(GenesisCommittee::ip_of, (&committee, &key), address),
    ensures
        peers@.len() == committee.validators@.len(),
        0 <= i < peers@.len() ==> peers@[i] == committee.validators@[i].0,
        address is Some <==> exists|j: int|
            0 <= j < committee.validators@.len() && (#[trigger] committee.validators@[j]).0 == key,
        address matches Some(address) ==> exists|j: int|
            0 <= j < committee.validators@.len() && #[trigger] committee.validators@[j] == (key, address)
                && forall|earlier: int|
                0 <= earlier < j ==> (#[trigger] committee.validators@[earlier]).0 != key,
{
    law_addresses_are_listed(committee, key);
    if 0 <= i < committee.validators@.len() {
        law_keys_are_in_place(committee, i);
    }
}

/// Two values are told to be the same if and only if they are.
pub proof fn law_equal_values_are_told(
    bytes: (&[u8], &[u8]),
    words: ([u8; 32], [u8; 32]),
    digests: (Digest, Digest),
    keys: (PublicKey, PublicKey),
    same: (bool, bool, bool, bool),
)
    requires
        call_ensures(bytes_equal, (bytes.0, bytes.1), same.0),
        call_ensures(words_equal, (&words.0, &words.1), same.1),
        call_ensures(Digest::equals, (&digests.0, &digests.1), same.2),
        call_ensures(PublicKey::equals, (&keys.0, &keys.1), same.3),
    ensures
        same.0 <==> bytes.0@ == bytes.1@,
        same.1 <==> words.0 == words.1,
        same.2 <==> digests.0 == digests.1,
        same.3 <==> keys.0 == keys.1,
{
}

/// A number and a word are read from their own bytes, and from nothing of another length.
pub proof fn law_plain_values_are_read(bytes: &[u8], n: Option<u64>, w: Option<[u8; 32]>)
    requires
        call_ensures(number, (bytes,), n),
        call_ensures(word, (bytes,), w),
    ensures
        bytes@.len() == 8 <==> n is Some,
        n matches Some(n) ==> spec_u64_to_le_bytes(n) == bytes@,
        bytes@.len() == 32 <==> w is Some,
        w matches Some(w) ==> w@ == bytes@,
{
    vstd::bytes::lemma_auto_spec_u64_to_from_le_bytes();
    if let Some(w) = w {
        assert(w@.len() == 32);
    }
}

/// Bytes that are written in hexadecimal digits, with or without `0x` in front, are read back.
pub proof fn law_hex_texts_are_read_back(bytes: Seq<u8>, digits: Seq<char>, text: &str, read: Option<Vec<u8>>)
    requires
        digits.len() == 2 * bytes.len(),
        forall|i: int|
            0 <= i < bytes.len() ==> is_digit_of(digits[2 * i], #[trigger] bytes[i] as int / 16)
                && is_digit_of(digits[2 * i + 1], bytes[i] as int % 16),
        text@ == digits || text@ == seq!['0', 'x'] + digits,
        call_ensures(hex_bytes, (text,), read),
    ensures
        read matches Some(read) && read@ == bytes,
{
    law_hex_is_read_back(bytes, digits);
}

} // verus!
