//! What the finalizer decides: which finalized blocks are still to be fetched, which are executed,
//! and which heights are done.

use vstd::prelude::*;

use crate::application::actor::{valid_child, verified_chain};
use crate::types::{Block, BlockRequest, ForkchoiceState};

verus! {

/// How far the chain is executed.
pub struct Finalizer {
    pub executed: u64,
}

/// The fork choice with the given block as its head, and as all that is safe and finalized.
pub open spec fn forkchoice_at(block: Block) -> ForkchoiceState {
    ForkchoiceState {
        head_block_hash: block.payload.block_hash,
        safe_block_hash: block.payload.block_hash,
        finalized_block_hash: block.payload.block_hash,
    }
}

/// How far the chain is executed after the given blocks have come, in their order: a block above
/// what is executed is executed, another is passed over.
pub open spec fn executed_after(executed: u64, blocks: Seq<Block>) -> u64
    decreases blocks.len(),
{
    if blocks.len() == 0 {
        executed
    } else {
        let before = executed_after(executed, blocks.drop_last());
        if blocks.last().height > before {
            blocks.last().height
        } else {
            before
        }
    }
}

impl Finalizer {
    /// A finalizer of a chain that holds nothing but its genesis.
    pub fn new() -> (finalizer: Finalizer)
        ensures
            finalizer.executed == 0,
    {
        Finalizer { executed: 0 }
    }

    /// The parent of a block, where the block cannot be executed before it: where it is more than
    /// one above what is executed.
    pub fn missing_parent(&self, block: &Block) -> (parent: Option<BlockRequest>)
        ensures
            parent == (if block.height > self.executed + 1 {
                Some(BlockRequest { view: None, payload: block.parent })
            } else {
                None
            }),
    {
        if block.height > self.executed && block.height - self.executed > 1 {
            Some(BlockRequest { view: None, payload: block.parent })
        } else {
            None
        }
    }

    /// Takes in a finalized block: one above what is executed is to be executed, with the given
    /// fork choice as its outcome; another was executed before.
    pub fn finalize(&mut self, block: &Block) -> (forkchoice: Option<ForkchoiceState>)
        ensures
            forkchoice == (if block.height > old(self).executed {
                Some(forkchoice_at(*block))
            } else {
                None
            }),
            final(self).executed == executed_after(old(self).executed, seq![*block]),
    {
        proof {
            reveal_with_fuel(executed_after, 2);
            assert(seq![*block].drop_last() =~= Seq::empty());
        }
        if block.height <= self.executed {
            return None;
        }
        self.executed = block.height;
        let hash = block.eth_block_hash();
        Some(
            ForkchoiceState {
                head_block_hash: hash,
                safe_block_hash: hash,
                finalized_block_hash: hash,
            },
        )
    }

    /// Tells whether a height is executed.
    pub fn is_executed(&self, height: u64) -> (executed: bool)
        ensures
            executed == (height <= self.executed),
    {
        height <= self.executed
    }
}

/// What is executed stays executed, whatever blocks come.
pub proof fn law_execution_never_goes_back(executed: u64, blocks: Seq<Block>)
    ensures
        executed <= executed_after(executed, blocks),
    decreases blocks.len(),
{
    if blocks.len() > 0 {
        law_execution_never_goes_back(executed, blocks.drop_last());
    }
}

/// A chain of verified blocks that starts right above what is executed is executed whole and in
/// order: before each block the one below it is the last that was executed, and after the chain
/// its last block is.
pub proof fn law_chains_are_executed_in_order(executed: u64, blocks: Seq<Block>)
    requires
        verified_chain(blocks),
        blocks.len() > 0 ==> blocks[0].height == executed + 1,
    ensures
        executed_after(executed, blocks) == executed + blocks.len(),
        forall|i: int|
            0 <= i < blocks.len() ==> (#[trigger] blocks[i]).height == executed_after(
                executed,
                blocks.take(i),
            ) + 1,
    decreases blocks.len(),
{
    if blocks.len() > 0 {
        let n = blocks.len() - 1;
        let shorter = blocks.drop_last();
        assert(shorter =~= blocks.take(n));
        assert forall|i: int| 0 < i < shorter.len() implies valid_child(
            #[trigger] shorter[i],
            shorter[i - 1],
        ) by {
            assert(valid_child(blocks[i], blocks[i - 1]));
        }
        law_chains_are_executed_in_order(executed, shorter);
        if n > 0 {
            assert(valid_child(blocks[n], blocks[n - 1]));
            assert(shorter[n - 1].height == executed_after(executed, shorter.take(n - 1)) + 1);
            assert(shorter.drop_last() =~= shorter.take(n - 1));
        }
        assert forall|i: int| 0 <= i < blocks.len() implies (#[trigger] blocks[i]).height == executed_after(
            executed,
            blocks.take(i),
        ) + 1 by {
            if i < n {
                assert(shorter[i] == blocks[i]);
                assert(shorter.take(i) =~= blocks.take(i));
            }
        }
    }
}

/// The fork choice of a finalized block names the hash of its payload throughout.
pub proof fn law_forkchoice_names_the_block(block: Block)
    ensures
        forkchoice_at(block).head_block_hash == block.payload.block_hash,
        forkchoice_at(block).safe_block_hash == block.payload.block_hash,
        forkchoice_at(block).finalized_block_hash == block.payload.block_hash,
{
}

/// What is executed is the highest of what was executed before and of the blocks that came,
/// whatever their order.
pub proof fn law_highest_block_is_executed(executed: u64, blocks: Seq<Block>)
    ensures
        executed_after(executed, blocks) >= executed,
        forall|i: int|
            0 <= i < blocks.len() ==> (#[trigger] blocks[i]).height <= executed_after(executed, blocks),
        executed_after(executed, blocks) == executed || exists|i: int|
            0 <= i < blocks.len() && (#[trigger] blocks[i]).height == executed_after(executed, blocks),
    decreases blocks.len(),
{
    if blocks.len() > 0 {
        let shorter = blocks.drop_last();
        law_highest_block_is_executed(executed, shorter);
        assert forall|i: int| 0 <= i < blocks.len() implies (#[trigger] blocks[i]).height
            <= executed_after(executed, blocks) by {
            if i < shorter.len() {
                assert(shorter[i] == blocks[i]);
            }
        }
        if executed_after(executed, blocks) != executed {
            if blocks.last().height == executed_after(executed, blocks) {
                assert(blocks[blocks.len() - 1].height == executed_after(executed, blocks));
            } else {
                let i = choose|i: int|
                    0 <= i < shorter.len() && (#[trigger] shorter[i]).height == executed_after(
                        executed,
                        shorter,
                    );
                assert(blocks[i].height == executed_after(executed, blocks));
            }
        }
    }
}

} // verus!
