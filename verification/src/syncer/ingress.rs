//! The messages by which the application reaches the syncer.

use vstd::prelude::*;

use crate::types::{Block, BlockRequest, Digest};

verus! {

/// A request of the application to the syncer. `R` is what an answer is given through.
#[derive(Clone, Debug, PartialEq, Eq)]
pub enum Message<R> {
    /// Asks for a block.
    Get { request: BlockRequest, response: R },
    /// Asks that a block be sent to the other participants.
    Broadcast { payload: Block },
    /// Asks that a block be stored as verified in a view.
    StoreVerified { view: u64, payload: Block },
}

/// The syncer as the application sees it: each call becomes the message to deliver.
pub struct Mailbox;

impl Mailbox {
    /// The message that asks for the block with the given digest, to be answered through the given
    /// response. The view is the one in which it was notarized, where that is known.
    pub fn get<R>(view: Option<u64>, payload: Digest, response: R) -> (message: Message<R>)
        ensures
            message == (Message::Get { request: BlockRequest { view, payload }, response }),
    {
        Message::Get { request: BlockRequest { view, payload }, response }
    }

    /// The message that asks that a block be sent to the other participants.
    pub fn broadcast<R>(payload: Block) -> (message: Message<R>)
        ensures
            message == (Message::<R>::Broadcast { payload }),
    {
        Message::Broadcast { payload }
    }

    /// The message that asks that a block be stored as verified in a view.
    pub fn store_verified<R>(view: u64, payload: Block) -> (message: Message<R>)
        ensures
            message == (Message::<R>::StoreVerified { view, payload }),
    {
        Message::StoreVerified { view, payload }
    }
}

} // verus!
