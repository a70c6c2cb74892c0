//! The messages by which consensus reaches the application.

use vstd::prelude::*;

use crate::types::Digest;

verus! {

/// A request of consensus to the application.
#[derive(Clone, Copy, Debug, PartialEq, Eq)]
pub enum Message {
    /// Asks for the digest of the genesis block.
    Genesis,
    /// Asks for a block to propose in a view, on top of the given parent.
    Propose { view: u64, parent: (u64, Digest) },
    /// Asks that a proposed block be sent to the other participants.
    Broadcast { payload: Digest },
    /// Asks whether a proposed block may be voted for.
    Verify { view: u64, parent: (u64, Digest), payload: Digest },
    /// Tells that a quorum finalized a proposal.
    Finalize { view: u64, parent: u64, payload: Digest },
}

/// What consensus says of the view that it is in: its number, and the view and digest of the
/// parent to build on.
#[derive(Clone, Copy, Debug, PartialEq, Eq)]
pub struct Context {
    pub view: u64,
    pub parent: (u64, Digest),
}

/// What is voted on in a view.
#[derive(Clone, Copy, Debug, PartialEq, Eq)]
pub struct Proposal {
    pub view: u64,
    pub parent: u64,
    pub payload: Digest,
}

/// What consensus reports to have seen.
#[derive(Clone, Copy, Debug, PartialEq, Eq)]
pub enum Activity {
    /// One participant notarized a proposal.
    Notarize { proposal: Proposal },
    /// A quorum notarized a proposal.
    Notarization { proposal: Proposal },
    /// One participant voted to skip a view.
    Nullify { view: u64 },
    /// A quorum voted to skip a view.
    Nullification { view: u64 },
    /// One participant finalized a proposal.
    Finalize { proposal: Proposal },
    /// A quorum finalized a proposal.
    Finalization { proposal: Proposal },
    /// A participant notarized two proposals in one view.
    ConflictingNotarize { view: u64 },
    /// A participant finalized two proposals in one view.
    ConflictingFinalize { view: u64 },
    /// A participant both skipped a view and finalized a proposal in it.
    NullifyFinalize { proposal: Proposal },
}

/// The application as consensus sees it: each call of consensus becomes the message to deliver.
pub struct Mailbox;

impl Mailbox {
    /// The message that asks for the digest of the genesis block.
    pub fn genesis() -> (message: Message)
        ensures
            message == Message::Genesis,
    {
        Message::Genesis
    }

    /// The message that asks for a block to propose.
    pub fn propose(context: Context) -> (message: Message)
        ensures
            message == (Message::Propose { view: context.view, parent: context.parent }),
    {
        Message::Propose { view: context.view, parent: context.parent }
    }

    /// The message that asks whether a proposed block may be voted for.
    pub fn verify(context: Context, payload: Digest) -> (message: Message)
        ensures
            message == (Message::Verify { view: context.view, parent: context.parent, payload }),
    {
        Message::Verify { view: context.view, parent: context.parent, payload }
    }

    /// The message that a reported activity calls for.
    ///
    /// Only what a quorum finalized reaches the application; consensus has checked the votes of
    /// such a report, so nothing is checked again.
    pub fn report(activity: Activity) -> (message: Option<Message>)
        ensures
            message == (match activity {
                Activity::Finalization { proposal } => Some(
                    Message::Finalize {
                        view: proposal.view,
                        parent: proposal.parent,
                        payload: proposal.payload,
                    },
                ),
                _ => None,
            }),
    {
        match activity {
            Activity::Finalization { proposal } => Some(
                Message::Finalize {
                    view: proposal.view,
                    parent: proposal.parent,
                    payload: proposal.payload,
                },
            ),
            Activity::Notarize { .. }
            | Activity::Notarization { .. }
            | Activity::Nullify { .. }
            | Activity::Nullification { .. }
            | Activity::Finalize { .. }
            | Activity::ConflictingNotarize { .. }
            | Activity::ConflictingFinalize { .. }
            | Activity::NullifyFinalize { .. } => None,
        }
    }

    /// The message that asks that a proposed block be sent to the other participants.
    pub fn broadcast(digest: Digest) -> (message: Message)
        ensures
            message == (Message::Broadcast { payload: digest }),
    {
        Message::Broadcast { payload: digest }
    }
}

} // verus!
