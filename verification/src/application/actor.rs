//! What the application decides: which block to propose, which to vote for, which to relay.
//!
//! The actor performs no I/O. It answers each message of consensus with what is to be done, and a
//! proposal, which waits for other parts of the node several times, advances from one outcome of
//! such work to the next.

use vstd::prelude::*;

use vstd::relations::sorted_by;

use crate::application::config::ApplicationConfig;
use crate::application::engine_client::{EngineClient, EngineClientError};
use crate::application::ingress::Message;
use crate::application::supervisor::{key_order, Supervisor};
use crate::outside::{jwt_secret_from_hex, url_from_text};
use crate::types::{
    words_equal, Block, BlockContents, BlockRequest, Digest, ForkchoiceState, PayloadEnvelope, PayloadId,
    PublicKey,
};

verus! {

/// How long the execution client is given to build a payload, in milliseconds.
pub const BUILD_TIME_MS: u64 = 50;

/// The block that a proposal builds on, as far as the proposal needs it.
#[derive(Clone, Copy, Debug, PartialEq, Eq)]
pub struct ParentLink {
    pub digest: Digest,
    pub height: u64,
    pub timestamp: u64,
}

/// Where a parent block is to be had.
#[derive(Clone, Copy, Debug, PartialEq, Eq)]
pub enum ParentRequest<'a> {
    /// It is at hand: the genesis block.
    Ready(&'a Block),
    /// It is to be asked of the syncer.
    Get(BlockRequest),
}

/// How far a proposal has come: what it waits for, and what it keeps until then.
#[derive(Clone, Debug, PartialEq, Eq)]
pub enum ProposalState {
    /// It waits for the parent block.
    AwaitingParent,
    /// It waits until the finalizer has executed the parent.
    AwaitingExecution { parent: ParentLink },
    /// It waits for the time and for the fork choice at that time.
    AwaitingTime { parent: ParentLink },
    /// It waits for the execution client to start building.
    AwaitingPayloadId { parent: ParentLink, timestamp: u64 },
    /// It waits while the execution client builds.
    Building { parent: ParentLink, timestamp: u64, payload_id: PayloadId },
    /// It waits for the payload that was built.
    AwaitingPayload { parent: ParentLink, timestamp: u64 },
    /// It waits for the digest of the block's contents.
    AwaitingDigest { contents: BlockContents },
    /// It is over, with a block or without.
    Finished,
}

/// What happens to a proposal.
#[derive(Clone, Debug, PartialEq, Eq)]
pub enum ProposalEvent<'a> {
    /// The parent block was found.
    Parent(&'a Block),
    /// The finalizer has executed the parent.
    Executed,
    /// The clock shows `now`, in milliseconds, and the node has chosen this fork.
    Time { now: u64, forkchoice: ForkchoiceState },
    /// The execution client has started to build a payload, or has declined.
    PayloadId(Option<PayloadId>),
    /// The time to build is over.
    Built,
    /// The execution client has handed over the payload.
    Payload(PayloadEnvelope),
    /// The digest of the block's contents.
    Digest(Digest),
    /// Consensus no longer waits for the proposal.
    Aborted,
}

/// What is to be done for a proposal.
#[derive(Clone, Debug, PartialEq, Eq)]
pub enum ProposalAction {
    /// Ask the syncer for the parent block.
    GetParent(BlockRequest),
    /// Ask the finalizer to tell when this height is executed.
    AwaitExecution { height: u64 },
    /// Read the clock and the fork choice.
    ReadTime,
    /// Have the execution client build on the fork choice a payload of the given time.
    StartBuilding { forkchoice: ForkchoiceState, timestamp: u64 },
    /// Wait this many milliseconds.
    Sleep { millis: u64 },
    /// Fetch the payload from the execution client.
    GetPayload { payload_id: PayloadId },
    /// Compute the digest of the contents that the proposal now holds.
    ComputeDigest,
    /// Answer consensus with the digest of the block.
    Respond { digest: Digest },
    /// Give up: the execution client builds no payload. Consensus gets no answer.
    Fail,
    /// Nothing is to be done.
    Nothing,
}

/// What is to be done for a message of consensus.
#[derive(Clone, Debug, PartialEq, Eq)]
pub enum Reaction<'a> {
    /// Answer with the digest of the genesis block.
    SendGenesis { digest: Digest },
    /// Start a proposal.
    Propose { view: u64, state: ProposalState, action: ProposalAction },
    /// Hand the built block to the syncer to broadcast. `expected` tells whether it is the block
    /// that consensus named.
    Broadcast { block: &'a Block, expected: bool },
    /// Get the parent and the block, to verify the one against the other.
    Verify { view: u64, parent: ParentRequest<'a>, block: BlockRequest },
    /// Have the finalizer execute the block, which a quorum finalized.
    Finalize(BlockRequest),
    /// Nothing is to be done.
    Nothing,
}

/// How the wait for the two blocks of a verification ends.
#[derive(Clone, Debug, PartialEq, Eq)]
pub enum VerifyEvent<'a> {
    /// Both blocks were found.
    Blocks { parent: &'a Block, block: Block },
    /// Consensus no longer waits for the vote.
    Aborted,
}

/// What is to be done when a verification ends.
#[derive(Clone, Debug, PartialEq, Eq)]
pub enum VerifyAction {
    /// Have the syncer store the block as verified in the view, then vote for it.
    StoreAndAccept { view: u64, block: Block },
    /// Vote against the block.
    Reject,
    /// Nothing is to be done.
    Nothing,
}

/// The application's part of the node: the genesis block it starts from and the last block that
/// it built.
pub struct Actor {
    pub genesis_hash: Digest,
    pub genesis: Block,
    pub built_block: Option<Block>,
}

/// `block` may follow `parent`: it names it as its parent, its payload builds on the parent's
/// payload, it is one higher, and later.
pub open spec fn valid_child(block: Block, parent: Block) -> bool {
    &&& block.payload.parent_hash == parent.payload.block_hash
    &&& block.parent == parent.digest
    &&& block.height == parent.height + 1
    &&& block.timestamp > parent.timestamp
}

/// The height above the parent is looked at only where the two blocks are linked; there it has
/// to be a height.
pub open spec fn has_next_height(block: Block, parent: Block) -> bool {
    block.payload.parent_hash == parent.payload.block_hash && block.parent == parent.digest
        ==> parent.height < u64::MAX
}

/// The part of a block that a proposal on top of it needs.
pub open spec fn link_to(parent: Block) -> ParentLink {
    ParentLink { digest: parent.digest, height: parent.height, timestamp: parent.timestamp }
}

/// Picks the part of a block that a proposal on top of it needs.
fn link(parent: &Block) -> (link: ParentLink)
    ensures
        link == link_to(*parent),
{
    ParentLink { digest: parent.digest, height: parent.height, timestamp: parent.timestamp }
}

/// The time of a block that is proposed at `now`: that time, or the first one after its parent
/// if the clock has not got there yet.
pub open spec fn proposal_time(now: u64, parent_timestamp: u64) -> int {
    if now <= parent_timestamp {
        parent_timestamp + 1
    } else {
        now as int
    }
}

/// The contents of a block with the given payload on top of the given parent.
pub open spec fn contents_on(parent: ParentLink, timestamp: u64, envelope: PayloadEnvelope) -> BlockContents {
    BlockContents {
        parent: parent.digest,
        height: (parent.height + 1) as u64,
        timestamp,
        payload: envelope.execution_payload,
        execution_requests: envelope.execution_requests,
        block_value: envelope.block_value,
    }
}

impl ProposalState {
    /// The event leads to a time and a height that exist.
    pub open spec fn can_take(self, event: ProposalEvent) -> bool {
        match (self, event) {
            (ProposalState::AwaitingTime { parent }, ProposalEvent::Time { now, .. }) => proposal_time(
                now,
                parent.timestamp,
            ) <= u64::MAX,
            (ProposalState::AwaitingPayload { parent, .. }, ProposalEvent::Payload(_)) => parent.height
                < u64::MAX,
            _ => true,
        }
    }

    /// Tells whether the event leads to a time and a height that exist.
    pub fn takes(&self, event: &ProposalEvent) -> (takes: bool)
        ensures
            takes == self.can_take(*event),
    {
        match (self, event) {
            (ProposalState::AwaitingTime { parent }, ProposalEvent::Time { now, .. }) => *now > parent.timestamp
                || parent.timestamp < u64::MAX,
            (ProposalState::AwaitingPayload { parent, .. }, ProposalEvent::Payload(_)) => parent.height
                < u64::MAX,
            _ => true,
        }
    }

    /// Where an event takes a proposal. An event that the proposal does not wait for leaves it
    /// where it is.
    pub open spec fn after(self, event: ProposalEvent) -> ProposalState {
        match (self, event) {
            (_, ProposalEvent::Aborted) => ProposalState::Finished,
            (ProposalState::AwaitingParent, ProposalEvent::Parent(parent)) => ProposalState::AwaitingExecution {
                parent: link_to(*parent),
            },
            (ProposalState::AwaitingExecution { parent }, ProposalEvent::Executed) => ProposalState::AwaitingTime {
                parent,
            },
            (ProposalState::AwaitingTime { parent }, ProposalEvent::Time { now, .. }) => ProposalState::AwaitingPayloadId {
                parent,
                timestamp: proposal_time(now, parent.timestamp) as u64,
            },
            (
                ProposalState::AwaitingPayloadId { parent, timestamp },
                ProposalEvent::PayloadId(Some(payload_id)),
            ) => ProposalState::Building { parent, timestamp, payload_id },
            (ProposalState::AwaitingPayloadId { .. }, ProposalEvent::PayloadId(None)) => ProposalState::Finished,
            (ProposalState::Building { parent, timestamp, .. }, ProposalEvent::Built) => ProposalState::AwaitingPayload {
                parent,
                timestamp,
            },
            (ProposalState::AwaitingPayload { parent, timestamp }, ProposalEvent::Payload(envelope)) => ProposalState::AwaitingDigest {
                contents: contents_on(parent, timestamp, envelope),
            },
            (ProposalState::AwaitingDigest { .. }, ProposalEvent::Digest(_)) => ProposalState::Finished,
            _ => self,
        }
    }

    /// What is to be done when an event reaches a proposal.
    pub open spec fn action_on(self, event: ProposalEvent) -> ProposalAction {
        match (self, event) {
            (ProposalState::AwaitingParent, ProposalEvent::Parent(parent)) => ProposalAction::AwaitExecution {
                height: parent.height,
            },
            (ProposalState::AwaitingExecution { .. }, ProposalEvent::Executed) => ProposalAction::ReadTime,
            (ProposalState::AwaitingTime { parent }, ProposalEvent::Time { now, forkchoice }) => ProposalAction::StartBuilding {
                forkchoice,
                timestamp: proposal_time(now, parent.timestamp) as u64,
            },
            (ProposalState::AwaitingPayloadId { .. }, ProposalEvent::PayloadId(Some(_))) => ProposalAction::Sleep {
                millis: BUILD_TIME_MS,
            },
            (ProposalState::AwaitingPayloadId { .. }, ProposalEvent::PayloadId(None)) => ProposalAction::Fail,
            (ProposalState::Building { payload_id, .. }, ProposalEvent::Built) => ProposalAction::GetPayload {
                payload_id,
            },
            (ProposalState::AwaitingPayload { .. }, ProposalEvent::Payload(_)) => ProposalAction::ComputeDigest,
            (ProposalState::AwaitingDigest { .. }, ProposalEvent::Digest(digest)) => ProposalAction::Respond {
                digest,
            },
            _ => ProposalAction::Nothing,
        }
    }

    /// The block that an event completes, if it completes one.
    pub open spec fn completes(self, event: ProposalEvent) -> Option<Block> {
        match (self, event) {
            (ProposalState::AwaitingDigest { contents }, ProposalEvent::Digest(digest)) => Some(
                Block::sealed(contents, digest),
            ),
            _ => None,
        }
    }
}

/// Tells whether `block` can be verified against `parent`: whether a height above the parent
/// exists, where it is looked at.
pub fn can_verify(block: &Block, parent: &Block) -> (can: bool)
    ensures
        can == has_next_height(*block, *parent),
{
    parent.height < u64::MAX || !words_equal(&block.eth_parent_hash(), &parent.eth_block_hash())
        || !block.parent.equals(&parent.digest)
}

/// Decides whether `block` may follow `parent`.
pub fn handle_verify(block: &Block, parent: &Block) -> (valid: bool)
    requires
        has_next_height(*block, *parent),
    ensures
        valid == valid_child(*block, *parent),
{
    if !words_equal(&block.eth_parent_hash(), &parent.eth_block_hash()) {
        return false;
    }
    if !block.parent.equals(&parent.digest) {
        return false;
    }
    if block.height != parent.height + 1 {
        return false;
    }
    if block.timestamp <= parent.timestamp {
        return false;
    }
    true
}

/// Ends a verification in a view: a block that may follow its parent is stored and voted for,
/// another is voted against, and an aborted verification has no consequence.
pub fn conclude_verify(view: u64, event: VerifyEvent) -> (action: VerifyAction)
    requires
        event matches VerifyEvent::Blocks { parent, block } ==> has_next_height(block, *parent),
    ensures
        action == (match event {
            VerifyEvent::Blocks { parent, block } => if valid_child(block, *parent) {
                VerifyAction::StoreAndAccept { view, block }
            } else {
                VerifyAction::Reject
            },
            VerifyEvent::Aborted => VerifyAction::Nothing,
        }),
{
    match event {
        VerifyEvent::Blocks { parent, block } => {
            if handle_verify(&block, parent) {
                VerifyAction::StoreAndAccept { view, block }
            } else {
                VerifyAction::Reject
            }
        },
        VerifyEvent::Aborted => VerifyAction::Nothing,
    }
}

/// The fork choice of a chain that holds nothing but its genesis.
pub open spec fn genesis_forkchoice(genesis_hash: Digest) -> ForkchoiceState {
    ForkchoiceState {
        head_block_hash: genesis_hash.0,
        safe_block_hash: genesis_hash.0,
        finalized_block_hash: genesis_hash.0,
    }
}

/// These are the parts of the configured application on the chain with the given genesis hash,
/// before it has built anything.
pub open spec fn starts_application(
    application: (Actor, EngineClient, ForkchoiceState, Supervisor),
    cfg: ApplicationConfig,
    genesis_hash: Digest,
) -> bool {
    let (actor, client, forkchoice, supervisor) = application;
    &&& jwt_secret_from_hex(cfg.engine_jwt@) == Some(client.secret@)
    &&& url_from_text(cfg.engine_url@) == Some(client.url@)
    &&& actor.genesis_hash == genesis_hash
    &&& actor.genesis.is_genesis(genesis_hash)
    &&& actor.built_block is None
    &&& forkchoice == genesis_forkchoice(genesis_hash)
    &&& sorted_by(supervisor@, key_order())
    &&& supervisor@.to_multiset() == cfg.participants@.to_multiset()
}

impl Actor {
    /// Where the parent with the given view and digest is to be had.
    pub open spec fn parent_source(&self, parent: (u64, Digest)) -> ParentRequest<'_> {
        if parent.1 == self.genesis_hash {
            ParentRequest::Ready(&self.genesis)
        } else {
            ParentRequest::Get(BlockRequest { view: Some(parent.0), payload: parent.1 })
        }
    }

    /// How a proposal on the given parent starts.
    pub open spec fn first_state(&self, parent: (u64, Digest)) -> ProposalState {
        match self.parent_source(parent) {
            ParentRequest::Ready(block) => ProposalState::AwaitingExecution { parent: link_to(*block) },
            ParentRequest::Get(_) => ProposalState::AwaitingParent,
        }
    }

    /// What is to be done first for a proposal on the given parent.
    pub open spec fn first_action(&self, parent: (u64, Digest)) -> ProposalAction {
        match self.parent_source(parent) {
            ParentRequest::Ready(block) => ProposalAction::AwaitExecution { height: block.height },
            ParentRequest::Get(request) => ProposalAction::GetParent(request),
        }
    }

    /// What is to be done for a message of consensus.
    pub open spec fn reaction_to(&self, message: Message) -> Reaction<'_> {
        match message {
            Message::Genesis => Reaction::SendGenesis { digest: self.genesis_hash },
            Message::Propose { view, parent } => Reaction::Propose {
                view,
                state: self.first_state(parent),
                action: self.first_action(parent),
            },
            Message::Broadcast { payload } => match self.built_block {
                Some(block) => Reaction::Broadcast {
                    block: &block,
                    expected: payload == block.digest,
                },
                None => Reaction::Nothing,
            },
            Message::Verify { view, parent, payload } => Reaction::Verify {
                view,
                parent: self.parent_source(parent),
                block: BlockRequest { view: None, payload },
            },
            Message::Finalize { view, payload, .. } => Reaction::Finalize(
                BlockRequest { view: Some(view), payload },
            ),
        }
    }

    /// Makes the application of the chain with the given genesis hash: the actor, the client of
    /// its execution client, the fork choice to start from, and the supervisor of its participants.
    pub fn new(cfg: ApplicationConfig, genesis_hash: Digest) -> (application: (
        Actor,
        EngineClient,
        ForkchoiceState,
        Supervisor,
    ))
        requires
            jwt_secret_from_hex(cfg.engine_jwt@) is Some,
            url_from_text(cfg.engine_url@) is Some,
        ensures
            starts_application(application, cfg, genesis_hash),
    {
        let client = EngineClient::new(cfg.engine_url, cfg.engine_jwt.as_str());
        let genesis = Block::genesis(genesis_hash);
        let (actor, forkchoice, supervisor) = Actor::at_genesis(cfg.participants, genesis_hash, genesis);
        (actor, client, forkchoice, supervisor)
    }

    /// Makes the application of the chain with the given genesis hash, where there can be a client
    /// of its execution client.
    pub fn try_new(cfg: ApplicationConfig, genesis_hash: Digest) -> (application: Result<
        (Actor, EngineClient, ForkchoiceState, Supervisor),
        EngineClientError,
    >)
        ensures
            match application {
                Ok(application) => starts_application(application, cfg, genesis_hash),
                Err(EngineClientError::InvalidSecret) => jwt_secret_from_hex(cfg.engine_jwt@) is None,
                Err(EngineClientError::InvalidUrl) => jwt_secret_from_hex(cfg.engine_jwt@) is Some
                    && url_from_text(cfg.engine_url@) is None,
            },
    {
        match EngineClient::try_new(cfg.engine_url.clone(), cfg.engine_jwt.as_str()) {
            Ok(_) => Ok(Actor::new(cfg, genesis_hash)),
            Err(error) => Err(error),
        }
    }

    /// The actor, the fork choice and the supervisor of an application that has built nothing yet.
    pub fn at_genesis(participants: Vec<PublicKey>, genesis_hash: Digest, genesis: Block) -> (start: (
        Actor,
        ForkchoiceState,
        Supervisor,
    ))
        ensures
            start.0 == (Actor { genesis_hash, genesis, built_block: None }),
            start.1 == genesis_forkchoice(genesis_hash),
            sorted_by(start.2@, key_order()),
            start.2@.to_multiset() == participants@.to_multiset(),
    {
        let forkchoice = ForkchoiceState {
            head_block_hash: genesis_hash.0,
            safe_block_hash: genesis_hash.0,
            finalized_block_hash: genesis_hash.0,
        };
        let supervisor = Supervisor::new(participants);
        (Actor { genesis_hash, genesis, built_block: None }, forkchoice, supervisor)
    }

    /// Finds out where the parent with the given view and digest is to be had.
    pub fn parent_request(&self, parent: (u64, Digest)) -> (request: ParentRequest<'_>)
        ensures
            request == self.parent_source(parent),
    {
        if parent.1.equals(&self.genesis_hash) {
            ParentRequest::Ready(&self.genesis)
        } else {
            ParentRequest::Get(BlockRequest { view: Some(parent.0), payload: parent.1 })
        }
    }

    /// Decides what is to be done for a message of consensus.
    pub fn run(&self, message: Message) -> (reaction: Reaction<'_>)
        ensures
            reaction == self.reaction_to(message),
    {
        match message {
            Message::Genesis => Reaction::SendGenesis { digest: self.genesis_hash },
            Message::Propose { view, parent } => match self.parent_request(parent) {
                ParentRequest::Ready(block) => Reaction::Propose {
                    view,
                    state: ProposalState::AwaitingExecution { parent: link(block) },
                    action: ProposalAction::AwaitExecution { height: block.height },
                },
                ParentRequest::Get(request) => Reaction::Propose {
                    view,
                    state: ProposalState::AwaitingParent,
                    action: ProposalAction::GetParent(request),
                },
            },
            Message::Broadcast { payload } => match &self.built_block {
                Some(block) => Reaction::Broadcast { block, expected: payload.equals(&block.digest) },
                None => Reaction::Nothing,
            },
            Message::Verify { view, parent, payload } => Reaction::Verify {
                view,
                parent: self.parent_request(parent),
                block: BlockRequest { view: None, payload },
            },
            Message::Finalize { view, payload, .. } => Reaction::Finalize(
                BlockRequest { view: Some(view), payload },
            ),
        }
    }

    /// Advances a proposal by an event. The block that completes the proposal is kept as the
    /// built block; no other event touches it.
    pub fn handle_proposal(&mut self, state: ProposalState, event: ProposalEvent) -> (step: (
        ProposalState,
        ProposalAction,
    ))
        requires
            state.can_take(event),
        ensures
            step == (state.after(event), state.action_on(event)),
            *final(self) == (Actor {
                built_block: match state.completes(event) {
                    Some(block) => Some(block),
                    None => old(self).built_block,
                },
                ..*old(self)
            }),
    {
        match (state, event) {
            (_, ProposalEvent::Aborted) => (ProposalState::Finished, ProposalAction::Nothing),
            (ProposalState::AwaitingParent, ProposalEvent::Parent(block)) => (
                ProposalState::AwaitingExecution { parent: link(block) },
                ProposalAction::AwaitExecution { height: block.height },
            ),
            (ProposalState::AwaitingExecution { parent }, ProposalEvent::Executed) => (
                ProposalState::AwaitingTime { parent },
                ProposalAction::ReadTime,
            ),
            (ProposalState::AwaitingTime { parent }, ProposalEvent::Time { now, forkchoice }) => {
                let timestamp: u64 = if now <= parent.timestamp { parent.timestamp + 1 } else { now };
                (
                    ProposalState::AwaitingPayloadId { parent, timestamp },
                    ProposalAction::StartBuilding { forkchoice, timestamp },
                )
            },
            (
                ProposalState::AwaitingPayloadId { parent, timestamp },
                ProposalEvent::PayloadId(Some(payload_id)),
            ) => (
                ProposalState::Building { parent, timestamp, payload_id },
                ProposalAction::Sleep { millis: BUILD_TIME_MS },
            ),
            (ProposalState::AwaitingPayloadId { .. }, ProposalEvent::PayloadId(None)) => (
                ProposalState::Finished,
                ProposalAction::Fail,
            ),
            (ProposalState::Building { parent, timestamp, payload_id }, ProposalEvent::Built) => (
                ProposalState::AwaitingPayload { parent, timestamp },
                ProposalAction::GetPayload { payload_id },
            ),
            (ProposalState::AwaitingPayload { parent, timestamp }, ProposalEvent::Payload(envelope)) => {
                let contents = BlockContents {
                    parent: parent.digest,
                    height: parent.height + 1,
                    timestamp,
                    payload: envelope.execution_payload,
                    execution_requests: envelope.execution_requests,
                    block_value: envelope.block_value,
                };
                (ProposalState::AwaitingDigest { contents }, ProposalAction::ComputeDigest)
            },
            (ProposalState::AwaitingDigest { contents }, ProposalEvent::Digest(digest)) => {
                self.built_block = Some(Block::seal(contents, digest));
                (ProposalState::Finished, ProposalAction::Respond { digest })
            },
            (state, _) => (state, ProposalAction::Nothing),
        }
    }

    /// Computes the digest that a proposal waits for, and completes the proposal with it.
    pub fn complete_proposal(&mut self, contents: BlockContents) -> (step: (ProposalState, ProposalAction))
        ensures
            step.0 == ProposalState::Finished,
            step.1 matches ProposalAction::Respond { digest } && digest.0@ == contents.digest()
                && *final(self) == (Actor {
                built_block: Some(Block::sealed(contents, digest)),
                ..*old(self)
            }),
    {
        let digest = contents.compute_digest();
        self.handle_proposal(ProposalState::AwaitingDigest { contents }, ProposalEvent::Digest(digest))
    }
}

/// Where a series of events takes a proposal, and the built block with it.
pub open spec fn drive(
    state: ProposalState,
    built: Option<Block>,
    events: Seq<ProposalEvent<'_>>,
) -> (ProposalState, Option<Block>)
    decreases events.len(),
{
    if events.len() == 0 {
        (state, built)
    } else {
        let completed = state.completes(events[0]);
        drive(
            state.after(events[0]),
            if completed is Some {
                completed
            } else {
                built
            },
            events.drop_first(),
        )
    }
}

/// A proposal that goes through ends with the block that extends its parent: it names the parent,
/// is one higher and strictly later, takes the clock's time unless the parent is ahead of the
/// clock, and carries the payload that the execution client built.
pub proof fn law_proposal_extends_its_parent(
    parent: Block,
    now: u64,
    forkchoice: ForkchoiceState,
    payload_id: PayloadId,
    envelope: PayloadEnvelope,
    digest: Digest,
    built: Option<Block>,
)
    requires
        parent.height < u64::MAX,
        proposal_time(now, parent.timestamp) <= u64::MAX,
    ensures
        ({
            let (state, block) = drive(
                ProposalState::AwaitingParent,
                built,
                seq![
                    ProposalEvent::Parent(&parent),
                    ProposalEvent::Executed,
                    ProposalEvent::Time { now, forkchoice },
                    ProposalEvent::PayloadId(Some(payload_id)),
                    ProposalEvent::Built,
                    ProposalEvent::Payload(envelope),
                    ProposalEvent::Digest(digest),
                ],
            );
            &&& state == ProposalState::Finished
            &&& block is Some
            &&& block->0.digest == digest
            &&& block->0.parent == parent.digest
            &&& block->0.height == parent.height + 1
            &&& block->0.timestamp > parent.timestamp
            &&& block->0.timestamp >= now
            &&& now > parent.timestamp ==> block->0.timestamp == now
            &&& block->0.payload == envelope.execution_payload
            &&& block->0.execution_requests == envelope.execution_requests
            &&& block->0.block_value == envelope.block_value
        }),
{
    reveal_with_fuel(drive, 8);
    let events = seq![
        ProposalEvent::Parent(&parent),
        ProposalEvent::Executed,
        ProposalEvent::Time { now, forkchoice },
        ProposalEvent::PayloadId(Some(payload_id)),
        ProposalEvent::Built,
        ProposalEvent::Payload(envelope),
        ProposalEvent::Digest(digest),
    ];
    let link = link_to(parent);
    let timestamp = proposal_time(now, parent.timestamp) as u64;
    let contents = contents_on(link, timestamp, envelope);
    assert(drive(ProposalState::AwaitingParent, built, events) == drive(
        ProposalState::AwaitingDigest { contents },
        built,
        events.drop_first().drop_first().drop_first().drop_first().drop_first().drop_first(),
    ));
}

/// A block that a node proposes on top of a parent is voted for by every node that checks it
/// against that parent, so long as the execution client built on the parent's payload.
pub proof fn law_proposals_are_accepted(
    parent: Block,
    timestamp: u64,
    now: u64,
    envelope: PayloadEnvelope,
    digest: Digest,
)
    requires
        parent.height < u64::MAX,
        timestamp == proposal_time(now, parent.timestamp),
        envelope.execution_payload.parent_hash == parent.payload.block_hash,
    ensures
        valid_child(Block::sealed(contents_on(link_to(parent), timestamp, envelope), digest), parent),
{
}

/// The first proposal of a chain is voted for as well: the fork choice that a chain starts from
/// names the payload of the genesis block, so a payload that is built on it follows that block.
pub proof fn law_first_proposal_is_accepted(
    genesis: Block,
    genesis_hash: Digest,
    timestamp: u64,
    now: u64,
    envelope: PayloadEnvelope,
    digest: Digest,
)
    requires
        genesis.is_genesis(genesis_hash),
        timestamp == proposal_time(now, genesis.timestamp),
        envelope.execution_payload.parent_hash == genesis_forkchoice(genesis_hash).head_block_hash,
    ensures
        valid_child(Block::sealed(contents_on(link_to(genesis), timestamp, envelope), digest), genesis),
{
    law_proposals_are_accepted(genesis, timestamp, now, envelope, digest);
}

/// Whatever happens to a proposal short of the digest of its block, an abort included, the block
/// that was built before it stays.
pub proof fn law_unfinished_proposals_build_nothing(
    state: ProposalState,
    built: Option<Block>,
    events: Seq<ProposalEvent<'_>>,
)
    requires
        forall|i: int| 0 <= i < events.len() ==> !(#[trigger] events[i] is Digest),
    ensures
        drive(state, built, events).1 == built,
    decreases events.len(),
{
    if events.len() > 0 {
        assert(!(events[0] is Digest));
        assert forall|i: int| 0 <= i < events.drop_first().len() implies !(#[trigger] events.drop_first()[i] is Digest) by {
            assert(events.drop_first()[i] == events[i + 1]);
        }
        law_unfinished_proposals_build_nothing(state.after(events[0]), built, events.drop_first());
    }
}

/// A proposal that is over stays over: nothing more is done for it and it builds no block.
pub proof fn law_finished_proposals_rest(event: ProposalEvent<'_>)
    ensures
        ProposalState::Finished.after(event) == ProposalState::Finished,
        ProposalState::Finished.action_on(event) == ProposalAction::Nothing,
        ProposalState::Finished.completes(event) is None,
{
}

/// When consensus asks to broadcast the block that it was just told of, that block is what is
/// broadcast.
pub proof fn law_proposed_block_is_broadcast(
    after: Actor,
    state: ProposalState,
    event: ProposalEvent<'_>,
    digest: Digest,
)
    requires
        state.action_on(event) == (ProposalAction::Respond { digest }),
        after.built_block == state.completes(event),
    ensures
        after.built_block is Some,
        after.reaction_to(Message::Broadcast { payload: digest }) == (Reaction::Broadcast {
            block: &after.built_block->0,
            expected: true,
        }),
{
}

/// Each block of the series may follow the one before it.
pub open spec fn verified_chain(blocks: Seq<Block>) -> bool {
    forall|i: int| 0 < i < blocks.len() ==> valid_child(#[trigger] blocks[i], blocks[i - 1])
}

/// Along a chain of verified blocks heights count up one by one and times only grow, so that no
/// block occurs twice.
pub proof fn law_verified_chain_grows(blocks: Seq<Block>, i: int, j: int)
    requires
        verified_chain(blocks),
        0 <= i < j < blocks.len(),
    ensures
        blocks[j].height - blocks[i].height == j - i,
        blocks[i].timestamp < blocks[j].timestamp,
        blocks[i] != blocks[j],
    decreases j - i,
{
    assert(valid_child(blocks[j], blocks[j - 1]));
    if i < j - 1 {
        law_verified_chain_grows(blocks, i, j - 1);
    }
}

/// A block is accepted on top of a parent only if it is linked to that parent: its payload builds
/// on the parent's payload, it names the parent's digest, it stands right above the parent, and it
/// is later. A block of another fork is rejected at every height.
pub proof fn law_accepted_blocks_are_linked(block: Block, parent: Block)
    requires
        valid_child(block, parent),
    ensures
        block.payload.parent_hash == parent.payload.block_hash,
        block.parent == parent.digest,
        block.height - parent.height == 1,
        parent.timestamp < block.timestamp,
{
}

/// A block that is linked to a parent, stands right above it and is later is accepted on top of
/// it, whatever else it says.
pub proof fn law_linked_blocks_are_accepted(block: Block, parent: Block)
    requires
        block.payload.parent_hash == parent.payload.block_hash,
        block.parent == parent.digest,
        block.height - parent.height == 1,
        parent.timestamp < block.timestamp,
    ensures
        valid_child(block, parent),
{
}

/// A block follows one parent only: two blocks on top of which it is accepted have one digest, one
/// height and one payload hash.
pub proof fn law_accepted_blocks_have_one_parent(block: Block, first: Block, second: Block)
    requires
        valid_child(block, first),
        valid_child(block, second),
    ensures
        first.digest == second.digest,
        first.height == second.height,
        first.payload.block_hash == second.payload.block_hash,
{
}

/// Along a chain of verified blocks each block names the one before it, by its digest and by the
/// hash of its payload.
pub proof fn law_verified_chain_is_linked(blocks: Seq<Block>, i: int)
    requires
        verified_chain(blocks),
        0 < i < blocks.len(),
    ensures
        blocks[i].parent == blocks[i - 1].digest,
        blocks[i].payload.parent_hash == blocks[i - 1].payload.block_hash,
        blocks[i].height == blocks[i - 1].height + 1,
        blocks[i].timestamp > blocks[i - 1].timestamp,
{
    assert(valid_child(blocks[i], blocks[i - 1]));
}

/// Every block can be verified against a parent below the last height. Against a parent at the
/// last height only those can that are not linked to it.
pub proof fn law_what_can_be_verified(block: Block, parent: Block)
    ensures
        parent.height < u64::MAX ==> has_next_height(block, parent),
        parent.height == u64::MAX ==> (has_next_height(block, parent) <==> block.parent != parent.digest
            || block.payload.parent_hash != parent.payload.block_hash),
{
}

/// The time of a proposal is the first one that is not before the clock and is after the parent.
pub proof fn law_proposal_time_is_the_first(now: u64, parent_timestamp: u64, other: int)
    ensures
        proposal_time(now, parent_timestamp) >= now,
        proposal_time(now, parent_timestamp) > parent_timestamp,
        other >= now && other > parent_timestamp ==> proposal_time(now, parent_timestamp) <= other,
{
}

/// A proposal that goes through asks for everything it needs once and in order: for the execution
/// of its parent's height, for the clock, for a payload on the fork choice of that moment, for the
/// time to build, for that payload, for the digest; and then it answers with that digest. The time
/// with which the execution client is asked to build is later than the parent, and it is the time
/// of the block that the proposal ends with. That block is on top of the parent and carries the
/// payload.
pub proof fn law_proposal_asks_for_what_it_builds(
    parent: Block,
    now: u64,
    forkchoice: ForkchoiceState,
    payload_id: PayloadId,
    envelope: PayloadEnvelope,
    digest: Digest,
)
    requires
        parent.height < u64::MAX,
        now > parent.timestamp || parent.timestamp < u64::MAX,
    ensures
        ({
            let found = ProposalState::AwaitingParent;
            let fetched = ProposalEvent::Parent(&parent);
            let executing = found.after(fetched);
            let ready = executing.after(ProposalEvent::Executed);
            let time = ProposalEvent::Time { now, forkchoice };
            let asked = ready.after(time);
            let started = ProposalEvent::PayloadId(Some(payload_id));
            let building = asked.after(started);
            let built = building.after(ProposalEvent::Built);
            let handed = ProposalEvent::Payload(envelope);
            let hashing = built.after(handed);
            let hashed = ProposalEvent::Digest(digest);
            &&& found.action_on(fetched) == (ProposalAction::AwaitExecution { height: parent.height })
            &&& executing.action_on(ProposalEvent::Executed) == ProposalAction::ReadTime
            &&& building.action_on(ProposalEvent::Built) == (ProposalAction::GetPayload { payload_id })
            &&& asked.action_on(started) == (ProposalAction::Sleep { millis: 50 })
            &&& built.action_on(handed) == ProposalAction::ComputeDigest
            &&& hashing.action_on(hashed) == (ProposalAction::Respond { digest })
            &&& hashing.after(hashed) == ProposalState::Finished
            &&& hashing.completes(hashed) matches Some(block)
                && ready.action_on(time) == (ProposalAction::StartBuilding {
                forkchoice,
                timestamp: block.timestamp,
            }) && {
                &&& block.timestamp > parent.timestamp
                &&& block.timestamp >= now
                &&& block.timestamp == now || block.timestamp == parent.timestamp + 1
                &&& now > parent.timestamp ==> block.timestamp == now
                &&& block.parent == parent.digest
                &&& block.height == parent.height + 1
                &&& block.digest == digest
                &&& block.payload == envelope.execution_payload
                &&& block.execution_requests == envelope.execution_requests
                &&& block.block_value == envelope.block_value
            }
            &&& found.completes(fetched) is None
            &&& executing.completes(ProposalEvent::Executed) is None
            &&& ready.completes(time) is None
            &&& asked.completes(started) is None
            &&& building.completes(ProposalEvent::Built) is None
            &&& built.completes(handed) is None
            &&& found.can_take(fetched)
            &&& executing.can_take(ProposalEvent::Executed)
            &&& ready.can_take(time)
            &&& asked.can_take(started)
            &&& building.can_take(ProposalEvent::Built)
            &&& built.can_take(handed)
            &&& hashing.can_take(hashed)
        }),
{
}

/// What a proposal holds it keeps, from whatever it holds: the parent that it was given, the time
/// that it chose, the payload that it was promised, and the contents that it made of them.
pub proof fn law_proposals_keep_what_they_hold(
    block: Block,
    parent: ParentLink,
    timestamp: u64,
    now: u64,
    forkchoice: ForkchoiceState,
    payload_id: PayloadId,
    envelope: PayloadEnvelope,
    contents: BlockContents,
    digest: Digest,
)
    ensures
        ({
            let executing = ProposalState::AwaitingExecution { parent };
            let ready = ProposalState::AwaitingTime { parent };
            let asked = ProposalState::AwaitingPayloadId { parent, timestamp };
            let building = ProposalState::Building { parent, timestamp, payload_id };
            let built = ProposalState::AwaitingPayload { parent, timestamp };
            let hashing = ProposalState::AwaitingDigest { contents };
            let time = ProposalEvent::Time { now, forkchoice };
            let started = ProposalEvent::PayloadId(Some(payload_id));
            let handed = ProposalEvent::Payload(envelope);
            let hashed = ProposalEvent::Digest(digest);
            &&& ProposalState::AwaitingParent.after(ProposalEvent::Parent(&block)) matches ProposalState::AwaitingExecution {
                parent: link,
            } && link.digest == block.digest && link.height == block.height && link.timestamp
                == block.timestamp
            &&& ProposalState::AwaitingParent.action_on(ProposalEvent::Parent(&block)) == (
            ProposalAction::AwaitExecution { height: block.height })
            &&& executing.after(ProposalEvent::Executed) == ready
            &&& executing.action_on(ProposalEvent::Executed) == ProposalAction::ReadTime
            &&& (now > parent.timestamp || parent.timestamp < u64::MAX) ==> (ready.after(time) matches ProposalState::AwaitingPayloadId {
                parent: kept,
                timestamp: chosen,
            } && kept == parent && chosen > parent.timestamp && chosen >= now && (chosen == now || chosen
                == parent.timestamp + 1) && (now > parent.timestamp ==> chosen == now)
                && ready.action_on(time) == (ProposalAction::StartBuilding {
                forkchoice,
                timestamp: chosen,
            }))
            &&& asked.after(started) == building
            &&& asked.action_on(started) == (ProposalAction::Sleep { millis: 50 })
            &&& building.after(ProposalEvent::Built) == built
            &&& building.action_on(ProposalEvent::Built) == (ProposalAction::GetPayload { payload_id })
            &&& parent.height < u64::MAX ==> (built.after(handed) matches ProposalState::AwaitingDigest {
                contents: made,
            } && made.parent == parent.digest && made.height == parent.height + 1 && made.timestamp
                == timestamp && made.payload == envelope.execution_payload && made.execution_requests
                == envelope.execution_requests && made.block_value == envelope.block_value)
            &&& built.action_on(handed) == ProposalAction::ComputeDigest
            &&& hashing.after(hashed) == ProposalState::Finished
            &&& hashing.action_on(hashed) == (ProposalAction::Respond { digest })
            &&& hashing.completes(hashed) matches Some(made) && made.digest == digest && made.parent
                == contents.parent && made.height == contents.height && made.timestamp
                == contents.timestamp && made.payload == contents.payload && made.execution_requests
                == contents.execution_requests && made.block_value == contents.block_value
        }),
{
}

/// Only what a proposal waits for moves it on: an abort ends it without consequence wherever it
/// is, an execution client that declines ends it as failed, and any other event that it does not
/// wait for leaves it where it is. None of these builds a block.
pub proof fn law_only_the_awaited_event_counts(state: ProposalState, event: ProposalEvent<'_>)
    ensures
        ({
            let awaited = {
                ||| state is AwaitingParent && event is Parent
                ||| state is AwaitingExecution && event is Executed
                ||| state is AwaitingTime && event is Time
                ||| state is AwaitingPayloadId && event is PayloadId
                ||| state is Building && event is Built
                ||| state is AwaitingPayload && event is Payload
                ||| state is AwaitingDigest && event is Digest
            };
            &&& event is Aborted ==> state.after(event) == ProposalState::Finished && state.action_on(event)
                == ProposalAction::Nothing && state.completes(event) is None
            &&& !(event is Aborted) && !awaited ==> state.after(event) == state && state.action_on(event)
                == ProposalAction::Nothing && state.completes(event) is None
            &&& event == ProposalEvent::PayloadId(None) && state is AwaitingPayloadId ==> state.after(event)
                == ProposalState::Finished && state.action_on(event) == ProposalAction::Fail
                && state.completes(event) is None
            &&& awaited ==> state.after(event) != state && state.action_on(event) != ProposalAction::Nothing
        }),
{
}

/// Consensus is answered if and only if a block is complete, and with the digest of that block.
pub proof fn law_answers_have_blocks(state: ProposalState, event: ProposalEvent<'_>)
    ensures
        state.completes(event) is Some <==> state.action_on(event) is Respond,
        state.completes(event) matches Some(block) ==> state.action_on(event)
            == (ProposalAction::Respond { digest: block.digest }) && event == ProposalEvent::Digest(
            block.digest,
        ),
{
}

/// A proposal takes every event, but for a clock at the end of time behind a parent at the end of
/// time, and a payload on top of a parent at the last height.
pub proof fn law_what_proposals_take(state: ProposalState, event: ProposalEvent<'_>)
    ensures
        !state.can_take(event) <==> {
            ||| state matches ProposalState::AwaitingTime { parent } && event matches ProposalEvent::Time {
                now,
                ..
            } && parent.timestamp == u64::MAX && now <= parent.timestamp
            ||| state matches ProposalState::AwaitingPayload { parent, .. } && event is Payload
                && parent.height == u64::MAX
        },
{
}

/// What is done for each message of consensus, in terms of the message and of what the application
/// holds. A parent is taken from the genesis block if and only if its digest is the genesis hash,
/// and is asked of the syncer, in its view, otherwise. A proposal on the genesis block goes on as
/// if that block had been fetched.
pub proof fn law_messages_are_answered(actor: Actor, view: u64, parent: (u64, Digest), payload: Digest)
    ensures
        actor.reaction_to(Message::Genesis) == (Reaction::SendGenesis { digest: actor.genesis_hash }),
        parent.1 == actor.genesis_hash ==> actor.reaction_to(Message::Propose { view, parent }) == (
        Reaction::Propose {
            view,
            state: ProposalState::AwaitingParent.after(ProposalEvent::Parent(&actor.genesis)),
            action: ProposalAction::AwaitExecution { height: actor.genesis.height },
        }),
        parent.1 != actor.genesis_hash ==> actor.reaction_to(Message::Propose { view, parent }) == (
        Reaction::Propose {
            view,
            state: ProposalState::AwaitingParent,
            action: ProposalAction::GetParent(
                BlockRequest { view: Some(parent.0), payload: parent.1 },
            ),
        }),
        actor.reaction_to(Message::Verify { view, parent, payload }) == (Reaction::Verify {
            view,
            parent: if parent.1 == actor.genesis_hash {
                ParentRequest::Ready(&actor.genesis)
            } else {
                ParentRequest::Get(BlockRequest { view: Some(parent.0), payload: parent.1 })
            },
            block: BlockRequest { view: None, payload },
        }),
        actor.built_block is None ==> actor.reaction_to(Message::Broadcast { payload })
            == Reaction::Nothing,
        actor.built_block matches Some(block) ==> (actor.reaction_to(Message::Broadcast { payload }) matches Reaction::Broadcast {
            block: sent,
            expected,
        } && *sent == block && (expected <==> payload == block.digest)),
        actor.reaction_to(Message::Finalize { view, parent: parent.0, payload }) == Reaction::Finalize(
            BlockRequest { view: Some(view), payload },
        ),
{
}

/// An application starts at its genesis: nothing is built, the head, the safe and the finalized
/// block are all the genesis hash, as is the digest of the genesis block and the hash of its
/// payload, and the participants are those that are configured.
pub proof fn law_applications_start_at_genesis(
    application: (Actor, EngineClient, ForkchoiceState, Supervisor),
    cfg: ApplicationConfig,
    genesis_hash: Digest,
)
    requires
        starts_application(application, cfg, genesis_hash),
    ensures
        application.0.built_block is None,
        application.0.genesis_hash == genesis_hash,
        application.0.genesis.digest == genesis_hash,
        application.0.genesis.payload.block_hash == genesis_hash.0,
        application.0.genesis.height == 0,
        application.0.genesis.timestamp == 0,
        jwt_secret_from_hex(cfg.engine_jwt@) == Some(application.1.secret@),
        url_from_text(cfg.engine_url@) == Some(application.1.url@),
        application.2.head_block_hash == genesis_hash.0,
        application.2.safe_block_hash == genesis_hash.0,
        application.2.finalized_block_hash == genesis_hash.0,
        application.3@.to_multiset() == cfg.participants@.to_multiset(),
        forall|i: int, j: int|
            0 <= i < j < application.3@.len() ==> #[trigger] key_order()(
                application.3@[i],
                application.3@[j],
            ),
{
}

} // verus!
