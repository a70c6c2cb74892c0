//! What the calls of the application give back, and how calls relate to one another.
//!
//! Each law speaks of calls that were made: of what went into them and of what came back.

use vstd::prelude::*;

use vstd::arithmetic::div_mod::{lemma_mod_bound, lemma_small_mod};
use vstd::relations::sorted_by;

use crate::application::actor::{
    can_verify, conclude_verify, handle_verify, Actor, ParentLink, ParentRequest, ProposalAction, ProposalEvent,
    ProposalState, Reaction, VerifyAction, VerifyEvent,
};
use crate::application::config::ApplicationConfig;
use crate::application::engine_client::{EngineClient, EngineClientError, EngineRequest};
use crate::application::finalizer::{executed_after, law_highest_block_is_executed, Finalizer};
use crate::application::ingress::{Activity, Context, Mailbox, Message};
use crate::application::supervisor::{
    key_order, leader_of, law_committee_order_is_shared, law_each_participant_leads_once, law_leader_stands_at_the_view,
    law_numbers_are_last_places, law_numbers_are_places, Supervisor,
};
use crate::outside::{jwt_secret_from_hex, sha256_of, url_from_text};
use crate::types::{
    Block, BlockContents, BlockRequest, Digest, ForkchoiceState, PayloadEnvelope, PayloadId, PublicKey,
};

verus! {

/// A block gets a vote if and only if it is linked to the parent that it was checked against: its
/// payload builds on that parent's payload, it names that parent's digest, and it stands right
/// above it and later.
pub proof fn law_votes_go_to_linked_blocks(block: Block, parent: Block, valid: bool)
    requires
        call_ensures(handle_verify, (&block, &parent), valid),
    ensures
        valid <==> {
            &&& block.payload.parent_hash == parent.payload.block_hash
            &&& block.parent == parent.digest
            &&& block.height - parent.height == 1
            &&& block.timestamp > parent.timestamp
        },
{
}

/// A verification stores and accepts the block that was checked, in the view that it was checked
/// for, if and only if that block is linked to its parent; otherwise it rejects. An aborted one
/// does nothing.
pub proof fn law_only_linked_blocks_are_stored(
    view: u64,
    block: Block,
    parent: Block,
    action: VerifyAction,
    aborted: VerifyAction,
)
    requires
        call_ensures(conclude_verify, (view, VerifyEvent::Blocks { parent: &parent, block }), action),
        call_ensures(conclude_verify, (view, VerifyEvent::Aborted), aborted),
    ensures
        action == (VerifyAction::StoreAndAccept { view, block }) || action == VerifyAction::Reject,
        action is StoreAndAccept <==> {
            &&& block.payload.parent_hash == parent.payload.block_hash
            &&& block.parent == parent.digest
            &&& block.height - parent.height == 1
            &&& block.timestamp > parent.timestamp
        },
        aborted == VerifyAction::Nothing,
{
}

/// In a series of blocks each of which was voted for on top of the one before it, each names the
/// one before it, and each stands as far above the first as its place in the series.
pub proof fn law_voted_chains_are_linked(blocks: Seq<Block>, i: int)
    requires
        forall|j: int|
            #![trigger blocks[j]]
            0 < j < blocks.len() ==> call_ensures(handle_verify, (&blocks[j], &blocks[j - 1]), true),
        0 < i < blocks.len(),
    ensures
        blocks[i].parent == blocks[i - 1].digest,
        blocks[i].payload.parent_hash == blocks[i - 1].payload.block_hash,
        blocks[i].height == blocks[0].height + i,
        blocks[i].timestamp > blocks[0].timestamp,
    decreases i,
{
    assert(call_ensures(handle_verify, (&blocks[i], &blocks[i - 1]), true));
    if i > 1 {
        law_voted_chains_are_linked(blocks, i - 1);
    }
}

/// Every block can be checked against a parent below the last height.
pub proof fn law_blocks_can_be_checked(block: Block, parent: Block, can: bool)
    requires
        call_ensures(can_verify, (&block, &parent), can),
    ensures
        can <==> parent.height < u64::MAX || block.parent != parent.digest || block.payload.parent_hash
            != parent.payload.block_hash,
{
}

/// The calls that take a proposal from its parent to its block: each is made in the state that the
/// one before it left, and does what this says. The time with which the execution client is asked
/// to build is the time of the block; it is later than the parent, and it is the clock's unless the
/// parent is ahead of the clock. Nothing is built before the last call, which builds the block on
/// top of the parent, with the payload that was handed over, and answers with its digest.
pub proof fn law_proposals_run_their_course(
    actors: (&mut Actor, &mut Actor, &mut Actor, &mut Actor, &mut Actor, &mut Actor, &mut Actor),
    steps: Seq<(ProposalState, ProposalAction)>,
    parent: Block,
    now: u64,
    forkchoice: ForkchoiceState,
    payload_id: PayloadId,
    envelope: PayloadEnvelope,
    digest: Digest,
)
    requires
        parent.height < u64::MAX,
        now > parent.timestamp || parent.timestamp < u64::MAX,
        steps.len() == 7,
        call_ensures(
            Actor::handle_proposal,
            (actors.0, ProposalState::AwaitingParent, ProposalEvent::Parent(&parent)),
            steps[0],
        ),
        call_ensures(
            Actor::handle_proposal,
            (actors.1, steps[0].0, ProposalEvent::Executed),
            steps[1],
        ),
        call_ensures(
            Actor::handle_proposal,
            (actors.2, steps[1].0, ProposalEvent::Time { now, forkchoice }),
            steps[2],
        ),
        call_ensures(
            Actor::handle_proposal,
            (actors.3, steps[2].0, ProposalEvent::PayloadId(Some(payload_id))),
            steps[3],
        ),
        call_ensures(
            Actor::handle_proposal,
            (actors.4, steps[3].0, ProposalEvent::Built),
            steps[4],
        ),
        call_ensures(
            Actor::handle_proposal,
            (actors.5, steps[4].0, ProposalEvent::Payload(envelope)),
            steps[5],
        ),
        call_ensures(
            Actor::handle_proposal,
            (actors.6, steps[5].0, ProposalEvent::Digest(digest)),
            steps[6],
        ),
    ensures
        steps[0].1 == (ProposalAction::AwaitExecution { height: parent.height }),
        steps[1].1 == ProposalAction::ReadTime,
        steps[2].1 matches ProposalAction::StartBuilding { forkchoice: on, timestamp } && {
            &&& on == forkchoice
            &&& timestamp > parent.timestamp
            &&& timestamp >= now
            &&& now > parent.timestamp ==> timestamp == now
            &&& now <= parent.timestamp ==> timestamp == parent.timestamp + 1
            &&& final(actors.6).built_block matches Some(block) && block.timestamp == timestamp
        },
        steps[3].1 == (ProposalAction::Sleep { millis: 50 }),
        steps[4].1 == (ProposalAction::GetPayload { payload_id }),
        steps[5].1 == ProposalAction::ComputeDigest,
        steps[6].1 == (ProposalAction::Respond { digest }),
        steps[6].0 == ProposalState::Finished,
        final(actors.6).built_block matches Some(block) && {
            &&& block.digest == digest
            &&& block.parent == parent.digest
            &&& block.height == parent.height + 1
            &&& block.payload == envelope.execution_payload
            &&& block.execution_requests == envelope.execution_requests
            &&& block.block_value == envelope.block_value
        },
        *final(actors.0) == *old(actors.0),
        *final(actors.1) == *old(actors.1),
        *final(actors.2) == *old(actors.2),
        *final(actors.3) == *old(actors.3),
        *final(actors.4) == *old(actors.4),
        *final(actors.5) == *old(actors.5),
        final(actors.6).genesis == old(actors.6).genesis,
        final(actors.6).genesis_hash == old(actors.6).genesis_hash,
{
}

/// A call that a proposal does not wait for changes nothing, in the proposal or in the application;
/// an abort ends the proposal without consequence, and an execution client that declines ends it as
/// failed. None of them touches the block that was built before.
pub proof fn law_other_events_change_nothing(
    actor: &mut Actor,
    state: ProposalState,
    event: ProposalEvent<'_>,
    step: (ProposalState, ProposalAction),
)
    requires
        call_ensures(Actor::handle_proposal, (actor, state, event), step),
        !(state is AwaitingDigest && event is Digest),
    ensures
        *final(actor) == *old(actor),
        event is Aborted ==> step == (ProposalState::Finished, ProposalAction::Nothing),
        state is AwaitingPayloadId && event == ProposalEvent::PayloadId(None) ==> step == (
            ProposalState::Finished,
            ProposalAction::Fail,
        ),
        event is Parent && !(state is AwaitingParent) ==> step == (state, ProposalAction::Nothing),
        event is Executed && !(state is AwaitingExecution) ==> step == (state, ProposalAction::Nothing),
        event is Time && !(state is AwaitingTime) ==> step == (state, ProposalAction::Nothing),
        event is PayloadId && !(state is AwaitingPayloadId) ==> step == (state, ProposalAction::Nothing),
        event is Built && !(state is Building) ==> step == (state, ProposalAction::Nothing),
        event is Payload && !(state is AwaitingPayload) ==> step == (state, ProposalAction::Nothing),
        event is Digest ==> step == (state, ProposalAction::Nothing),
{
}

/// Whatever state a proposal is in, the time that it asks for is the time that it keeps, and both
/// are after the parent; and the contents that it makes are on top of the parent that it holds, at
/// the time that it holds.
pub proof fn law_proposals_stay_consistent(
    actors: (&mut Actor, &mut Actor),
    parent: ParentLink,
    now: u64,
    forkchoice: ForkchoiceState,
    timestamp: u64,
    envelope: PayloadEnvelope,
    asked: (ProposalState, ProposalAction),
    made: (ProposalState, ProposalAction),
)
    requires
        now > parent.timestamp || parent.timestamp < u64::MAX,
        parent.height < u64::MAX,
        call_ensures(
            Actor::handle_proposal,
            (actors.0, ProposalState::AwaitingTime { parent }, ProposalEvent::Time { now, forkchoice }),
            asked,
        ),
        call_ensures(
            Actor::handle_proposal,
            (
                actors.1,
                ProposalState::AwaitingPayload { parent, timestamp },
                ProposalEvent::Payload(envelope),
            ),
            made,
        ),
    ensures
        asked.0 matches ProposalState::AwaitingPayloadId { parent: kept, timestamp: chosen } && kept == parent
            && chosen > parent.timestamp && chosen >= now && (now > parent.timestamp ==> chosen == now)
            && (now <= parent.timestamp ==> chosen == parent.timestamp + 1) && asked.1 == (
        ProposalAction::StartBuilding { forkchoice, timestamp: chosen }),
        made.0 matches ProposalState::AwaitingDigest { contents } && contents.parent == parent.digest
            && contents.height == parent.height + 1 && contents.timestamp == timestamp && contents.payload
            == envelope.execution_payload && contents.execution_requests == envelope.execution_requests
            && contents.block_value == envelope.block_value,
        made.1 == ProposalAction::ComputeDigest,
{
}

/// A proposal is completed with the digest of its contents: consensus is answered with it, and the
/// built block says what the contents say and goes by it.
pub proof fn law_completed_blocks_go_by_their_digest(
    actor: &mut Actor,
    contents: BlockContents,
    step: (ProposalState, ProposalAction),
)
    requires
        call_ensures(Actor::complete_proposal, (actor, contents), step),
    ensures
        step.0 == ProposalState::Finished,
        final(actor).built_block matches Some(block) && {
            &&& step.1 == (ProposalAction::Respond { digest: block.digest })
            &&& block.digest.0@ == sha256_of(contents.encoding())
            &&& block.parent == contents.parent
            &&& block.height == contents.height
            &&& block.timestamp == contents.timestamp
            &&& block.payload == contents.payload
            &&& block.execution_requests == contents.execution_requests
            &&& block.block_value == contents.block_value
        },
        final(actor).genesis == old(actor).genesis,
        final(actor).genesis_hash == old(actor).genesis_hash,
{
}

/// What a call reports as too late or too high is so, and nothing else is.
pub proof fn law_proposals_take_what_they_can(
    state: ProposalState,
    event: ProposalEvent<'_>,
    takes: bool,
)
    requires
        call_ensures(ProposalState::takes, (&state, &event), takes),
    ensures
        !takes <==> {
            ||| state matches ProposalState::AwaitingTime { parent } && event matches ProposalEvent::Time {
                now,
                ..
            } && parent.timestamp == u64::MAX && now <= parent.timestamp
            ||| state matches ProposalState::AwaitingPayload { parent, .. } && event is Payload
                && parent.height == u64::MAX
        },
{
}

/// Each message of consensus is answered from what the application holds: with the genesis hash;
/// with a proposal or a verification whose parent is the genesis block if it goes by the genesis
/// hash, and is asked of the syncer otherwise; with the block that was built, if one was; and with
/// the finalized block to execute.
pub proof fn law_messages_are_answered_from_the_application(
    actor: Actor,
    view: u64,
    parent: (u64, Digest),
    payload: Digest,
    genesis: Reaction<'_>,
    propose: Reaction<'_>,
    broadcast: Reaction<'_>,
    verify: Reaction<'_>,
    finalize: Reaction<'_>,
)
    requires
        call_ensures(Actor::run, (&actor, Message::Genesis), genesis),
        call_ensures(Actor::run, (&actor, Message::Propose { view, parent }), propose),
        call_ensures(Actor::run, (&actor, Message::Broadcast { payload }), broadcast),
        call_ensures(Actor::run, (&actor, Message::Verify { view, parent, payload }), verify),
        call_ensures(
            Actor::run,
            (&actor, Message::Finalize { view, parent: parent.0, payload }),
            finalize,
        ),
    ensures
        genesis == (Reaction::SendGenesis { digest: actor.genesis_hash }),
        parent.1 == actor.genesis_hash ==> (propose matches Reaction::Propose { view: at, state, action } && at
            == view && action == (ProposalAction::AwaitExecution { height: actor.genesis.height })
            && (state matches ProposalState::AwaitingExecution { parent: link } && link.digest
            == actor.genesis.digest && link.height == actor.genesis.height && link.timestamp
            == actor.genesis.timestamp)),
        parent.1 != actor.genesis_hash ==> propose == (Reaction::Propose {
            view,
            state: ProposalState::AwaitingParent,
            action: ProposalAction::GetParent(
                BlockRequest { view: Some(parent.0), payload: parent.1 },
            ),
        }),
        actor.built_block is None ==> broadcast == Reaction::Nothing,
        actor.built_block matches Some(built) ==> (broadcast matches Reaction::Broadcast { block, expected }
            && *block == built && (expected <==> payload == built.digest)),
        parent.1 == actor.genesis_hash ==> verify == (Reaction::Verify {
            view,
            parent: ParentRequest::Ready(&actor.genesis),
            block: BlockRequest { view: None, payload },
        }),
        parent.1 != actor.genesis_hash ==> verify == (Reaction::Verify {
            view,
            parent: ParentRequest::Get(BlockRequest { view: Some(parent.0), payload: parent.1 }),
            block: BlockRequest { view: None, payload },
        }),
        finalize == Reaction::Finalize(BlockRequest { view: Some(view), payload }),
{
}

/// An application starts at its genesis, with the secret, the URL and the participants that are
/// configured; and it can be started if and only if there are a secret and a URL.
pub proof fn law_applications_start_as_configured(
    cfg: ApplicationConfig,
    genesis_hash: Digest,
    application: (Actor, EngineClient, ForkchoiceState, Supervisor),
    tried: Result<(Actor, EngineClient, ForkchoiceState, Supervisor), EngineClientError>,
)
    requires
        call_ensures(Actor::new, (cfg, genesis_hash), application),
        call_ensures(Actor::try_new, (cfg, genesis_hash), tried),
    ensures
        application.0.built_block is None,
        application.0.genesis_hash == genesis_hash,
        application.0.genesis.digest == genesis_hash,
        application.0.genesis.payload.block_hash == genesis_hash.0,
        application.0.genesis.height == 0,
        application.0.genesis.timestamp == 0,
        jwt_secret_from_hex(cfg.engine_jwt@) == Some(application.1.secret@),
        url_from_text(cfg.engine_url@) == Some(application.1.url@),
        application.2.head_block_hash == genesis_hash.0,
        application.2.safe_block_hash == genesis_hash.0,
        application.2.finalized_block_hash == genesis_hash.0,
        application.3@.to_multiset() == cfg.participants@.to_multiset(),
        sorted_by(application.3@, key_order()),
        tried is Ok <==> jwt_secret_from_hex(cfg.engine_jwt@) is Some && url_from_text(cfg.engine_url@) is Some,
        tried matches Err(error) ==> (error == EngineClientError::InvalidSecret <==> jwt_secret_from_hex(
            cfg.engine_jwt@,
        ) is None),
        tried matches Ok(started) ==> started.0.built_block is None && started.0.genesis_hash == genesis_hash
            && started.0.genesis.digest == genesis_hash && started.2 == application.2 && started.1.secret@
            == application.1.secret@ && started.1.url@ == application.1.url@
            && started.3@.to_multiset() == cfg.participants@.to_multiset(),
{
}

/// The leader that a supervisor names for a view is the participant at which a count round the
/// sorted list, from the first one at view zero, ends; and where no key is listed twice, the number
/// that it gives that participant is the view modulo the size of the committee.
pub proof fn law_leader_has_the_turn(
    supervisor: Supervisor,
    view: u64,
    other: u64,
    leader: Option<PublicKey>,
    number: Option<u32>,
)
    requires
        supervisor@.len() > 0,
        view <= usize::MAX,
        call_ensures(Supervisor::leader, (&supervisor, view), leader),
        leader is Some,
        call_ensures(Supervisor::is_participant, (&supervisor, other, &leader->0), number),
    ensures
        leader == Some(supervisor@[view as int % supervisor@.len() as int]),
        view < supervisor@.len() ==> leader == Some(supervisor@[view as int]),
        supervisor@.no_duplicates() && supervisor@.len() <= 0x1_0000_0000 ==> (number matches Some(number)
            && number as int == view as int % supervisor@.len() as int),
{
    let n = supervisor@.len() as int;
    lemma_mod_bound(view as int, n);
    law_leader_stands_at_the_view(supervisor@, view);
    if supervisor@.no_duplicates() && n <= 0x1_0000_0000 {
        law_numbers_are_places(supervisor@, view as int % n);
    }
    if view < n {
        lemma_small_mod(view as nat, supervisor@.len());
    }
}

/// Where no key is listed twice, a supervisor names different leaders for two views that are less
/// than a round apart, and the same leader for two views that are a round apart.
pub proof fn law_leaders_go_round(
    supervisor: Supervisor,
    first: u64,
    second: u64,
    one: Option<PublicKey>,
    other: Option<PublicKey>,
)
    requires
        supervisor@.no_duplicates(),
        supervisor@.len() > 0,
        first < second <= first + supervisor@.len(),
        first + supervisor@.len() <= u64::MAX,
        first + supervisor@.len() <= usize::MAX,
        call_ensures(Supervisor::leader, (&supervisor, first), one),
        call_ensures(Supervisor::leader, (&supervisor, second), other),
    ensures
        one is Some,
        other is Some,
        one == other <==> second == first + supervisor@.len(),
{
    let n = supervisor@.len() as int;
    law_each_participant_leads_once(supervisor@, first);
    law_leader_stands_at_the_view(supervisor@, first);
    law_leader_stands_at_the_view(supervisor@, second);
    if second == first + n {
        vstd::arithmetic::div_mod::lemma_mod_add_multiples_vanish(first as int, n);
    }
}

/// Every participant has its turn: where no key is listed twice, there is a view in every round for
/// which a supervisor names the given participant.
pub proof fn law_every_participant_leads(supervisor: Supervisor, start: u64, key: PublicKey) -> (view: u64)
    requires
        supervisor@.no_duplicates(),
        supervisor@.contains(key),
        start + supervisor@.len() <= u64::MAX,
        start + supervisor@.len() <= usize::MAX,
    ensures
        start <= view < start + supervisor@.len(),
        forall|leader: Option<PublicKey>| #[trigger]
            call_ensures(Supervisor::leader, (&supervisor, view), leader) ==> leader == Some(key),
{
    law_each_participant_leads_once(supervisor@, start);
    let view = choose|view: u64|
        start <= view < start + supervisor@.len() && #[trigger] leader_of(
            supervisor@,
            view,
        ) == key;
    view
}

/// Supervisors of one committee agree, in whatever order it was listed to them: they list the same
/// participants in every view, in the order of their keys, and name the same leaders and numbers.
pub proof fn law_supervisors_agree(
    listed: (Vec<PublicKey>, Vec<PublicKey>),
    supervisors: (Supervisor, Supervisor),
    views: (u64, u64),
    participants: (Option<&Vec<PublicKey>>, Option<&Vec<PublicKey>>),
    leaders: (Option<PublicKey>, Option<PublicKey>),
    key: PublicKey,
    numbers: (Option<u32>, Option<u32>),
)
    requires
        listed.0@.to_multiset() == listed.1@.to_multiset(),
        call_ensures(Supervisor::new, (listed.0,), supervisors.0),
        call_ensures(Supervisor::new, (listed.1,), supervisors.1),
        call_ensures(Supervisor::participants, (&supervisors.0, views.0), participants.0),
        call_ensures(Supervisor::participants, (&supervisors.1, views.1), participants.1),
        call_ensures(Supervisor::leader, (&supervisors.0, views.0), leaders.0),
        call_ensures(Supervisor::leader, (&supervisors.1, views.0), leaders.1),
        call_ensures(Supervisor::is_participant, (&supervisors.0, views.0, &key), numbers.0),
        call_ensures(Supervisor::is_participant, (&supervisors.1, views.1, &key), numbers.1),
    ensures
        participants.0 is Some,
        participants.1 is Some,
        participants.0->0@ == participants.1->0@,
        participants.0->0@.to_multiset() == listed.0@.to_multiset(),
        sorted_by(participants.0->0@, key_order()),
        leaders.0 == leaders.1,
        numbers.0 == numbers.1,
{
    law_committee_order_is_shared(supervisors.0@, supervisors.1@);
}

/// A supervisor gives a number to those that it lists and to no others, and the number of a
/// participant is the last place at which it is listed.
pub proof fn law_participants_have_numbers(
    supervisor: Supervisor,
    view: u64,
    key: PublicKey,
    participants: Option<&Vec<PublicKey>>,
    number: Option<u32>,
)
    requires
        supervisor@.len() <= 0x1_0000_0000,
        call_ensures(Supervisor::participants, (&supervisor, view), participants),
        call_ensures(Supervisor::is_participant, (&supervisor, view, &key), number),
    ensures
        participants matches Some(list) && {
            &&& number is Some <==> exists|i: int| 0 <= i < list@.len() && list@[i] == key
            &&& number matches Some(number) ==> number < list@.len() && list@[number as int] == key
                && forall|later: int| number < later < list@.len() ==> list@[later] != key
        },
{
    law_numbers_are_last_places(supervisor@, key);
}

/// Each call of consensus becomes a message with what the call was given.
pub proof fn law_calls_become_messages(
    context: Context,
    payload: Digest,
    genesis: Message,
    propose: Message,
    verify: Message,
    broadcast: Message,
)
    requires
        call_ensures(Mailbox::genesis, (), genesis),
        call_ensures(Mailbox::propose, (context,), propose),
        call_ensures(Mailbox::verify, (context, payload), verify),
        call_ensures(Mailbox::broadcast, (payload,), broadcast),
    ensures
        genesis == Message::Genesis,
        propose matches Message::Propose { view, parent } && view == context.view && parent == context.parent,
        verify matches Message::Verify { view, parent, payload: named } && view == context.view && parent
            == context.parent && named == payload,
        broadcast matches Message::Broadcast { payload: named } && named == payload,
{
}

/// Of all that consensus reports, only what a quorum finalized becomes a message, with the view,
/// the parent and the payload of the proposal.
pub proof fn law_only_finalizations_are_reported(activity: Activity, message: Option<Message>)
    requires
        call_ensures(Mailbox::report, (activity,), message),
    ensures
        message is Some <==> activity is Finalization,
        activity matches Activity::Finalization { proposal } ==> (message matches Some(Message::Finalize {
            view,
            parent,
            payload,
        }) && view == proposal.view && parent == proposal.parent && payload == proposal.payload),
{
}

/// A client is made of a secret and a URL if and only if there are both, and of those; the secret
/// is missed first.
pub proof fn law_clients_need_a_secret_and_a_url(
    url: String,
    jwt: &str,
    secret: Option<Vec<u8>>,
    place: Option<String>,
    client: EngineClient,
    tried: Result<EngineClient, EngineClientError>,
    made: Result<EngineClient, EngineClientError>,
)
    requires
        call_ensures(EngineClient::new, (url, jwt), client),
        call_ensures(EngineClient::try_new, (url, jwt), tried),
        call_ensures(EngineClient::from_parts, (secret, place), made),
    ensures
        jwt_secret_from_hex(jwt@) == Some(client.secret@),
        client.secret@.len() == 32,
        url_from_text(url@) == Some(client.url@),
        tried matches Ok(same) && same.secret@ == client.secret@ && same.url@ == client.url@,
        made is Ok <==> secret is Some && place is Some,
        made matches Ok(made) ==> Some(made.secret) == secret && Some(made.url) == place,
        made == Err::<EngineClient, EngineClientError>(EngineClientError::InvalidSecret) <==> secret is None,
        made == Err::<EngineClient, EngineClientError>(EngineClientError::InvalidUrl) <==> secret is Some
            && place is None,
{
}

/// A client can be made if and only if the texts stand for a secret and a URL.
pub proof fn law_bad_texts_make_no_client(url: String, jwt: &str, tried: Result<EngineClient, EngineClientError>)
    requires
        call_ensures(EngineClient::try_new, (url, jwt), tried),
    ensures
        tried is Ok <==> jwt_secret_from_hex(jwt@) is Some && url_from_text(url@) is Some,
        tried == Err::<EngineClient, EngineClientError>(EngineClientError::InvalidSecret)
            <==> jwt_secret_from_hex(jwt@) is None,
{
}

/// What the execution client is asked: to build on the given fork choice a payload of the given
/// time, with no withdrawals; for the payload of the given name; to check the payload of the given
/// block with its requests; and to take the given fork choice and build nothing.
pub proof fn law_the_execution_client_is_asked(
    client: EngineClient,
    state: ForkchoiceState,
    time: u64,
    id: PayloadId,
    block: Block,
    start: EngineRequest<'_>,
    get: EngineRequest<'_>,
    check: EngineRequest<'_>,
    commit: EngineRequest<'_>,
    i: int,
)
    requires
        call_ensures(EngineClient::start_building_block, (&client, state, time), start),
        call_ensures(EngineClient::get_payload, (&client, id), get),
        call_ensures(EngineClient::check_payload, (&client, &block), check),
        call_ensures(EngineClient::commit_hash, (&client, state), commit),
        0 <= i < 32,
    ensures
        start matches EngineRequest::ForkchoiceUpdatedV3 {
            fork_choice_state,
            payload_attributes: Some(attributes),
        } && {
            &&& fork_choice_state == state
            &&& attributes.timestamp == time
            &&& attributes.prev_randao@[i] == 0
            &&& i < 20 ==> attributes.suggested_fee_recipient@[i] == 1
            &&& attributes.withdrawals matches Some(withdrawals) && withdrawals@.len() == 0
            &&& attributes.parent_beacon_block_root matches Some(root) && root@[i] == 1
        },
        get matches EngineRequest::GetPayloadV4 { payload_id } && payload_id == id,
        check matches EngineRequest::NewPayloadV4 {
            payload,
            versioned_hashes,
            parent_beacon_block_root,
            execution_requests,
        } && {
            &&& *payload == block.payload
            &&& versioned_hashes@.len() == 0
            &&& parent_beacon_block_root@[i] == 1
            &&& *execution_requests == block.execution_requests
        },
        commit matches EngineRequest::ForkchoiceUpdatedV3 { fork_choice_state, payload_attributes }
            && fork_choice_state == state && payload_attributes is None,
{
}

/// A finalizer executes a block if and only if it is above what is executed, as the head, the safe
/// and the finalized block of the execution client; it asks for the parent of a block if and only if
/// the block is more than one above what is executed; and it holds a height as executed if and only
/// if it is not above what is.
pub proof fn law_finalizers_execute_what_is_new(
    finalizer: &mut Finalizer,
    block: Block,
    height: u64,
    fresh: Finalizer,
    other: Finalizer,
    parent: Option<BlockRequest>,
    forkchoice: Option<ForkchoiceState>,
    executed: bool,
)
    requires
        call_ensures(Finalizer::new, (), fresh),
        call_ensures(Finalizer::finalize, (finalizer, &block), forkchoice),
        call_ensures(Finalizer::missing_parent, (&other, &block), parent),
        call_ensures(Finalizer::is_executed, (&other, height), executed),
    ensures
        fresh.executed == 0,
        executed <==> height <= other.executed,
        parent is Some <==> block.height > other.executed + 1,
        parent matches Some(request) ==> request.payload == block.parent && request.view is None,
        forkchoice is Some <==> block.height > old(finalizer).executed,
        forkchoice matches Some(state) ==> {
            &&& state.head_block_hash == block.payload.block_hash
            &&& state.safe_block_hash == block.payload.block_hash
            &&& state.finalized_block_hash == block.payload.block_hash
            &&& final(finalizer).executed == block.height
        },
        forkchoice is None ==> final(finalizer).executed == old(finalizer).executed,
{
    reveal_with_fuel(executed_after, 2);
    assert(seq![block].drop_last() =~= Seq::empty());
}

/// After a block was taken in, its height is executed and no parent of it is missing.
pub proof fn law_finalized_blocks_are_executed(
    finalizer: &mut Finalizer,
    block: Block,
    forkchoice: Option<ForkchoiceState>,
    executed: bool,
    parent: Option<BlockRequest>,
)
    requires
        call_ensures(Finalizer::finalize, (finalizer, &block), forkchoice),
        call_ensures(Finalizer::is_executed, (final(finalizer), block.height), executed),
        call_ensures(Finalizer::missing_parent, (final(finalizer), &block), parent),
    ensures
        executed,
        parent is None,
{
    law_highest_block_is_executed(old(finalizer).executed, seq![block]);
    assert(seq![block][0] == block);
}

/// A parent is at hand if and only if it goes by the genesis hash; any other is asked of the syncer,
/// by its digest and in its view. An application that has built nothing starts with the genesis that
/// it is given.
pub proof fn law_parents_are_at_hand_or_asked_for(
    actor: Actor,
    parent: (u64, Digest),
    request: ParentRequest<'_>,
    participants: Vec<PublicKey>,
    genesis_hash: Digest,
    genesis: Block,
    start: (Actor, ForkchoiceState, Supervisor),
)
    requires
        call_ensures(Actor::parent_request, (&actor, parent), request),
        call_ensures(Actor::at_genesis, (participants, genesis_hash, genesis), start),
    ensures
        request is Ready <==> parent.1 == actor.genesis_hash,
        request matches ParentRequest::Ready(block) ==> *block == actor.genesis,
        request matches ParentRequest::Get(asked) ==> asked.view == Some(parent.0) && asked.payload == parent.1,
        start.0.genesis == genesis,
        start.0.genesis_hash == genesis_hash,
        start.0.built_block is None,
        start.1.head_block_hash == genesis_hash.0,
        start.1.safe_block_hash == genesis_hash.0,
        start.1.finalized_block_hash == genesis_hash.0,
        start.2@.to_multiset() == participants@.to_multiset(),
        sorted_by(start.2@, key_order()),
{
}

} // verus!
