//! What the calls of the syncer give back, and how calls relate to one another.
//!
//! Each law speaks of calls that were made: of what went into them and of what came back.

use vstd::prelude::*;

use crate::syncer::actor::{
    after_put, law_nodes_share_no_partition, law_partitions_are_apart, Actor, AfterPut, Archives, Config, Found,
    Lookup, LookupStep, PutResult, Reaction, ResolverConfig, Source, Translator,
};
use crate::syncer::ingress::{Mailbox, Message};
use crate::types::{Block, BlockRequest, Digest};

verus! {

/// Whatever block a place hands over is the block that is picked: the one that an archive holds,
/// the one that a notarization is of, the first one that the buffer holds. None is picked only
/// where none was handed over.
pub proof fn law_what_is_handed_over_is_picked(found: Found, block: Option<Block>)
    requires
        call_ensures(Found::into_block, (found,), block),
    ensures
        found matches Found::Stored(stored) ==> block == stored,
        found matches Found::Notarized(Some(notarized)) ==> block == Some(notarized.block),
        found == Found::Notarized(None) ==> block is None,
        found matches Found::Buffered(blocks) ==> (block is None <==> blocks@.len() == 0),
        found matches Found::Buffered(blocks) ==> (block matches Some(block) ==> block == blocks@[0]),
{
}

/// Advancing a search with what a place handed over answers with exactly that block, through the
/// response of the search; the search goes on only where nothing was handed over, and then to the
/// next place or, after the last one, to the network, for what was asked.
pub proof fn law_searches_answer_what_they_find<R>(lookup: Lookup<R>, found: Found, step: LookupStep<R>)
    requires
        call_ensures(Lookup::<R>::advance, (lookup, found), step),
    ensures
        ({
            let nothing = match found {
                Found::Stored(stored) => stored is None,
                Found::Notarized(notarized) => notarized is None,
                Found::Buffered(blocks) => blocks@.len() == 0,
            };
            &&& found matches Found::Stored(Some(stored)) ==> step == (LookupStep::Respond {
                response: lookup.response,
                block: stored,
            })
            &&& found matches Found::Notarized(Some(notarized)) ==> step == (LookupStep::Respond {
                response: lookup.response,
                block: notarized.block,
            })
            &&& found matches Found::Buffered(blocks) ==> (!nothing ==> step == (LookupStep::Respond {
                response: lookup.response,
                block: blocks@[0],
            }))
            &&& step is Respond <==> !nothing
            &&& step matches LookupStep::LookIn(next) ==> next.request == lookup.request && next.response
                == lookup.response
            &&& nothing && lookup.source is Buffer ==> (step matches LookupStep::LookIn(next)
                && next.source == Source::Verified)
            &&& nothing && lookup.source is Verified ==> (step matches LookupStep::LookIn(next)
                && next.source == Source::Notarized)
            &&& nothing && lookup.source is Notarized ==> (step matches LookupStep::LookIn(next)
                && next.source == Source::Finalized)
            &&& nothing && lookup.source is Finalized ==> step == (LookupStep::Subscribe {
                fetch: lookup.request.view,
                payload: lookup.request.payload,
                response: lookup.response,
            })
        }),
{
}

/// What the application asks is what the syncer does: it looks for the block that was asked for, in
/// the buffer first, to answer through the response that was given; it sends the block that it was
/// given; and it puts a verified block under its digest and in its view.
pub proof fn law_the_syncer_does_what_is_asked<R>(
    actor: Actor,
    view: Option<u64>,
    payload: Digest,
    response: R,
    at: u64,
    block: Block,
    messages: (Message<R>, Message<R>, Message<R>),
    reactions: (Reaction<R>, Reaction<R>, Reaction<R>),
)
    requires
        call_ensures(Mailbox::get::<R>, (view, payload, response), messages.0),
        call_ensures(Mailbox::broadcast::<R>, (block,), messages.1),
        call_ensures(Mailbox::store_verified::<R>, (at, block), messages.2),
        call_ensures(Actor::run::<R>, (&actor, messages.0), reactions.0),
        call_ensures(Actor::run::<R>, (&actor, messages.1), reactions.1),
        call_ensures(Actor::run::<R>, (&actor, messages.2), reactions.2),
    ensures
        messages.0 == (Message::Get { request: BlockRequest { view, payload }, response }),
        messages.1 == (Message::<R>::Broadcast { payload: block }),
        messages.2 == (Message::<R>::StoreVerified { view: at, payload: block }),
        reactions.0 matches Reaction::LookIn(lookup) && lookup.request.view == view && lookup.request.payload
            == payload && lookup.response == response && lookup.source == Source::Buffer,
        reactions.1 matches Reaction::Broadcast { block: sent } && sent == block,
        reactions.2 matches Reaction::PutVerified { view: in_view, key, block: put } && in_view == at && key
            == block.digest && put == block,
{
}

/// A verified block is found again: where the archive hands over what was put into it under the
/// digest that is looked for, a search for the digest of a block that was stored as verified, which
/// comes to that archive, is answered with that block.
pub proof fn law_stored_blocks_are_answered<R>(
    actor: Actor,
    view: u64,
    block: Block,
    later: Option<u64>,
    response: R,
    put: Reaction<R>,
    asked: Reaction<R>,
    passed: LookupStep<R>,
    answered: LookupStep<R>,
    buffered: Vec<Block>,
)
    requires
        call_ensures(Actor::run::<R>, (&actor, Message::StoreVerified { view, payload: block }), put),
        call_ensures(
            Actor::run::<R>,
            (
                &actor,
                Message::Get { request: BlockRequest { view: later, payload: block.digest }, response },
            ),
            asked,
        ),
        asked is LookIn,
        buffered@.len() == 0,
        call_ensures(Lookup::<R>::advance, (asked->LookIn_0, Found::Buffered(buffered)), passed),
        passed is LookIn,
        put is PutVerified,
        put->key == passed->LookIn_0.request.payload ==> call_ensures(
            Lookup::<R>::advance,
            (passed->LookIn_0, Found::Stored(Some(put->PutVerified_block))),
            answered,
        ),
    ensures
        answered == (LookupStep::Respond { response, block }),
{
}

/// A syncer keeps its configuration, and opens four archives under its prefix: verified and
/// notarized blocks, found by two bytes of their keys and kept in sections of views, and
/// finalizations and finalized blocks, found by eight bytes and kept in sections of heights. None
/// shares a partition with another.
pub proof fn law_syncers_start_as_configured(config: Config, syncer: (Actor, Archives))
    requires
        call_ensures(Actor::new, (config,), syncer),
    ensures
        ({
            let prefix = config.partition_prefix@;
            let archives = syncer.1;
            &&& syncer.0.public_key == config.public_key
            &&& syncer.0.participants == config.participants
            &&& syncer.0.mailbox_size == config.mailbox_size
            &&& syncer.0.backfill_quota == config.backfill_quota
            &&& syncer.0.activity_timeout == config.activity_timeout
            &&& archives.verified.partition@ == prefix + "-verified-archive"@
            &&& archives.notarized.partition@ == prefix + "-notarizations"@
            &&& archives.finalized.partition@ == prefix + "-finalizations"@
            &&& archives.blocks.partition@ == prefix + "-blocks"@
            &&& archives.verified.translator == Translator::TwoCap
            &&& archives.notarized.translator == Translator::TwoCap
            &&& archives.finalized.translator == Translator::EightCap
            &&& archives.blocks.translator == Translator::EightCap
            &&& archives.verified.section_mask == 0xffff_ffff_ffff_f000
            &&& archives.notarized.section_mask == 0xffff_ffff_ffff_f000
            &&& archives.finalized.section_mask == 0xffff_ffff_fff0_0000
            &&& archives.blocks.section_mask == 0xffff_ffff_fff0_0000
            &&& archives.verified.partition@ != archives.notarized.partition@
            &&& archives.verified.partition@ != archives.finalized.partition@
            &&& archives.verified.partition@ != archives.blocks.partition@
            &&& archives.notarized.partition@ != archives.finalized.partition@
            &&& archives.notarized.partition@ != archives.blocks.partition@
            &&& archives.finalized.partition@ != archives.blocks.partition@
        }),
{
    law_partitions_are_apart(syncer.1, config.partition_prefix@);
}

/// All archives are written at once, in pieces of one mebibyte and without compression, and read
/// four parts at a time, eight mebibytes each.
pub proof fn law_archives_are_opened_alike(config: Config, syncer: (Actor, Archives))
    requires
        call_ensures(Actor::new, (config,), syncer),
    ensures
        syncer.1.verified.pending_writes == 0,
        syncer.1.verified.write_buffer == 1024 * 1024,
        syncer.1.verified.replay_concurrency == 4,
        syncer.1.verified.replay_buffer == 8 * 1024 * 1024,
        syncer.1.verified.compression is None,
        syncer.1.notarized.pending_writes == 0,
        syncer.1.notarized.write_buffer == 1024 * 1024,
        syncer.1.notarized.replay_concurrency == 4,
        syncer.1.notarized.replay_buffer == 8 * 1024 * 1024,
        syncer.1.notarized.compression is None,
        syncer.1.finalized.pending_writes == 0,
        syncer.1.finalized.write_buffer == 1024 * 1024,
        syncer.1.finalized.replay_concurrency == 4,
        syncer.1.finalized.replay_buffer == 8 * 1024 * 1024,
        syncer.1.finalized.compression is None,
        syncer.1.blocks.pending_writes == 0,
        syncer.1.blocks.write_buffer == 1024 * 1024,
        syncer.1.blocks.replay_concurrency == 4,
        syncer.1.blocks.replay_buffer == 8 * 1024 * 1024,
        syncer.1.blocks.compression is None,
{
}

/// Syncers with different prefixes share no partition.
pub proof fn law_syncers_store_apart(one: Config, other: Config, a: (Actor, Archives), b: (Actor, Archives))
    requires
        one.partition_prefix@ != other.partition_prefix@,
        call_ensures(Actor::new, (one,), a),
        call_ensures(Actor::new, (other,), b),
    ensures
        a.1.verified.partition@ != b.1.verified.partition@,
        a.1.verified.partition@ != b.1.notarized.partition@,
        a.1.verified.partition@ != b.1.finalized.partition@,
        a.1.verified.partition@ != b.1.blocks.partition@,
        a.1.notarized.partition@ != b.1.verified.partition@,
        a.1.notarized.partition@ != b.1.notarized.partition@,
        a.1.notarized.partition@ != b.1.finalized.partition@,
        a.1.notarized.partition@ != b.1.blocks.partition@,
        a.1.finalized.partition@ != b.1.verified.partition@,
        a.1.finalized.partition@ != b.1.notarized.partition@,
        a.1.finalized.partition@ != b.1.finalized.partition@,
        a.1.finalized.partition@ != b.1.blocks.partition@,
        a.1.blocks.partition@ != b.1.verified.partition@,
        a.1.blocks.partition@ != b.1.notarized.partition@,
        a.1.blocks.partition@ != b.1.finalized.partition@,
        a.1.blocks.partition@ != b.1.blocks.partition@,
{
    law_nodes_share_no_partition(a.1, one.partition_prefix@, b.1, other.partition_prefix@);
    let p = a.1.partitions();
    let q = b.1.partitions();
    assert(p[0] != q[0] && p[0] != q[1] && p[0] != q[2] && p[0] != q[3]);
    assert(p[1] != q[0] && p[1] != q[1] && p[1] != q[2] && p[1] != q[3]);
    assert(p[2] != q[0] && p[2] != q[1] && p[2] != q[2] && p[2] != q[3]);
    assert(p[3] != q[0] && p[3] != q[1] && p[3] != q[2] && p[3] != q[3]);
}

/// A syncer fetches from its participants, under its key and within its quota, expects an answer
/// within a second and waits two for it, tries again after a tenth, and gives way to other messages.
pub proof fn law_syncers_fetch_from_their_participants(actor: Actor, config: ResolverConfig<'_>)
    requires
        call_ensures(Actor::resolver_config, (&actor,), config),
    ensures
        *config.participants == actor.participants,
        config.mailbox_size == actor.mailbox_size,
        config.public_key == actor.public_key,
        config.rate_limit == actor.backfill_quota,
        config.initial_ms == 1000,
        config.timeout_ms == 2 * config.initial_ms,
        config.fetch_retry_timeout_ms == 100,
        !config.priority_requests,
        !config.priority_responses,
{
}

/// The node has to stop if and only if a write failed; one that came too late does no harm.
pub proof fn law_only_failed_writes_halt(result: PutResult, action: AfterPut)
    requires
        call_ensures(after_put, (result,), action),
    ensures
        result is Failed ==> action is Halt,
        result is Stored ==> action is Continue,
        result is AlreadyPruned ==> action is Continue,
{
}

} // verus!
