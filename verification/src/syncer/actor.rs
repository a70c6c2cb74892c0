//! What the syncer decides: where it stores blocks, and where it looks for them.
//!
//! The actor performs no I/O. It answers each message with what is to be done, and a search for a
//! block advances from one place to the next as long as the block is not found.

use vstd::prelude::*;

use crate::syncer::ingress::Message;
use crate::types::{Block, BlockRequest, Digest, Notarized, PublicKey, Quota};

verus! {

/// How many bytes an archive reads at once when it is opened.
pub const REPLAY_BUFFER: usize = 8 * 1024 * 1024;

/// How many parts of an archive are read side by side when it is opened.
pub const REPLAY_CONCURRENCY: usize = 4;

/// How many bytes an archive gathers before it writes them.
pub const WRITE_BUFFER: usize = 1024 * 1024;

/// How views are grouped into sections of an archive.
pub const VIEW_SECTION_MASK: u64 = 0xffff_ffff_ffff_f000;

/// How heights are grouped into sections of an archive.
pub const HEIGHT_SECTION_MASK: u64 = 0xffff_ffff_fff0_0000;

/// How much of a key the index of an archive holds.
#[derive(Clone, Copy, Debug, PartialEq, Eq)]
pub enum Translator {
    /// The first two bytes.
    TwoCap,
    /// The first eight bytes.
    EightCap,
}

/// How an archive is opened.
#[derive(Clone, Debug, PartialEq, Eq)]
pub struct ArchiveConfig {
    pub translator: Translator,
    pub partition: String,
    pub compression: Option<u8>,
    pub section_mask: u64,
    pub pending_writes: usize,
    pub write_buffer: usize,
    pub replay_concurrency: usize,
    pub replay_buffer: usize,
}

/// How the archives of the syncer are opened.
#[derive(Clone, Debug, PartialEq, Eq)]
pub struct Archives {
    /// Verified blocks, by view and digest.
    pub verified: ArchiveConfig,
    /// Notarized blocks, by view and digest.
    pub notarized: ArchiveConfig,
    /// Finalizations, by height.
    pub finalized: ArchiveConfig,
    /// Finalized blocks, by height. They are kept apart because the finalization of a block may
    /// be missing.
    pub blocks: ArchiveConfig,
}

/// The configuration of the syncer.
#[derive(Clone, Debug, PartialEq, Eq)]
pub struct Config {
    pub partition_prefix: String,
    pub public_key: PublicKey,
    pub participants: Vec<PublicKey>,
    pub mailbox_size: usize,
    pub backfill_quota: Quota,
    pub activity_timeout: u64,
}

/// How the resolver, which fetches blocks from other participants, is run. Times are in
/// milliseconds.
#[derive(Clone, Debug, PartialEq, Eq)]
pub struct ResolverConfig<'a> {
    pub participants: &'a Vec<PublicKey>,
    pub mailbox_size: usize,
    pub public_key: PublicKey,
    pub rate_limit: Quota,
    pub initial_ms: u64,
    pub timeout_ms: u64,
    pub fetch_retry_timeout_ms: u64,
    pub priority_requests: bool,
    pub priority_responses: bool,
}

/// The syncer.
pub struct Actor {
    pub public_key: PublicKey,
    pub participants: Vec<PublicKey>,
    pub mailbox_size: usize,
    pub backfill_quota: Quota,
    pub activity_timeout: u64,
}

/// A place where a block is looked for.
#[derive(Clone, Copy, Debug, PartialEq, Eq)]
pub enum Source {
    /// The blocks that other participants broadcast of late.
    Buffer,
    /// The archive of verified blocks.
    Verified,
    /// The archive of notarized blocks.
    Notarized,
    /// The archive of finalized blocks.
    Finalized,
}

/// What a place holds of a block that is looked for.
#[derive(Clone, Debug, PartialEq, Eq)]
pub enum Found {
    /// What the buffer holds.
    Buffered(Vec<Block>),
    /// What an archive of blocks holds.
    Stored(Option<Block>),
    /// What the archive of notarized blocks holds.
    Notarized(Option<Notarized>),
}

/// A search for a block: what is asked for, what the answer is given through, and the place where
/// the block is looked for next.
#[derive(Clone, Debug, PartialEq, Eq)]
pub struct Lookup<R> {
    pub request: BlockRequest,
    pub response: R,
    pub source: Source,
}

/// What is to be done next in a search.
#[derive(Clone, Debug, PartialEq, Eq)]
pub enum LookupStep<R> {
    /// Answer with the block.
    Respond { response: R, block: Block },
    /// Look in the next place.
    LookIn(Lookup<R>),
    /// The block is nowhere at hand. Fetch what was notarized in the view from the network, where
    /// there is a view; then answer when the block comes into the buffer.
    Subscribe { fetch: Option<u64>, payload: Digest, response: R },
}

/// What is to be done for a message of the application.
#[derive(Clone, Debug, PartialEq, Eq)]
pub enum Reaction<R> {
    /// Look for a block.
    LookIn(Lookup<R>),
    /// Send the block to all participants.
    Broadcast { block: Block },
    /// Put the block into the archive of verified blocks, under the view and the key.
    PutVerified { view: u64, key: Digest, block: Block },
}

/// How a write to an archive ends.
#[derive(Clone, Copy, Debug, PartialEq, Eq)]
pub enum PutResult {
    Stored,
    /// The archive holds nothing that old any more.
    AlreadyPruned,
    Failed,
}

/// What is to be done after a write to an archive.
#[derive(Clone, Copy, Debug, PartialEq, Eq)]
pub enum AfterPut {
    Continue,
    /// The store cannot be relied on: the node has to stop.
    Halt,
}

impl ArchiveConfig {
    /// The archive is the named partition of the node with the given prefix, found by the given
    /// part of its keys, and divided by the given mask.
    pub open spec fn opens(
        self,
        prefix: Seq<char>,
        name: Seq<char>,
        translator: Translator,
        section_mask: u64,
    ) -> bool {
        &&& self.partition@ == prefix + name
        &&& self.translator == translator
        &&& self.section_mask == section_mask
        &&& self.compression is None
        &&& self.pending_writes == 0
        &&& self.write_buffer == 1_048_576
        &&& self.replay_concurrency == 4
        &&& self.replay_buffer == 8_388_608
    }

    fn for_partition(prefix: &String, name: &str, translator: Translator, section_mask: u64) -> (config:
        ArchiveConfig)
        ensures
            config.opens(prefix@, name@, translator, section_mask),
    {
        let mut partition = prefix.clone();
        partition.append(name);
        ArchiveConfig {
            translator,
            partition,
            compression: None,
            section_mask,
            pending_writes: 0,
            write_buffer: WRITE_BUFFER,
            replay_concurrency: REPLAY_CONCURRENCY,
            replay_buffer: REPLAY_BUFFER,
        }
    }
}

impl Archives {
    /// The partitions of the archives.
    pub open spec fn partitions(self) -> Seq<Seq<char>> {
        seq![
            self.verified.partition@,
            self.notarized.partition@,
            self.finalized.partition@,
            self.blocks.partition@,
        ]
    }

    /// The four archives of the node with the given prefix.
    pub open spec fn of_node(self, prefix: Seq<char>) -> bool {
        &&& self.verified.opens(
            prefix,
            "-verified-archive"@,
            Translator::TwoCap,
            0xffff_ffff_ffff_f000,
        )
        &&& self.notarized.opens(
            prefix,
            "-notarizations"@,
            Translator::TwoCap,
            0xffff_ffff_ffff_f000,
        )
        &&& self.finalized.opens(
            prefix,
            "-finalizations"@,
            Translator::EightCap,
            0xffff_ffff_fff0_0000,
        )
        &&& self.blocks.opens(prefix, "-blocks"@, Translator::EightCap, 0xffff_ffff_fff0_0000)
    }
}

impl Found {
    /// The block that was found, if one was: the first one of the buffer, or the one stored.
    pub open spec fn first(self) -> Option<Block> {
        match self {
            Found::Buffered(blocks) => if blocks@.len() > 0 {
                Some(blocks@[0])
            } else {
                None
            },
            Found::Stored(block) => block,
            Found::Notarized(Some(notarized)) => Some(notarized.block),
            Found::Notarized(None) => None,
        }
    }

    /// Picks the block that was found, if one was.
    pub fn into_block(self) -> (block: Option<Block>)
        ensures
            block == self.first(),
    {
        match self {
            Found::Buffered(blocks) => {
                let mut blocks = blocks;
                if blocks.len() > 0 {
                    Some(blocks.swap_remove(0))
                } else {
                    None
                }
            },
            Found::Stored(block) => block,
            Found::Notarized(Some(notarized)) => Some(notarized.block),
            Found::Notarized(None) => None,
        }
    }
}

impl<R> Lookup<R> {
    /// The same search in another place.
    pub open spec fn in_place(self, source: Source) -> Lookup<R> {
        Lookup { request: self.request, response: self.response, source }
    }

    /// What is to be done when the place that was looked at holds the given block, or none.
    pub open spec fn next(self, found: Option<Block>) -> LookupStep<R> {
        match (found, self.source) {
            (Some(block), _) => LookupStep::Respond { response: self.response, block },
            (None, Source::Buffer) => LookupStep::LookIn(self.in_place(Source::Verified)),
            (None, Source::Verified) => LookupStep::LookIn(self.in_place(Source::Notarized)),
            (None, Source::Notarized) => LookupStep::LookIn(self.in_place(Source::Finalized)),
            (None, Source::Finalized) => LookupStep::Subscribe {
                fetch: self.request.view,
                payload: self.request.payload,
                response: self.response,
            },
        }
    }

    /// How many places are left to look at.
    pub open spec fn places_left(self) -> nat {
        match self.source {
            Source::Buffer => 4,
            Source::Verified => 3,
            Source::Notarized => 2,
            Source::Finalized => 1,
        }
    }

    /// Decides what is to be done when the place that was looked at holds what was found.
    pub fn advance(self, found: Found) -> (step: LookupStep<R>)
        ensures
            step == self.next(found.first()),
    {
        let Lookup { request, response, source } = self;
        match found.into_block() {
            Some(block) => LookupStep::Respond { response, block },
            None => match source {
                Source::Buffer => LookupStep::LookIn(
                    Lookup { request, response, source: Source::Verified },
                ),
                Source::Verified => LookupStep::LookIn(
                    Lookup { request, response, source: Source::Notarized },
                ),
                Source::Notarized => LookupStep::LookIn(
                    Lookup { request, response, source: Source::Finalized },
                ),
                Source::Finalized => LookupStep::Subscribe {
                    fetch: request.view,
                    payload: request.payload,
                    response,
                },
            },
        }
    }
}

/// Decides what is to be done after a write: a write that came too late does no harm, a write
/// that failed does.
pub fn after_put(result: PutResult) -> (action: AfterPut)
    ensures
        action == AfterPut::Halt <==> result == PutResult::Failed,
{
    match result {
        PutResult::Stored | PutResult::AlreadyPruned => AfterPut::Continue,
        PutResult::Failed => AfterPut::Halt,
    }
}

/// What is to be done for a message of the application. A block is stored under its digest.
pub open spec fn reaction_to<R>(message: Message<R>) -> Reaction<R> {
    match message {
        Message::Get { request, response } => Reaction::LookIn(
            Lookup { request, response, source: Source::Buffer },
        ),
        Message::Broadcast { payload } => Reaction::Broadcast { block: payload },
        Message::StoreVerified { view, payload } => Reaction::PutVerified {
            view,
            key: payload.digest,
            block: payload,
        },
    }
}

impl Actor {
    /// Makes the syncer, and says how its archives are opened.
    pub fn new(config: Config) -> (syncer: (Actor, Archives))
        ensures
            syncer.0 == (Actor {
                public_key: config.public_key,
                participants: config.participants,
                mailbox_size: config.mailbox_size,
                backfill_quota: config.backfill_quota,
                activity_timeout: config.activity_timeout,
            }),
            syncer.1.of_node(config.partition_prefix@),
    {
        let archives = Archives {
            verified: ArchiveConfig::for_partition(
                &config.partition_prefix,
                "-verified-archive",
                Translator::TwoCap,
                VIEW_SECTION_MASK,
            ),
            notarized: ArchiveConfig::for_partition(
                &config.partition_prefix,
                "-notarizations",
                Translator::TwoCap,
                VIEW_SECTION_MASK,
            ),
            finalized: ArchiveConfig::for_partition(
                &config.partition_prefix,
                "-finalizations",
                Translator::EightCap,
                HEIGHT_SECTION_MASK,
            ),
            blocks: ArchiveConfig::for_partition(
                &config.partition_prefix,
                "-blocks",
                Translator::EightCap,
                HEIGHT_SECTION_MASK,
            ),
        };
        let actor = Actor {
            public_key: config.public_key,
            participants: config.participants,
            mailbox_size: config.mailbox_size,
            backfill_quota: config.backfill_quota,
            activity_timeout: config.activity_timeout,
        };
        (actor, archives)
    }

    /// How the resolver of this syncer is run.
    pub fn resolver_config(&self) -> (config: ResolverConfig<'_>)
        ensures
            config == (ResolverConfig {
                participants: &self.participants,
                mailbox_size: self.mailbox_size,
                public_key: self.public_key,
                rate_limit: self.backfill_quota,
                initial_ms: 1000,
                timeout_ms: 2000,
                fetch_retry_timeout_ms: 100,
                priority_requests: false,
                priority_responses: false,
            }),
    {
        ResolverConfig {
            participants: &self.participants,
            mailbox_size: self.mailbox_size,
            public_key: self.public_key,
            rate_limit: self.backfill_quota,
            initial_ms: 1000,
            timeout_ms: 2000,
            // A pause between retries, so that a fetch that fails at once does not spin.
            fetch_retry_timeout_ms: 100,
            priority_requests: false,
            priority_responses: false,
        }
    }

    /// Decides what is to be done for a message of the application.
    pub fn run<R>(&self, message: Message<R>) -> (reaction: Reaction<R>)
        ensures
            reaction == reaction_to(message),
    {
        match message {
            Message::Get { request, response } => Reaction::LookIn(
                Lookup { request, response, source: Source::Buffer },
            ),
            Message::Broadcast { payload } => Reaction::Broadcast { block: payload },
            Message::StoreVerified { view, payload } => Reaction::PutVerified {
                view,
                key: payload.digest,
                block: payload,
            },
        }
    }
}

/// How a search ends when each place holds what `holds` says of it.
pub open spec fn search<R>(lookup: Lookup<R>, holds: spec_fn(Source) -> Option<Block>) -> LookupStep<R>
    decreases lookup.places_left(),
{
    match lookup.next(holds(lookup.source)) {
        LookupStep::LookIn(next) => if next.places_left() < lookup.places_left() {
            search(next, holds)
        } else {
            LookupStep::LookIn(next)
        },
        step => step,
    }
}

/// A search that starts in the buffer ends with the block of the first place that holds one, in
/// the order buffer, verified, notarized, finalized; only where no place holds it does the syncer
/// wait for it, and it turns to the network if and only if the view was given.
pub proof fn law_search_order<R>(request: BlockRequest, response: R, holds: spec_fn(Source) -> Option<Block>)
    ensures
        search(Lookup { request, response, source: Source::Buffer }, holds) == (if holds(
            Source::Buffer,
        ) is Some {
            LookupStep::Respond { response, block: holds(Source::Buffer)->0 }
        } else if holds(Source::Verified) is Some {
            LookupStep::Respond { response, block: holds(Source::Verified)->0 }
        } else if holds(Source::Notarized) is Some {
            LookupStep::Respond { response, block: holds(Source::Notarized)->0 }
        } else if holds(Source::Finalized) is Some {
            LookupStep::Respond { response, block: holds(Source::Finalized)->0 }
        } else {
            LookupStep::Subscribe { fetch: request.view, payload: request.payload, response }
        }),
{
    reveal_with_fuel(search, 4);
}

/// What the answer of a search that is over is given through, at once or when the block comes.
pub open spec fn answered_through<R>(step: LookupStep<R>) -> Option<R> {
    match step {
        LookupStep::Respond { response, .. } => Some(response),
        LookupStep::Subscribe { response, .. } => Some(response),
        LookupStep::LookIn(_) => None,
    }
}

/// Each request is answered through its own response and through no other: two requests that are
/// sent one after the other, even for one block in one view, stand in the queue as two messages in
/// that order, and the searches that they start end with an answer through the one and through the
/// other, whatever the places hold. So requests with responses of their own have answers of their
/// own.
pub proof fn law_requests_are_answered_apart<R>(
    queue: Seq<Message<R>>,
    first: (Option<u64>, Digest, R),
    second: (Option<u64>, Digest, R),
    holds: spec_fn(Source, Digest) -> Option<Block>,
)
    ensures
        ({
            let one = Message::Get {
                request: BlockRequest { view: first.0, payload: first.1 },
                response: first.2,
            };
            let other = Message::Get {
                request: BlockRequest { view: second.0, payload: second.1 },
                response: second.2,
            };
            let after = queue.push(one).push(other);
            &&& after.len() == queue.len() + 2
            &&& after.take(queue.len() as int) == queue
            &&& reaction_to(after[queue.len() as int]) matches Reaction::LookIn(lookup)
                && answered_through(
                search(lookup, |source: Source| holds(source, first.1)),
            ) == Some(first.2)
            &&& reaction_to(after[queue.len() as int + 1]) matches Reaction::LookIn(lookup)
                && answered_through(
                search(lookup, |source: Source| holds(source, second.1)),
            ) == Some(second.2)
            &&& first.2 != second.2 ==> one != other
        }),
{
    let one = BlockRequest { view: first.0, payload: first.1 };
    let other = BlockRequest { view: second.0, payload: second.1 };
    let after = queue.push(Message::Get { request: one, response: first.2 }).push(
        Message::Get { request: other, response: second.2 },
    );
    assert(after.take(queue.len() as int) =~= queue);
    law_search_order(one, first.2, |source: Source| holds(source, first.1));
    law_search_order(other, second.2, |source: Source| holds(source, second.1));
}

/// Under each digest the places hold blocks of that digest only.
pub open spec fn keyed_by_digest(holds: spec_fn(Source, Digest) -> Option<Block>) -> bool {
    forall|source: Source, digest: Digest| #[trigger]
        holds(source, digest) matches Some(block) ==> block.digest == digest
}

/// A block that was stored as verified is found: once what is to be written for it has been
/// written, a search for its digest, with a view or without, is answered from what is at hand.
/// The answer is the stored block unless the buffer holds one for that digest; and where the
/// places hold under each digest blocks of that digest only, it is a block of that digest.
pub proof fn law_verified_blocks_are_found<R>(
    view: u64,
    block: Block,
    later: Option<u64>,
    response: R,
    holds: spec_fn(Source, Digest) -> Option<Block>,
)
    requires
        reaction_to(Message::<R>::StoreVerified { view, payload: block }) matches Reaction::PutVerified {
            key,
            block: stored,
            ..
        } && holds(Source::Verified, key) == Some(stored),
    ensures
        reaction_to(
            Message::Get { request: BlockRequest { view: later, payload: block.digest }, response },
        ) matches Reaction::LookIn(lookup) && search(
            lookup,
            |source: Source| holds(source, lookup.request.payload),
        ) matches LookupStep::Respond { response: through, block: found } && through == response
            && (holds(Source::Buffer, block.digest) is None ==> found == block)
            && (keyed_by_digest(holds) ==> found.digest == block.digest),
{
    let request = BlockRequest { view: later, payload: block.digest };
    law_search_order(request, response, |source: Source| holds(source, request.payload));
}

/// Every search ends: each place that holds nothing brings it closer to its end, and what is
/// asked for and what the answer is given through stay the same.
pub proof fn law_search_ends<R>(lookup: Lookup<R>)
    ensures
        lookup.next(None) matches LookupStep::LookIn(next) ==> next.request == lookup.request
            && next.response == lookup.response && next.places_left() + 1 == lookup.places_left(),
        lookup.places_left() == 1 ==> !(lookup.next(None) is LookIn),
{
}

/// The archives of a node never share a partition.
pub proof fn law_partitions_are_apart(archives: Archives, prefix: Seq<char>)
    requires
        archives.of_node(prefix),
    ensures
        archives.verified.partition@ != archives.notarized.partition@,
        archives.verified.partition@ != archives.finalized.partition@,
        archives.verified.partition@ != archives.blocks.partition@,
        archives.notarized.partition@ != archives.finalized.partition@,
        archives.notarized.partition@ != archives.blocks.partition@,
        archives.finalized.partition@ != archives.blocks.partition@,
{
    reveal_strlit("-verified-archive");
    reveal_strlit("-notarizations");
    reveal_strlit("-finalizations");
    reveal_strlit("-blocks");
    let n = prefix.len() as int;
    assert(archives.notarized.partition@[n + 1] == 'n');
    assert(archives.finalized.partition@[n + 1] == 'f');
}

/// Two texts whose endings differ somewhere, counted from the back, differ.
proof fn lemma_endings_differ(p: Seq<char>, s: Seq<char>, q: Seq<char>, t: Seq<char>, back: int)
    requires
        0 < back <= s.len(),
        back <= t.len(),
        s[s.len() - back] != t[t.len() - back],
    ensures
        p + s != q + t,
{
    let a = p + s;
    let b = q + t;
    if a == b {
        assert(a[a.len() - back] == s[s.len() - back]);
        assert(b[b.len() - back] == t[t.len() - back]);
    }
}

/// Two texts that end alike and start differently differ.
proof fn lemma_starts_differ(p: Seq<char>, q: Seq<char>, s: Seq<char>)
    requires
        p != q,
    ensures
        p + s != q + s,
{
    if p + s == q + s {
        assert((p + s).len() == (q + s).len());
        assert((p + s).take(p.len() as int) =~= p);
        assert((q + s).take(p.len() as int) =~= q);
    }
}

/// Nodes with different prefixes share no partition, whatever the prefixes are: no archive of the
/// one is any archive of the other.
pub proof fn law_nodes_share_no_partition(a: Archives, p: Seq<char>, b: Archives, q: Seq<char>)
    requires
        p != q,
        a.of_node(p),
        b.of_node(q),
    ensures
        forall|i: int, j: int|
            0 <= i < 4 && 0 <= j < 4 ==> #[trigger] a.partitions()[i] != #[trigger] b.partitions()[j],
{
    reveal_strlit("-verified-archive");
    reveal_strlit("-notarizations");
    reveal_strlit("-finalizations");
    reveal_strlit("-blocks");
    let verified = "-verified-archive"@;
    let notarized = "-notarizations"@;
    let finalized = "-finalizations"@;
    let blocks = "-blocks"@;
    lemma_starts_differ(p, q, verified);
    lemma_starts_differ(p, q, notarized);
    lemma_starts_differ(p, q, finalized);
    lemma_starts_differ(p, q, blocks);
    lemma_endings_differ(p, verified, q, notarized, 1);
    lemma_endings_differ(p, verified, q, finalized, 1);
    lemma_endings_differ(p, verified, q, blocks, 1);
    lemma_endings_differ(p, notarized, q, verified, 1);
    lemma_endings_differ(p, finalized, q, verified, 1);
    lemma_endings_differ(p, blocks, q, verified, 1);
    lemma_endings_differ(p, notarized, q, finalized, 13);
    lemma_endings_differ(p, finalized, q, notarized, 13);
    lemma_endings_differ(p, notarized, q, blocks, 2);
    lemma_endings_differ(p, blocks, q, notarized, 2);
    lemma_endings_differ(p, finalized, q, blocks, 2);
    lemma_endings_differ(p, blocks, q, finalized, 2);
    assert forall|i: int, j: int| 0 <= i < 4 && 0 <= j < 4 implies #[trigger] a.partitions()[i]
        != #[trigger] b.partitions()[j] by {
        assert(i == 0 || i == 1 || i == 2 || i == 3);
        assert(j == 0 || j == 1 || j == 2 || j == 3);
    }
}

/// What a place hands over is the answer: whatever block an archive holds, and the first of the
/// blocks that the buffer holds, is answered, as it is and through the response of the search. The
/// search goes on only where the place handed over nothing.
pub proof fn law_what_is_found_is_answered<R>(lookup: Lookup<R>, found: Found)
    ensures
        ({
            let step = lookup.next(found.first());
            &&& found matches Found::Stored(Some(stored)) ==> step == (LookupStep::Respond {
                response: lookup.response,
                block: stored,
            })
            &&& found matches Found::Notarized(Some(notarized)) ==> step == (LookupStep::Respond {
                response: lookup.response,
                block: notarized.block,
            })
            &&& found matches Found::Buffered(blocks) ==> (blocks@.len() > 0 ==> step == (
            LookupStep::Respond { response: lookup.response, block: blocks@[0] }))
            &&& found == Found::Stored(None) ==> !(step is Respond)
            &&& found == Found::Notarized(None) ==> !(step is Respond)
            &&& found matches Found::Buffered(blocks) ==> (blocks@.len() == 0 ==> !(step is Respond))
        }),
{
}

/// A search that found nothing in one place goes on to the next, from the buffer to the verified,
/// the notarized and the finalized blocks, for the same request and response. After the last place
/// it waits for the block that was asked for, and fetches it if and only if the view was given.
pub proof fn law_places_follow_one_another<R>(request: BlockRequest, response: R)
    ensures
        ({
            let at = |source: Source| Lookup { request, response, source };
            let nothing = Found::Stored(None).first();
            &&& at(Source::Buffer).next(nothing) == LookupStep::LookIn(at(Source::Verified))
            &&& at(Source::Verified).next(nothing) == LookupStep::LookIn(at(Source::Notarized))
            &&& at(Source::Notarized).next(nothing) == LookupStep::LookIn(at(Source::Finalized))
            &&& at(Source::Finalized).next(nothing) matches LookupStep::Subscribe {
                fetch,
                payload,
                response: through,
            } && fetch == request.view && payload == request.payload && through == response
        }),
{
}

/// What is done for each message: a search starts in the buffer for what was asked, a block is
/// sent as it is, and a verified block is put under its own digest and the view that was given.
pub proof fn law_messages_are_followed<R>(request: BlockRequest, response: R, view: u64, block: Block)
    ensures
        reaction_to(Message::Get { request, response }) matches Reaction::LookIn(lookup) && lookup.request
            == request && lookup.response == response && lookup.source == Source::Buffer,
        reaction_to(Message::<R>::Broadcast { payload: block }) matches Reaction::Broadcast { block: sent }
            && sent == block,
        reaction_to(Message::<R>::StoreVerified { view, payload: block }) matches Reaction::PutVerified {
            view: at,
            key,
            block: put,
        } && at == view && key == block.digest && put == block,
{
}

/// Each archive of a node is a partition under the prefix of the node: verified and notarized
/// blocks are found by two bytes of their keys and kept in sections of views, finalizations and
/// finalized blocks by eight bytes and in sections of heights.
pub proof fn law_archives_are_under_the_prefix(archives: Archives, prefix: Seq<char>)
    requires
        archives.of_node(prefix),
    ensures
        archives.verified.partition@ == prefix + "-verified-archive"@,
        archives.verified.translator == Translator::TwoCap,
        archives.verified.section_mask == 0xffff_ffff_ffff_f000,
        archives.verified.compression is None,
        archives.verified.pending_writes == 0,
        archives.verified.write_buffer == 1024 * 1024,
        archives.verified.replay_concurrency == 4,
        archives.verified.replay_buffer == 8 * 1024 * 1024,
        archives.notarized.partition@ == prefix + "-notarizations"@,
        archives.notarized.translator == Translator::TwoCap,
        archives.notarized.section_mask == 0xffff_ffff_ffff_f000,
        archives.notarized.compression is None,
        archives.notarized.pending_writes == 0,
        archives.notarized.write_buffer == 1024 * 1024,
        archives.notarized.replay_concurrency == 4,
        archives.notarized.replay_buffer == 8 * 1024 * 1024,
        archives.finalized.partition@ == prefix + "-finalizations"@,
        archives.finalized.translator == Translator::EightCap,
        archives.finalized.section_mask == 0xffff_ffff_fff0_0000,
        archives.finalized.compression is None,
        archives.finalized.pending_writes == 0,
        archives.finalized.write_buffer == 1024 * 1024,
        archives.finalized.replay_concurrency == 4,
        archives.finalized.replay_buffer == 8 * 1024 * 1024,
        archives.blocks.partition@ == prefix + "-blocks"@,
        archives.blocks.translator == Translator::EightCap,
        archives.blocks.section_mask == 0xffff_ffff_fff0_0000,
        archives.blocks.compression is None,
        archives.blocks.pending_writes == 0,
        archives.blocks.write_buffer == 1024 * 1024,
        archives.blocks.replay_concurrency == 4,
        archives.blocks.replay_buffer == 8 * 1024 * 1024,
{
}

} // verus!
