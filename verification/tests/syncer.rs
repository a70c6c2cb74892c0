use summit::syncer::actor::{
    after_put, Actor, AfterPut, Archives, Config, Found, Lookup, LookupStep, PutResult, Reaction,
    Source, Translator,
};
use summit::syncer::ingress::{Mailbox, Message};
use summit::types::{Block, BlockRequest, Digest, ExecutionPayload, Notarized, PublicKey, Quota};

fn block(digest: u8) -> Block {
    Block {
        digest: Digest([digest; 32]),
        parent: Digest([0; 32]),
        height: 1,
        timestamp: 1,
        payload: ExecutionPayload {
            parent_hash: [0; 32],
            fee_recipient: [0; 20],
            state_root: [0; 32],
            receipts_root: [0; 32],
            logs_bloom: [0; 256],
            prev_randao: [0; 32],
            block_number: 0,
            gas_limit: 0,
            gas_used: 0,
            timestamp: 0,
            extra_data: vec![],
            base_fee_per_gas: [0; 32],
            block_hash: [0; 32],
            transactions: vec![],
            withdrawals: vec![],
            blob_gas_used: 0,
            excess_blob_gas: 0,
        },
        execution_requests: vec![],
        block_value: [0; 32],
    }
}

fn config() -> Config {
    Config {
        partition_prefix: "quartz".to_string(),
        public_key: PublicKey([1; 48]),
        participants: vec![PublicKey([2; 48]), PublicKey([1; 48])],
        mailbox_size: 16,
        backfill_quota: Quota { burst_size: 10, replenish_interval_ns: 100_000_000 },
        activity_timeout: 256,
    }
}

fn answer(block: Block) -> LookupStep<u32> {
    LookupStep::Respond { response: 40, block }
}

fn request(view: Option<u64>) -> BlockRequest {
    BlockRequest { view, payload: Digest([5; 32]) }
}

fn search(view: Option<u64>, held: [bool; 4]) -> LookupStep<u32> {
    let (actor, _) = Actor::new(config());
    let mut lookup = match actor.run(Mailbox::get(view, Digest([5; 32]), 40)) {
        Reaction::LookIn(lookup) => lookup,
        _ => panic!("a search starts"),
    };
    loop {
        let found = match lookup.source {
            Source::Buffer if held[0] => Found::Buffered(vec![block(1), block(9)]),
            Source::Buffer => Found::Buffered(vec![]),
            Source::Verified if held[1] => Found::Stored(Some(block(2))),
            Source::Notarized if held[2] => {
                Found::Notarized(Some(Notarized { proof: vec![1], block: block(3) }))
            }
            Source::Notarized => Found::Notarized(None),
            Source::Finalized if held[3] => Found::Stored(Some(block(4))),
            Source::Verified | Source::Finalized => Found::Stored(None),
        };
        match lookup.advance(found) {
            LookupStep::LookIn(next) => lookup = next,
            step => return step,
        }
    }
}

#[test]
fn archives_are_named_after_the_prefix() {
    let (_, archives) = Actor::new(config());
    let Archives { verified, notarized, finalized, blocks } = archives;
    assert_eq!(verified.partition, "quartz-verified-archive");
    assert_eq!(notarized.partition, "quartz-notarizations");
    assert_eq!(finalized.partition, "quartz-finalizations");
    assert_eq!(blocks.partition, "quartz-blocks");
    assert_eq!(verified.translator, Translator::TwoCap);
    assert_eq!(notarized.translator, Translator::TwoCap);
    assert_eq!(finalized.translator, Translator::EightCap);
    assert_eq!(blocks.translator, Translator::EightCap);
    assert_eq!(verified.section_mask, 0xffff_ffff_ffff_f000);
    assert_eq!(notarized.section_mask, 0xffff_ffff_ffff_f000);
    assert_eq!(finalized.section_mask, 0xffff_ffff_fff0_0000);
    assert_eq!(blocks.section_mask, 0xffff_ffff_fff0_0000);
    for archive in [verified, notarized, finalized, blocks] {
        assert_eq!(archive.compression, None);
        assert_eq!(archive.pending_writes, 0);
        assert_eq!(archive.write_buffer, 1024 * 1024);
        assert_eq!(archive.replay_concurrency, 4);
        assert_eq!(archive.replay_buffer, 8 * 1024 * 1024);
    }
}

#[test]
fn partitions_are_apart() {
    for prefix in ["", "quartz", "-blocks"] {
        let (_, archives) = Actor::new(Config { partition_prefix: prefix.to_string(), ..config() });
        let names = [
            archives.verified.partition,
            archives.notarized.partition,
            archives.finalized.partition,
            archives.blocks.partition,
        ];
        for i in 0..4 {
            for j in 0..i {
                assert_ne!(names[i], names[j]);
            }
        }
    }
}

#[test]
fn the_syncer_keeps_its_configuration() {
    let (actor, _) = Actor::new(config());
    assert_eq!(actor.public_key, PublicKey([1; 48]));
    assert_eq!(actor.participants, vec![PublicKey([2; 48]), PublicKey([1; 48])]);
    assert_eq!(actor.mailbox_size, 16);
    assert_eq!(actor.activity_timeout, 256);
    let resolver = actor.resolver_config();
    assert_eq!(resolver.participants, &actor.participants);
    assert_eq!(resolver.mailbox_size, 16);
    assert_eq!(resolver.public_key, PublicKey([1; 48]));
    assert_eq!(resolver.rate_limit, config().backfill_quota);
    assert_eq!(resolver.initial_ms, 1000);
    assert_eq!(resolver.timeout_ms, 2000);
    assert_eq!(resolver.fetch_retry_timeout_ms, 100);
    assert!(!resolver.priority_requests);
    assert!(!resolver.priority_responses);
}

#[test]
fn the_first_place_that_holds_a_block_answers() {
    assert_eq!(search(None, [true, true, true, true]), answer(block(1)));
    assert_eq!(search(Some(3), [false, true, true, true]), answer(block(2)));
    assert_eq!(search(None, [false, false, true, true]), answer(block(3)));
    assert_eq!(search(Some(3), [false, false, false, true]), answer(block(4)));
}

#[test]
fn a_missing_block_is_waited_for() {
    let payload = Digest([5; 32]);
    assert_eq!(
        search(None, [false; 4]),
        LookupStep::Subscribe { fetch: None, payload, response: 40 }
    );
    assert_eq!(
        search(Some(3), [false; 4]),
        LookupStep::Subscribe { fetch: Some(3), payload, response: 40 }
    );
}

#[test]
fn a_search_goes_on_place_by_place() {
    let mut lookup = Lookup { request: request(Some(3)), response: 40, source: Source::Buffer };
    for source in [Source::Verified, Source::Notarized, Source::Finalized] {
        let next = Lookup { request: request(Some(3)), response: 40, source };
        assert_eq!(lookup.advance(Found::Stored(None)), LookupStep::LookIn(next.clone()));
        lookup = next;
    }
}

#[test]
fn blocks_are_broadcast_and_stored() {
    let (actor, _) = Actor::new(config());
    assert_eq!(
        actor.run(Mailbox::broadcast::<u32>(block(7))),
        Reaction::Broadcast { block: block(7) }
    );
    assert_eq!(
        actor.run(Mailbox::store_verified::<u32>(4, block(7))),
        Reaction::PutVerified { view: 4, key: Digest([7; 32]), block: block(7) }
    );
}

#[test]
fn only_a_failed_write_halts() {
    assert_eq!(after_put(PutResult::Stored), AfterPut::Continue);
    assert_eq!(after_put(PutResult::AlreadyPruned), AfterPut::Continue);
    assert_eq!(after_put(PutResult::Failed), AfterPut::Halt);
}

#[test]
fn application_calls_become_messages() {
    assert_eq!(
        Mailbox::get(Some(3), Digest([5; 32]), 40),
        Message::Get { request: request(Some(3)), response: 40 }
    );
    assert_eq!(Mailbox::broadcast::<u32>(block(1)), Message::Broadcast { payload: block(1) });
    assert_eq!(
        Mailbox::store_verified::<u32>(2, block(1)),
        Message::StoreVerified { view: 2, payload: block(1) }
    );
}

#[test]
fn a_verified_block_is_found_under_its_digest() {
    let (actor, _) = Actor::new(config());
    let mut verified = vec![];
    match actor.run(Mailbox::store_verified::<u32>(4, block(7))) {
        Reaction::PutVerified { key, block, .. } => verified.push((key, block)),
        _ => panic!("a block is stored"),
    }
    let lookup = match actor.run(Mailbox::get(None, Digest([7; 32]), 40)) {
        Reaction::LookIn(lookup) => lookup,
        _ => panic!("a search starts"),
    };
    let lookup = match lookup.advance(Found::Buffered(vec![])) {
        LookupStep::LookIn(lookup) => lookup,
        _ => panic!("the search goes on"),
    };
    assert_eq!(lookup.source, Source::Verified);
    let held = verified.into_iter().find(|(key, _)| *key == lookup.request.payload);
    assert_eq!(
        lookup.advance(Found::Stored(held.map(|(_, block)| block))),
        answer(block(7))
    );
}

#[test]
fn requests_are_answered_apart() {
    let (actor, _) = Actor::new(config());
    let mut queue = vec![];
    queue.push(Mailbox::get(Some(3), Digest([5; 32]), 1));
    queue.push(Mailbox::get(Some(3), Digest([5; 32]), 2));
    let mut lookups = vec![];
    for message in queue {
        match actor.run(message) {
            Reaction::LookIn(lookup) => lookups.push(lookup),
            _ => panic!("a search starts"),
        }
    }
    let second = lookups.pop().unwrap();
    let first = lookups.pop().unwrap();
    assert_eq!(
        second.advance(Found::Buffered(vec![block(5)])),
        LookupStep::Respond { response: 2, block: block(5) }
    );
    assert_eq!(
        Lookup { source: Source::Finalized, ..first }.advance(Found::Stored(None)),
        LookupStep::Subscribe { fetch: Some(3), payload: Digest([5; 32]), response: 1 }
    );
}

#[test]
fn nodes_share_no_partition() {
    let names = |prefix: &str| {
        let (_, archives) = Actor::new(Config { partition_prefix: prefix.to_string(), ..config() });
        let Archives { verified, notarized, finalized, blocks } = archives;
        [verified.partition, notarized.partition, finalized.partition, blocks.partition]
    };
    for (p, q) in [("a", "b"), ("", "-blocks"), ("a", "a-blocks"), ("-notarizations", "")] {
        for one in names(p) {
            assert!(!names(q).contains(&one));
        }
    }
}
