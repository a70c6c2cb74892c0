use summit::application::actor::{
    can_verify, conclude_verify, handle_verify, Actor, ParentLink, ParentRequest, ProposalAction, ProposalEvent,
    ProposalState, Reaction, VerifyAction, VerifyEvent,
};
use summit::application::config::ApplicationConfig;
use summit::application::engine_client::{
    EngineClient, EngineClientError, EngineRequest, PayloadAttributes, CAPABILITIES,
};
use summit::application::finalizer::Finalizer;
use summit::application::ingress::{Activity, Context, Mailbox, Message, Proposal};
use summit::application::supervisor::Supervisor;
use summit::types::block::decode_withdrawals;
use summit::types::frame::{frame, unframe};
use summit::types::{
    Block, BlockContents, BlockRequest, Digest, ExecutionPayload, ForkchoiceState, Notarized, PayloadEnvelope,
    PayloadId, PublicKey, Withdrawal,
};

const SECRET: &str = "0x0101010101010101010101010101010101010101010101010101010101010101";

fn payload(parent_hash: u8, block_hash: u8) -> ExecutionPayload {
    ExecutionPayload {
        parent_hash: [parent_hash; 32],
        fee_recipient: [7; 20],
        state_root: [8; 32],
        receipts_root: [9; 32],
        logs_bloom: [0; 256],
        prev_randao: [0; 32],
        block_number: 5,
        gas_limit: 30_000_000,
        gas_used: 21_000,
        timestamp: 1,
        extra_data: vec![1, 2],
        base_fee_per_gas: [0; 32],
        block_hash: [block_hash; 32],
        transactions: vec![vec![1], vec![2, 3]],
        withdrawals: vec![Withdrawal { index: 0, validator_index: 1, address: [2; 20], amount: 3 }],
        blob_gas_used: 0,
        excess_blob_gas: 0,
    }
}

fn block(digest: u8, parent: u8, height: u64, timestamp: u64, eth: (u8, u8)) -> Block {
    Block {
        digest: Digest([digest; 32]),
        parent: Digest([parent; 32]),
        height,
        timestamp,
        payload: payload(eth.0, eth.1),
        execution_requests: vec![vec![4]],
        block_value: [5; 32],
    }
}

fn genesis() -> Block {
    block(100, 100, 0, 0, (0, 100))
}

fn actor() -> Actor {
    Actor { genesis_hash: Digest([100; 32]), genesis: genesis(), built_block: None }
}

fn key(first: u8, last: u8) -> PublicKey {
    let mut bytes = [0u8; 48];
    bytes[0] = first;
    bytes[47] = last;
    PublicKey(bytes)
}

fn envelope() -> PayloadEnvelope {
    PayloadEnvelope {
        execution_payload: payload(21, 22),
        execution_requests: vec![vec![6, 7]],
        block_value: [8; 32],
    }
}

fn forkchoice() -> ForkchoiceState {
    ForkchoiceState {
        head_block_hash: [1; 32],
        safe_block_hash: [2; 32],
        finalized_block_hash: [3; 32],
    }
}

#[test]
fn participants_are_sorted_by_their_bytes() {
    let supervisor = Supervisor::new(vec![key(3, 0), key(1, 9), key(2, 0), key(1, 4)]);
    let sorted = vec![key(1, 4), key(1, 9), key(2, 0), key(3, 0)];
    assert_eq!(supervisor.participants(0), Some(&sorted));
    assert_eq!(supervisor.participants(77), Some(&sorted));
    assert_eq!(supervisor.clone().participants(1), Some(&sorted));
}

#[test]
fn committee_order_does_not_depend_on_the_listing() {
    let one = Supervisor::new(vec![key(3, 0), key(1, 9), key(2, 0)]);
    let other = Supervisor::new(vec![key(2, 0), key(3, 0), key(1, 9)]);
    for view in 0..7 {
        assert_eq!(one.leader(view), other.leader(view));
        assert_eq!(one.is_participant(view, &key(3, 0)), other.is_participant(view, &key(3, 0)));
    }
}

#[test]
fn leaders_take_turns() {
    let supervisor = Supervisor::new(vec![key(3, 0), key(1, 0), key(2, 0)]);
    assert_eq!(supervisor.leader(0), Some(key(1, 0)));
    assert_eq!(supervisor.leader(1), Some(key(2, 0)));
    assert_eq!(supervisor.leader(2), Some(key(3, 0)));
    assert_eq!(supervisor.leader(3), Some(key(1, 0)));
    // 2^64 - 1 is a multiple of three.
    assert_eq!(supervisor.leader(u64::MAX), Some(key(1, 0)));
}

#[test]
fn leaders_are_participants() {
    let supervisor = Supervisor::new(vec![key(3, 0), key(1, 0), key(2, 0), key(9, 9)]);
    for view in 0..9 {
        let leader = supervisor.leader(view).unwrap();
        assert_eq!(supervisor.is_participant(view, &leader), Some((view % 4) as u32));
    }
}

#[test]
fn participants_have_numbers() {
    let supervisor = Supervisor::new(vec![key(3, 0), key(1, 0), key(2, 0)]);
    assert_eq!(supervisor.is_participant(0, &key(1, 0)), Some(0));
    assert_eq!(supervisor.is_participant(9, &key(2, 0)), Some(1));
    assert_eq!(supervisor.is_participant(0, &key(3, 0)), Some(2));
    assert_eq!(supervisor.is_participant(0, &key(0, 0)), None);
    assert_eq!(supervisor.is_participant(0, &key(2, 1)), None);
    assert_eq!(supervisor.is_participant(0, &key(4, 0)), None);
    assert_eq!(Supervisor::new(vec![]).is_participant(0, &key(4, 0)), None);
}

#[test]
fn a_key_listed_twice_has_its_last_place_as_number() {
    let supervisor = Supervisor::new(vec![key(2, 0), key(1, 0), key(2, 0), key(3, 0)]);
    assert_eq!(supervisor.is_participant(0, &key(2, 0)), Some(2));
    assert_eq!(supervisor.participants(0).unwrap().len(), 4);
}

#[test]
fn a_child_is_verified() {
    let parent = block(2, 1, 7, 1000, (20, 21));
    assert!(handle_verify(&block(3, 2, 8, 1001, (21, 22)), &parent));
    assert!(handle_verify(&block(3, 2, 8, 5000, (21, 22)), &parent));
}

#[test]
fn another_execution_parent_is_rejected() {
    let parent = block(2, 1, 7, 1000, (20, 21));
    assert!(!handle_verify(&block(3, 2, 8, 1001, (20, 22)), &parent));
}

#[test]
fn another_parent_is_rejected() {
    let parent = block(2, 1, 7, 1000, (20, 21));
    assert!(!handle_verify(&block(3, 1, 8, 1001, (21, 22)), &parent));
}

#[test]
fn another_height_is_rejected() {
    let parent = block(2, 1, 7, 1000, (20, 21));
    assert!(!handle_verify(&block(3, 2, 7, 1001, (21, 22)), &parent));
    assert!(!handle_verify(&block(3, 2, 9, 1001, (21, 22)), &parent));
}

#[test]
fn a_time_that_does_not_grow_is_rejected() {
    let parent = block(2, 1, 7, 1000, (20, 21));
    assert!(!handle_verify(&block(3, 2, 8, 1000, (21, 22)), &parent));
    assert!(!handle_verify(&block(3, 2, 8, 999, (21, 22)), &parent));
}

#[test]
fn the_height_after_the_last_one_is_not_looked_at_for_strangers() {
    let parent = block(2, 1, u64::MAX, 1000, (20, 21));
    assert!(!handle_verify(&block(3, 9, 0, 1001, (21, 22)), &parent));
}

#[test]
fn a_verified_chain_grows() {
    let chain = [
        block(1, 0, 4, 10, (10, 11)),
        block(2, 1, 5, 12, (11, 12)),
        block(3, 2, 6, 13, (12, 13)),
        block(4, 3, 7, 90, (13, 14)),
    ];
    for i in 1..chain.len() {
        assert!(handle_verify(&chain[i], &chain[i - 1]));
        for j in 0..i {
            assert_eq!(chain[i].height - chain[j].height, (i - j) as u64);
            assert!(chain[j].timestamp < chain[i].timestamp);
        }
    }
}

#[test]
fn verification_ends_with_a_vote() {
    let parent = block(2, 1, 7, 1000, (20, 21));
    let good = block(3, 2, 8, 1001, (21, 22));
    let bad = block(3, 2, 9, 1001, (21, 22));
    assert_eq!(
        conclude_verify(12, VerifyEvent::Blocks { parent: &parent, block: good.clone() }),
        VerifyAction::StoreAndAccept { view: 12, block: good }
    );
    assert_eq!(
        conclude_verify(12, VerifyEvent::Blocks { parent: &parent, block: bad }),
        VerifyAction::Reject
    );
    assert_eq!(conclude_verify(12, VerifyEvent::Aborted), VerifyAction::Nothing);
}

#[test]
fn genesis_is_answered() {
    assert_eq!(
        actor().run(Message::Genesis),
        Reaction::SendGenesis { digest: Digest([100; 32]) }
    );
}

#[test]
fn a_proposal_on_genesis_needs_no_syncer() {
    let actor = actor();
    let parent = (0, Digest([100; 32]));
    assert_eq!(actor.parent_request(parent), ParentRequest::Ready(&genesis()));
    assert_eq!(
        actor.run(Message::Propose { view: 1, parent }),
        Reaction::Propose {
            view: 1,
            state: ProposalState::AwaitingExecution {
                parent: ParentLink { digest: Digest([100; 32]), height: 0, timestamp: 0 }
            },
            action: ProposalAction::AwaitExecution { height: 0 },
        }
    );
}

#[test]
fn a_proposal_asks_for_its_parent() {
    let request = BlockRequest { view: Some(6), payload: Digest([2; 32]) };
    assert_eq!(
        actor().run(Message::Propose { view: 8, parent: (6, Digest([2; 32])) }),
        Reaction::Propose {
            view: 8,
            state: ProposalState::AwaitingParent,
            action: ProposalAction::GetParent(request),
        }
    );
}

#[test]
fn verification_asks_for_both_blocks() {
    let block = BlockRequest { view: None, payload: Digest([3; 32]) };
    assert_eq!(
        actor().run(Message::Verify { view: 8, parent: (6, Digest([2; 32])), payload: Digest([3; 32]) }),
        Reaction::Verify {
            view: 8,
            parent: ParentRequest::Get(BlockRequest { view: Some(6), payload: Digest([2; 32]) }),
            block,
        }
    );
    assert_eq!(
        actor().run(Message::Verify { view: 1, parent: (0, Digest([100; 32])), payload: Digest([3; 32]) }),
        Reaction::Verify { view: 1, parent: ParentRequest::Ready(&genesis()), block }
    );
}

fn propose(actor: &mut Actor, parent: &Block, now: u64) -> Vec<ProposalAction> {
    let mut state = ProposalState::AwaitingParent;
    let mut actions = Vec::new();
    for event in [
        ProposalEvent::Parent(parent),
        ProposalEvent::Executed,
        ProposalEvent::Time { now, forkchoice: forkchoice() },
        ProposalEvent::PayloadId(Some(PayloadId([9; 8]))),
        ProposalEvent::Built,
        ProposalEvent::Payload(envelope()),
        ProposalEvent::Digest(Digest([3; 32])),
    ] {
        let (next, action) = actor.handle_proposal(state, event);
        state = next;
        actions.push(action);
    }
    assert_eq!(state, ProposalState::Finished);
    actions
}

#[test]
fn a_proposal_builds_a_block_on_its_parent() {
    let mut actor = actor();
    let parent = block(2, 1, 7, 1000, (20, 21));
    let actions = propose(&mut actor, &parent, 1500);
    assert_eq!(
        actions,
        vec![
            ProposalAction::AwaitExecution { height: 7 },
            ProposalAction::ReadTime,
            ProposalAction::StartBuilding { forkchoice: forkchoice(), timestamp: 1500 },
            ProposalAction::Sleep { millis: 50 },
            ProposalAction::GetPayload { payload_id: PayloadId([9; 8]) },
            ProposalAction::ComputeDigest,
            ProposalAction::Respond { digest: Digest([3; 32]) },
        ]
    );
    let built = actor.built_block.clone().unwrap();
    assert_eq!(
        built,
        Block {
            digest: Digest([3; 32]),
            parent: Digest([2; 32]),
            height: 8,
            timestamp: 1500,
            payload: payload(21, 22),
            execution_requests: vec![vec![6, 7]],
            block_value: [8; 32],
        }
    );
    assert!(handle_verify(&built, &parent));
}

#[test]
fn a_proposal_is_later_than_its_parent() {
    for now in [0, 999, 1000] {
        let mut actor = actor();
        propose(&mut actor, &block(2, 1, 7, 1000, (20, 21)), now);
        assert_eq!(actor.built_block.unwrap().timestamp, 1001);
    }
}

#[test]
fn a_declined_payload_ends_the_proposal() {
    let mut actor = actor();
    actor.built_block = Some(block(9, 8, 7, 6, (5, 4)));
    let link = ParentLink { digest: Digest([2; 32]), height: 7, timestamp: 1000 };
    let state = ProposalState::AwaitingPayloadId { parent: link, timestamp: 1500 };
    assert_eq!(
        actor.handle_proposal(state, ProposalEvent::PayloadId(None)),
        (ProposalState::Finished, ProposalAction::Fail)
    );
    assert_eq!(actor.built_block, Some(block(9, 8, 7, 6, (5, 4))));
}

#[test]
fn an_aborted_proposal_leaves_the_built_block() {
    let contents = BlockContents {
        parent: Digest([2; 32]),
        height: 8,
        timestamp: 1500,
        payload: payload(21, 22),
        execution_requests: vec![],
        block_value: [8; 32],
    };
    let mut actor = actor();
    actor.built_block = Some(block(9, 8, 7, 6, (5, 4)));
    let (state, action) =
        actor.handle_proposal(ProposalState::AwaitingDigest { contents }, ProposalEvent::Aborted);
    assert_eq!((state.clone(), action), (ProposalState::Finished, ProposalAction::Nothing));
    let late = actor.handle_proposal(state, ProposalEvent::Digest(Digest([3; 32])));
    assert_eq!(late, (ProposalState::Finished, ProposalAction::Nothing));
    assert_eq!(actor.built_block, Some(block(9, 8, 7, 6, (5, 4))));
}

#[test]
fn an_event_out_of_turn_is_ignored() {
    let mut actor = actor();
    assert_eq!(
        actor.handle_proposal(ProposalState::AwaitingParent, ProposalEvent::Built),
        (ProposalState::AwaitingParent, ProposalAction::Nothing)
    );
    assert_eq!(actor.built_block, None);
}

#[test]
fn the_proposed_block_is_broadcast() {
    let mut actor = actor();
    let payload = Digest([3; 32]);
    assert_eq!(actor.run(Message::Broadcast { payload }), Reaction::Nothing);
    propose(&mut actor, &block(2, 1, 7, 1000, (20, 21)), 1500);
    let built = actor.built_block.clone().unwrap();
    assert_eq!(
        actor.run(Message::Broadcast { payload }),
        Reaction::Broadcast { block: &built, expected: true }
    );
    assert_eq!(
        actor.run(Message::Broadcast { payload: Digest([4; 32]) }),
        Reaction::Broadcast { block: &built, expected: false }
    );
}

#[test]
fn the_application_starts_at_genesis() {
    let config = ApplicationConfig {
        participants: vec![key(2, 0), key(1, 0)],
        mailbox_size: 16,
        engine_url: "http://0.0.0.0:8551".to_string(),
        engine_jwt: SECRET.to_string(),
        partition_prefix: "quartz".to_string(),
    };
    let (actor, client, forkchoice, supervisor) =
        Actor::new(config.clone(), Digest([100; 32]));
    assert_eq!(actor.genesis_hash, Digest([100; 32]));
    assert_eq!(actor.genesis, Block::genesis(Digest([100; 32])));
    assert_eq!(actor.built_block, None);
    assert_eq!(client.secret, vec![1; 32]);
    assert_eq!(client.url, "http://0.0.0.0:8551/");
    assert_eq!(
        forkchoice,
        ForkchoiceState {
            head_block_hash: [100; 32],
            safe_block_hash: [100; 32],
            finalized_block_hash: [100; 32],
        }
    );
    assert_eq!(supervisor.participants(0), Some(&vec![key(1, 0), key(2, 0)]));

    let bad = ApplicationConfig { engine_jwt: "xyz".to_string(), ..config };
    assert_eq!(
        Actor::try_new(bad, Digest([100; 32])).err(),
        Some(EngineClientError::InvalidSecret)
    );
}

#[test]
fn an_engine_client_needs_a_secret_and_a_url() {
    let url = "http://localhost:8551".to_string();
    let client = EngineClient::new(url.clone(), SECRET);
    assert_eq!(EngineClient::try_new(url.clone(), SECRET), Ok(client.clone()));
    assert_eq!(client, EngineClient { secret: vec![1; 32], url: "http://localhost:8551/".to_string() });
    let blank = format!("  {}\n", &SECRET[2..]);
    assert_eq!(EngineClient::try_new(url.clone(), &blank).unwrap().secret, vec![1; 32]);
    let spaced = format!("\u{a0}\u{3000}0X{}\u{b}\u{2028}", &SECRET[2..]);
    assert_eq!(EngineClient::try_new(url.clone(), &spaced).unwrap().secret, vec![1; 32]);
    let digits = "00112233445566778899aabbccddeeffFFEEDDCCBBAA99887766554433221100";
    let secret = EngineClient::try_new(url.clone(), digits).unwrap().secret;
    assert_eq!(secret[..4], [0x00, 0x11, 0x22, 0x33]);
    assert_eq!(secret[15..18], [0xff, 0xff, 0xee]);
    for refused in [
        "".to_string(),
        "0x01".to_string(),
        format!("{SECRET}0"),
        format!("{SECRET}00"),
        format!("0x{SECRET}"),
        format!("{} {}", &SECRET[..10], &SECRET[10..]),
        format!("+{}", &SECRET[3..]),
        format!("\u{e9}{}", &SECRET[4..]),
    ] {
        assert_eq!(EngineClient::try_new(url.clone(), &refused), Err(EngineClientError::InvalidSecret));
    }
    assert_eq!(
        EngineClient::try_new(url, &SECRET.replace('1', "g")),
        Err(EngineClientError::InvalidSecret)
    );
    assert_eq!(
        EngineClient::try_new("no url".to_string(), SECRET),
        Err(EngineClientError::InvalidUrl)
    );
    assert_eq!(
        EngineClient::try_new("no url".to_string(), "no secret"),
        Err(EngineClientError::InvalidSecret)
    );
}

#[test]
fn building_asks_for_a_payload_of_the_given_time() {
    let client = EngineClient { secret: vec![1; 32], url: "http://localhost:8551/".to_string() };
    assert_eq!(
        client.start_building_block(forkchoice(), 1234),
        EngineRequest::ForkchoiceUpdatedV3 {
            fork_choice_state: forkchoice(),
            payload_attributes: Some(PayloadAttributes {
                timestamp: 1234,
                prev_randao: [0; 32],
                suggested_fee_recipient: [1; 20],
                withdrawals: Some(vec![]),
                parent_beacon_block_root: Some([1; 32]),
            }),
        }
    );
    assert_eq!(
        client.commit_hash(forkchoice()),
        EngineRequest::ForkchoiceUpdatedV3 { fork_choice_state: forkchoice(), payload_attributes: None }
    );
    assert_eq!(
        client.get_payload(PayloadId([3; 8])),
        EngineRequest::GetPayloadV4 { payload_id: PayloadId([3; 8]) }
    );
}

#[test]
fn a_block_is_checked_with_what_it_carries() {
    let client = EngineClient { secret: vec![1; 32], url: "http://localhost:8551/".to_string() };
    let block = block(3, 2, 8, 1001, (21, 22));
    assert_eq!(
        client.check_payload(&block),
        EngineRequest::NewPayloadV4 {
            payload: &payload(21, 22),
            versioned_hashes: vec![],
            parent_beacon_block_root: [1; 32],
            execution_requests: &vec![vec![4]],
        }
    );
}

#[test]
fn capabilities_reach_prague() {
    assert_eq!(CAPABILITIES.len(), 15);
    assert!(CAPABILITIES.contains(&"engine_forkchoiceUpdatedV3"));
    assert!(CAPABILITIES.contains(&"engine_getPayloadV4"));
    assert!(CAPABILITIES.contains(&"engine_newPayloadV4"));
}

#[test]
fn consensus_calls_become_messages() {
    let context = Context { view: 9, parent: (8, Digest([2; 32])) };
    let payload = Digest([3; 32]);
    assert_eq!(Mailbox::genesis(), Message::Genesis);
    assert_eq!(Mailbox::propose(context), Message::Propose { view: 9, parent: (8, Digest([2; 32])) });
    assert_eq!(
        Mailbox::verify(context, payload),
        Message::Verify { view: 9, parent: (8, Digest([2; 32])), payload }
    );
    assert_eq!(Mailbox::broadcast(payload), Message::Broadcast { payload });
}

#[test]
fn only_finalizations_are_reported() {
    let proposal = Proposal { view: 9, parent: 8, payload: Digest([3; 32]) };
    assert_eq!(
        Mailbox::report(Activity::Finalization { proposal }),
        Some(Message::Finalize { view: 9, parent: 8, payload: Digest([3; 32]) })
    );
    for activity in [
        Activity::Notarize { proposal },
        Activity::Notarization { proposal },
        Activity::Nullify { view: 9 },
        Activity::Nullification { view: 9 },
        Activity::Finalize { proposal },
        Activity::ConflictingNotarize { view: 9 },
        Activity::ConflictingFinalize { view: 9 },
        Activity::NullifyFinalize { proposal },
    ] {
        assert_eq!(Mailbox::report(activity), None);
    }
}

fn contents() -> BlockContents {
    BlockContents {
        parent: Digest([1; 32]),
        height: 2,
        timestamp: 3,
        payload: payload(21, 22),
        execution_requests: vec![vec![6, 7]],
        block_value: [8; 32],
    }
}

#[test]
fn a_withdrawal_is_framed_part_by_part() {
    let withdrawal = Withdrawal { index: 1, validator_index: 2, address: [3; 20], amount: 256 };
    let mut bytes = vec![8, 0, 0, 0, 0, 0, 0, 0, 1, 0, 0, 0, 0, 0, 0, 0];
    bytes.extend([8, 0, 0, 0, 0, 0, 0, 0, 2, 0, 0, 0, 0, 0, 0, 0]);
    bytes.extend([20, 0, 0, 0, 0, 0, 0, 0]);
    bytes.extend([3; 20]);
    bytes.extend([8, 0, 0, 0, 0, 0, 0, 0, 0, 1, 0, 0, 0, 0, 0, 0]);
    assert_eq!(withdrawal.encode(), bytes);
}

#[test]
fn frames_keep_their_parts_apart() {
    let split = frame(&vec![vec![1], vec![2]]);
    assert_eq!(split, [1, 0, 0, 0, 0, 0, 0, 0, 1, 1, 0, 0, 0, 0, 0, 0, 0, 2]);
    assert_ne!(frame(&vec![vec![1, 2]]), split);
    assert_ne!(frame(&vec![vec![1, 2], vec![]]), frame(&vec![vec![], vec![1, 2]]));
    assert!(frame(&vec![]).is_empty());
}

#[test]
fn the_digest_of_contents_is_that_of_their_encoding() {
    assert_eq!(contents().encode().len(), 895);
    let digest = [
        0xb2, 0x88, 0x59, 0x4d, 0x44, 0x39, 0x49, 0x83, 0x57, 0xe6, 0x98, 0x7e, 0xd1, 0x22, 0xbf,
        0x4d, 0x84, 0x87, 0x3d, 0x5a, 0x29, 0x65, 0xa8, 0xb2, 0x05, 0x40, 0xb8, 0x23, 0xe7, 0x31,
        0x29, 0x37,
    ];
    assert_eq!(contents().compute_digest(), Digest(digest));
}

#[test]
fn every_part_of_the_contents_enters_the_digest() {
    let digest = contents().compute_digest();
    let mut others = vec![
        BlockContents { parent: Digest([2; 32]), ..contents() },
        BlockContents { height: 3, ..contents() },
        BlockContents { timestamp: 2, ..contents() },
        BlockContents { execution_requests: vec![vec![6], vec![7]], ..contents() },
        BlockContents { block_value: [9; 32], ..contents() },
    ];
    let mut payloads = vec![payload(21, 23), payload(22, 22)];
    payloads.push(ExecutionPayload { transactions: vec![vec![1, 2, 3]], ..payload(21, 22) });
    payloads.push(ExecutionPayload { withdrawals: vec![], ..payload(21, 22) });
    payloads.push(ExecutionPayload { extra_data: vec![2, 1], ..payload(21, 22) });
    payloads.push(ExecutionPayload { gas_limit: 21_000, gas_used: 30_000_000, ..payload(21, 22) });
    payloads.push(ExecutionPayload { excess_blob_gas: 1, ..payload(21, 22) });
    for payload in payloads {
        others.push(BlockContents { payload, ..contents() });
    }
    for other in others {
        assert_ne!(other.compute_digest(), digest);
    }
}

#[test]
fn a_completed_proposal_carries_the_digest_of_its_contents() {
    let mut actor = actor();
    let digest = contents().compute_digest();
    assert_eq!(
        actor.complete_proposal(contents()),
        (ProposalState::Finished, ProposalAction::Respond { digest })
    );
    let built = actor.built_block.clone().unwrap();
    assert_eq!(built, Block::seal(contents(), digest));
    assert_eq!(
        actor.run(Message::Broadcast { payload: digest }),
        Reaction::Broadcast { block: &built, expected: true }
    );
}

#[test]
fn the_genesis_block_is_empty_and_bears_the_genesis_hash() {
    let genesis = Block::genesis(Digest([100; 32]));
    assert_eq!(genesis.digest, Digest([100; 32]));
    assert_eq!(genesis.parent, Digest([0; 32]));
    assert_eq!((genesis.height, genesis.timestamp), (0, 0));
    assert_eq!(genesis.eth_block_hash(), [100; 32]);
    assert_eq!(genesis.eth_parent_hash(), [0; 32]);
    assert_eq!(genesis.payload.logs_bloom, [0; 256]);
    assert!(genesis.payload.transactions.is_empty());
}

#[test]
fn the_first_proposal_is_accepted() {
    let genesis = Block::genesis(Digest([21; 32]));
    let mut actor = Actor {
        genesis_hash: Digest([21; 32]),
        genesis: genesis.clone(),
        built_block: None,
    };
    let mut state = match actor.run(Message::Propose { view: 1, parent: (0, Digest([21; 32])) }) {
        Reaction::Propose { state, .. } => state,
        _ => panic!("a proposal starts"),
    };
    for event in [
        ProposalEvent::Executed,
        ProposalEvent::Time { now: 0, forkchoice: forkchoice() },
        ProposalEvent::PayloadId(Some(PayloadId([4; 8]))),
        ProposalEvent::Built,
        ProposalEvent::Payload(envelope()),
    ] {
        state = actor.handle_proposal(state, event).0;
    }
    match state {
        ProposalState::AwaitingDigest { contents } => actor.complete_proposal(contents),
        _ => panic!("only the digest is missing"),
    };
    let built = actor.built_block.unwrap();
    assert_eq!((built.height, built.timestamp), (1, 1));
    assert!(handle_verify(&built, &genesis));
}

#[test]
fn blocks_survive_their_bytes() {
    let digest = contents().compute_digest();
    let block = Block::seal(contents(), digest);
    assert_eq!(block.to_bytes(), contents().encode());
    assert_eq!(Block::from_bytes(&block.to_bytes()), Some(block.clone()));
    assert_eq!(BlockContents::decode(&contents().encode()), Some(contents()));
    // The digest is that of the contents, whatever digest the sender claims.
    let claimed = Block { digest: Digest([9; 32]), ..block.clone() };
    assert_eq!(Block::from_bytes(&claimed.to_bytes()), Some(block));
}

#[test]
fn bytes_that_stand_for_no_block_are_refused() {
    let bytes = contents().encode();
    assert_eq!(Block::from_bytes(&[]), None);
    for end in 0..bytes.len() {
        assert_eq!(Block::from_bytes(&bytes[..end]), None);
    }
    let mut longer = bytes.clone();
    longer.push(0);
    assert_eq!(Block::from_bytes(&longer), None);
    let mut one_more_part = bytes.clone();
    one_more_part.extend([0; 8]);
    assert_eq!(Block::from_bytes(&one_more_part), None);
    assert_eq!(Block::from_bytes(&[0xff; 64]), None);
}

#[test]
fn frames_are_taken_apart() {
    let parts = vec![vec![1, 2], vec![], vec![3]];
    assert_eq!(unframe(&frame(&parts)), Some(parts));
    assert_eq!(unframe(&[]), Some(vec![]));
    assert_eq!(unframe(&[1, 0, 0, 0, 0, 0, 0, 0]), None);
    assert_eq!(unframe(&[0, 0, 0]), None);
    assert_eq!(Withdrawal::decode(&frame(&vec![vec![0; 8], vec![0; 8], vec![0; 20]])), None);
    assert_eq!(decode_withdrawals(&frame(&vec![vec![1]])), None);
    assert_eq!(decode_withdrawals(&[]), Some(vec![]));
}

#[test]
fn a_notarized_block_survives_its_bytes() {
    let digest = contents().compute_digest();
    let notarized = Notarized { proof: vec![1, 2, 3], block: Block::seal(contents(), digest) };
    let bytes = notarized.to_bytes();
    assert_eq!(Notarized::from_bytes(&bytes), Some(notarized));
    assert_eq!(Notarized::from_bytes(&bytes[1..]), None);
    assert_eq!(Notarized::from_bytes(&frame(&vec![vec![1], vec![2]])), None);
    assert_eq!(Notarized::from_bytes(&frame(&vec![vec![1]])), None);
}

#[test]
fn the_end_of_time_and_of_heights_is_told() {
    let link = ParentLink { digest: Digest([1; 32]), height: u64::MAX, timestamp: u64::MAX };
    let state = ProposalState::AwaitingTime { parent: link };
    assert!(!state.takes(&ProposalEvent::Time { now: u64::MAX, forkchoice: forkchoice() }));
    assert!(state.takes(&ProposalEvent::Aborted));
    let state = ProposalState::AwaitingPayload { parent: link, timestamp: 1 };
    assert!(!state.takes(&ProposalEvent::Payload(envelope())));
    let link = ParentLink { timestamp: 7, height: 7, ..link };
    let state = ProposalState::AwaitingTime { parent: link };
    assert!(state.takes(&ProposalEvent::Time { now: 3, forkchoice: forkchoice() }));

    let last = block(2, 1, u64::MAX, 1000, (20, 21));
    assert!(!can_verify(&block(3, 2, 0, 1001, (21, 22)), &last));
    assert!(can_verify(&block(3, 9, 0, 1001, (21, 22)), &last));
    assert!(can_verify(&block(3, 2, 0, 1001, (20, 22)), &last));
    assert!(can_verify(&block(3, 2, 8, 1001, (21, 22)), &block(2, 1, 7, 1000, (20, 21))));
}

#[test]
fn finalized_proposals_go_to_the_finalizer() {
    let message = Message::Finalize { view: 9, parent: 8, payload: Digest([7; 32]) };
    assert_eq!(
        actor().run(message),
        Reaction::Finalize(BlockRequest { view: Some(9), payload: Digest([7; 32]) })
    );
}

#[test]
fn finalized_chains_are_executed_in_order() {
    let mut finalizer = Finalizer::new();
    assert!(finalizer.is_executed(0));
    assert!(!finalizer.is_executed(1));
    let one = block(1, 100, 1, 10, (100, 51));
    let two = block(2, 1, 2, 20, (51, 52));
    let three = block(3, 2, 3, 30, (52, 53));
    let parent = |digest| Some(BlockRequest { view: None, payload: Digest([digest; 32]) });
    assert_eq!(finalizer.missing_parent(&three), parent(2));
    assert_eq!(finalizer.missing_parent(&two), parent(1));
    assert_eq!(finalizer.missing_parent(&one), None);
    for (block, hash) in [(&one, 51), (&two, 52), (&three, 53)] {
        assert_eq!(
            finalizer.finalize(block),
            Some(ForkchoiceState {
                head_block_hash: [hash; 32],
                safe_block_hash: [hash; 32],
                finalized_block_hash: [hash; 32],
            })
        );
        assert_eq!(finalizer.executed, block.height);
    }
    assert_eq!(finalizer.finalize(&two), None);
    assert_eq!(finalizer.executed, 3);
    assert!(finalizer.is_executed(3));
    assert!(!finalizer.is_executed(4));
    finalizer.executed = u64::MAX;
    assert_eq!(finalizer.missing_parent(&three), None);
}
