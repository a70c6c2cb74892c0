//! The client of the engine API, by which consensus drives the execution client.
//!
//! Two calls move the execution client forward. `engine_forkchoiceUpdatedV3` sets the head of the
//! chain; with payload attributes it also starts to build a block on that head, which a proposer
//! fetches with `engine_getPayloadV4`. `engine_newPayloadV4` has a block of another validator
//! checked and stored, not committed.

use vstd::prelude::*;

use crate::outside::{jwt_secret, jwt_secret_from_hex, parse_url, url_from_text};
use crate::types::{Block, ExecutionPayload, ForkchoiceState, PayloadId, Withdrawal};

verus! {

/// The engine capabilities that are supported, as of Prague.
pub const CAPABILITIES: [&'static str; 15] = [
    "engine_forkchoiceUpdatedV1",
    "engine_forkchoiceUpdatedV2",
    "engine_forkchoiceUpdatedV3",
    "engine_exchangeTransitionConfigurationV1",
    "engine_getClientVersionV1",
    "engine_getPayloadV1",
    "engine_getPayloadV2",
    "engine_getPayloadV3",
    "engine_getPayloadV4",
    "engine_newPayloadV1",
    "engine_newPayloadV2",
    "engine_newPayloadV3",
    "engine_newPayloadV4",
    "engine_getPayloadBodiesByHashV1",
    "engine_getPayloadBodiesByRangeV1",
];

/// What the execution client is to build a payload with.
#[derive(Clone, Debug, PartialEq, Eq)]
pub struct PayloadAttributes {
    pub timestamp: u64,
    pub prev_randao: [u8; 32],
    pub suggested_fee_recipient: [u8; 20],
    pub withdrawals: Option<Vec<Withdrawal>>,
    pub parent_beacon_block_root: Option<[u8; 32]>,
}

/// A call of the engine API.
#[derive(Clone, Debug, PartialEq, Eq)]
pub enum EngineRequest<'a> {
    /// `engine_forkchoiceUpdatedV3`.
    ForkchoiceUpdatedV3 { fork_choice_state: ForkchoiceState, payload_attributes: Option<PayloadAttributes> },
    /// `engine_getPayloadV4`.
    GetPayloadV4 { payload_id: PayloadId },
    /// `engine_newPayloadV4`.
    NewPayloadV4 {
        payload: &'a ExecutionPayload,
        versioned_hashes: Vec<[u8; 32]>,
        parent_beacon_block_root: [u8; 32],
        execution_requests: &'a Vec<Vec<u8>>,
    },
}

/// Why there can be no client.
#[derive(Clone, Copy, Debug, PartialEq, Eq)]
pub enum EngineClientError {
    /// The secret is not 32 bytes in hexadecimal digits.
    InvalidSecret,
    /// The address is no URL.
    InvalidUrl,
}

/// A client of the engine API: where it is, and the secret that requests are signed with.
#[derive(Clone, Debug, PartialEq, Eq)]
pub struct EngineClient {
    pub secret: Vec<u8>,
    pub url: String,
}

impl EngineClient {
    /// Makes a client of the given URL and the secret in hexadecimal digits.
    pub fn new(engine_url: String, jwt: &str) -> (client: EngineClient)
        requires
            jwt_secret_from_hex(jwt@) is Some,
            url_from_text(engine_url@) is Some,
        ensures
            jwt_secret_from_hex(jwt@) == Some(client.secret@),
            client.secret@.len() == 32,
            url_from_text(engine_url@) == Some(client.url@),
    {
        let (secret, url) = EngineClient::read_parts(&engine_url, jwt);
        EngineClient::from_parts(secret, url).unwrap()
    }

    /// Makes a client of the given URL and the secret in hexadecimal digits, where there can be
    /// one. The secret is looked at first.
    pub fn try_new(engine_url: String, jwt: &str) -> (client: Result<EngineClient, EngineClientError>)
        ensures
            match client {
                Ok(client) => jwt_secret_from_hex(jwt@) == Some(client.secret@)
                    && client.secret@.len() == 32 && url_from_text(engine_url@) == Some(client.url@),
                Err(EngineClientError::InvalidSecret) => jwt_secret_from_hex(jwt@) is None,
                Err(EngineClientError::InvalidUrl) => jwt_secret_from_hex(jwt@) is Some
                    && url_from_text(engine_url@) is None,
            },
    {
        let (secret, url) = EngineClient::read_parts(&engine_url, jwt);
        if secret.is_none() {
            Err(EngineClientError::InvalidSecret)
        } else if url.is_none() {
            Err(EngineClientError::InvalidUrl)
        } else {
            Ok(EngineClient::new(engine_url, jwt))
        }
    }

    /// Reads the secret and the URL, as far as the texts stand for them.
    fn read_parts(engine_url: &String, jwt: &str) -> (parts: (Option<Vec<u8>>, Option<String>))
        ensures
            match parts.0 {
                Some(secret) => jwt_secret_from_hex(jwt@) == Some(secret@),
                None => jwt_secret_from_hex(jwt@) is None,
            },
            match parts.1 {
                Some(url) => url_from_text(engine_url@) == Some(url@),
                None => url_from_text(engine_url@) is None,
            },
    {
        let secret = match jwt_secret(jwt) {
            Ok(secret) => Some(secret),
            Err(_) => None,
        };
        let url = match parse_url(engine_url.as_str()) {
            Ok(url) => Some(url),
            Err(_) => None,
        };
        (secret, url)
    }

    /// Makes a client of a secret and a URL, where there are both.
    pub fn from_parts(secret: Option<Vec<u8>>, url: Option<String>) -> (client: Result<
        EngineClient,
        EngineClientError,
    >)
        ensures
            client == (match (secret, url) {
                (Some(secret), Some(url)) => Ok(EngineClient { secret, url }),
                (None, _) => Err(EngineClientError::InvalidSecret),
                (Some(_), None) => Err(EngineClientError::InvalidUrl),
            }),
    {
        match (secret, url) {
            (Some(secret), Some(url)) => Ok(EngineClient { secret, url }),
            (None, _) => Err(EngineClientError::InvalidSecret),
            (Some(_), None) => Err(EngineClientError::InvalidUrl),
        }
    }

    /// The call that starts to build a payload of the given time on the given fork choice.
    pub fn start_building_block(&self, fork_choice_state: ForkchoiceState, timestamp: u64) -> (request:
        EngineRequest<'static>)
        ensures
            request matches EngineRequest::ForkchoiceUpdatedV3 {
                fork_choice_state: state,
                payload_attributes: Some(attributes),
            } && {
                &&& state == fork_choice_state
                &&& attributes.timestamp == timestamp
                &&& attributes.prev_randao@ == Seq::new(32, |i: int| 0u8)
                &&& attributes.suggested_fee_recipient@ == Seq::new(20, |i: int| 1u8)
                &&& attributes.withdrawals matches Some(withdrawals) && withdrawals@.len() == 0
                &&& attributes.parent_beacon_block_root matches Some(root) && root@ == Seq::new(
                    32,
                    |i: int| 1u8,
                )
            },
    {
        let payload_attributes = PayloadAttributes {
            timestamp,
            prev_randao: [0; 32],
            suggested_fee_recipient: [1; 20],
            withdrawals: Some(Vec::new()),
            parent_beacon_block_root: Some([1; 32]),
        };
        EngineRequest::ForkchoiceUpdatedV3 {
            fork_choice_state,
            payload_attributes: Some(payload_attributes),
        }
    }

    /// The call that fetches a payload that was built.
    pub fn get_payload(&self, payload_id: PayloadId) -> (request: EngineRequest<'static>)
        ensures
            request == (EngineRequest::GetPayloadV4 { payload_id }),
    {
        EngineRequest::GetPayloadV4 { payload_id }
    }

    /// The call that has a block checked and stored.
    pub fn check_payload<'a>(&self, block: &'a Block) -> (request: EngineRequest<'a>)
        ensures
            request matches EngineRequest::NewPayloadV4 {
                payload,
                versioned_hashes,
                parent_beacon_block_root,
                execution_requests,
            } && {
                &&& *payload == block.payload
                &&& versioned_hashes@.len() == 0
                &&& parent_beacon_block_root@ == Seq::new(32, |i: int| 1u8)
                &&& *execution_requests == block.execution_requests
            },
    {
        EngineRequest::NewPayloadV4 {
            payload: &block.payload,
            versioned_hashes: Vec::new(),
            parent_beacon_block_root: [1; 32],
            execution_requests: &block.execution_requests,
        }
    }

    /// The call that sets the head of the chain and builds nothing.
    pub fn commit_hash(&self, fork_choice_state: ForkchoiceState) -> (request: EngineRequest<'static>)
        ensures
            request == (EngineRequest::ForkchoiceUpdatedV3 {
                fork_choice_state,
                payload_attributes: None,
            }),
    {
        EngineRequest::ForkchoiceUpdatedV3 { fork_choice_state, payload_attributes: None }
    }
}

} // verus!
