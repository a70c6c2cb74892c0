//! The configuration of the engine, made of the genesis and of the files that the operator keeps.

use vstd::prelude::*;

use crate::outside::{
    decode_polynomial, decode_share, hex_bytes, hex_decoded, is_digit_of, law_hex_is_read_back,
    law_hex_is_read_digit_by_digit, polynomial_from_bytes, public_key,
    public_key_from_private, quorum, quorum_of, quota_of, quota_per_second, share_from_bytes,
    COEFFICIENT_SIZE,
};
use crate::types::frame::word;
use crate::types::{Genesis, PublicKey, Quota, Share};

verus! {

pub const PENDING_CHANNEL: u32 = 0;

pub const RECOVERED_CHANNEL: u32 = 1;

pub const RESOLVER_CHANNEL: u32 = 2;

pub const BROADCASTER_CHANNEL: u32 = 3;

pub const BACKFILLER_CHANNEL: u32 = 4;

/// How many messages of a channel are held back.
pub const MESSAGE_BACKLOG: usize = 16384;

/// How long a fetch may take, in milliseconds.
pub const FETCH_TIMEOUT_MS: u64 = 5000;

/// How many fetches may be under way at once.
pub const FETCH_CONCURRENT: usize = 4;

/// How many items a fetch may ask for.
pub const MAX_FETCH_COUNT: usize = 16;

/// How many bytes a fetch may bring.
pub const MAX_FETCH_SIZE: usize = 512 * 1024;

/// How many messages a mailbox holds.
pub const MAILBOX_SIZE: usize = 16384;

/// How many blocks of each peer the broadcast buffer holds.
pub const DEQUE_SIZE: usize = 10;

/// How many backfill requests a peer may make each second.
pub const BACKFILL_QUOTA: u32 = 10;

/// How many fetches a peer is sent each second.
pub const FETCH_RATE_P2P: u32 = 128;

/// How the reading of a file went.
#[derive(Clone, Debug, PartialEq, Eq)]
pub enum FileRead {
    /// The path could not be expanded.
    NoPath,
    /// The file could not be read as text.
    Unreadable,
    /// The text of the file.
    Text(String),
}

/// A validator's key: the private key, by its encoding, and the public key that belongs to it.
#[derive(Clone, Debug, PartialEq, Eq)]
pub struct Signer {
    pub private_key: Vec<u8>,
    pub public_key: PublicKey,
}

/// What came of the file that holds the share of the threshold key.
#[derive(Clone, Debug, PartialEq, Eq)]
pub enum ShareInput {
    NoPath,
    Unreadable,
    /// The text is not hexadecimal.
    BadFormat,
    /// The bytes are no share.
    Invalid,
    Decoded(Share),
}

/// What came of the public polynomial that the genesis names.
#[derive(Clone, Debug, PartialEq, Eq)]
pub enum PolynomialInput {
    /// The text is not hexadecimal.
    BadFormat,
    /// There is no participant, so that there is no quorum.
    NoParticipants,
    /// The bytes are no polynomial with one coefficient for each member of a quorum.
    Invalid,
    Decoded(Vec<u8>),
}

/// Why there can be no configuration.
#[derive(Clone, Copy, Debug, PartialEq, Eq)]
pub enum ConfigError {
    JwtPath,
    JwtRead,
    SharePath,
    ShareRead,
    ShareFormat,
    ShareInvalid,
    SignerKey,
    PolynomialFormat,
    NoParticipants,
    PolynomialInvalid,
    GenesisHash,
}

impl ConfigError {
    /// A file cannot be read, or holds no signer's key. The other errors are of what was read.
    pub open spec fn is_of_a_file(self) -> bool {
        match self {
            ConfigError::JwtPath
            | ConfigError::JwtRead
            | ConfigError::SharePath
            | ConfigError::ShareRead
            | ConfigError::SignerKey => true,
            ConfigError::ShareFormat
            | ConfigError::ShareInvalid
            | ConfigError::PolynomialFormat
            | ConfigError::NoParticipants
            | ConfigError::PolynomialInvalid
            | ConfigError::GenesisHash => false,
        }
    }

    /// The error in words.
    pub open spec fn words(self) -> Seq<char> {
        match self {
            ConfigError::JwtPath => "failed to expand jwt path"@,
            ConfigError::JwtRead => "failed to load jwt"@,
            ConfigError::SharePath => "failed to expand share path"@,
            ConfigError::ShareRead => "failed to load share hex"@,
            ConfigError::ShareFormat => "invalid format for polynomial share"@,
            ConfigError::ShareInvalid => "Could not parse share"@,
            ConfigError::SignerKey => "failed to load signer key"@,
            ConfigError::PolynomialFormat => "Could not parse polynomial"@,
            ConfigError::NoParticipants => "n must not be zero"@,
            ConfigError::PolynomialInvalid => "polynomial is invalid"@,
            ConfigError::GenesisHash => "bad eth_genesis_hash"@,
        }
    }

    /// Says the error in words.
    pub fn message(&self) -> (message: &'static str)
        ensures
            message@ == self.words(),
    {
        match self {
            ConfigError::JwtPath => "failed to expand jwt path",
            ConfigError::JwtRead => "failed to load jwt",
            ConfigError::SharePath => "failed to expand share path",
            ConfigError::ShareRead => "failed to load share hex",
            ConfigError::ShareFormat => "invalid format for polynomial share",
            ConfigError::ShareInvalid => "Could not parse share",
            ConfigError::SignerKey => "failed to load signer key",
            ConfigError::PolynomialFormat => "Could not parse polynomial",
            ConfigError::NoParticipants => "n must not be zero",
            ConfigError::PolynomialInvalid => "polynomial is invalid",
            ConfigError::GenesisHash => "bad eth_genesis_hash",
        }
    }
}

/// The configuration of the engine. Times are in milliseconds or, where the name says so, in
/// views.
#[derive(Clone, Debug, PartialEq, Eq)]
pub struct EngineConfig {
    pub partition_prefix: String,
    pub signer: Signer,
    pub participants: Vec<PublicKey>,
    pub mailbox_size: usize,
    pub backfill_quota: Quota,
    pub deque_size: usize,
    pub leader_timeout_ms: u64,
    pub notarization_timeout_ms: u64,
    pub nullify_retry_ms: u64,
    pub fetch_timeout_ms: u64,
    pub activity_timeout: u64,
    pub skip_timeout: u64,
    pub max_fetch_count: usize,
    pub max_fetch_size: usize,
    pub fetch_concurrent: usize,
    pub fetch_rate_per_peer: Quota,
    pub engine_url: String,
    pub engine_jwt: String,
    pub namespace: String,
    pub genesis_hash: [u8; 32],
    pub share: Share,
    /// The public polynomial, by its encoding.
    pub polynomial: Vec<u8>,
}

/// The number of participants as far as 32 bits hold it.
pub open spec fn committee_size(participants: nat) -> u32 {
    (participants % 0x1_0000_0000) as u32
}

/// The number of coefficients that the public polynomial has to have.
pub open spec fn threshold_of(participants: nat) -> usize {
    quorum_of(committee_size(participants) as int) as usize
}

/// The first thing that is wrong with the parts of a configuration, in the order in which they
/// are needed.
pub open spec fn first_fault(
    jwt: FileRead,
    share: ShareInput,
    signer: Option<Signer>,
    polynomial: PolynomialInput,
    genesis_hash: Option<[u8; 32]>,
) -> Option<ConfigError> {
    match (jwt, share, signer, polynomial, genesis_hash) {
        (FileRead::NoPath, _, _, _, _) => Some(ConfigError::JwtPath),
        (FileRead::Unreadable, _, _, _, _) => Some(ConfigError::JwtRead),
        (_, ShareInput::NoPath, _, _, _) => Some(ConfigError::SharePath),
        (_, ShareInput::Unreadable, _, _, _) => Some(ConfigError::ShareRead),
        (_, ShareInput::BadFormat, _, _, _) => Some(ConfigError::ShareFormat),
        (_, ShareInput::Invalid, _, _, _) => Some(ConfigError::ShareInvalid),
        (_, _, None, _, _) => Some(ConfigError::SignerKey),
        (_, _, _, PolynomialInput::BadFormat, _) => Some(ConfigError::PolynomialFormat),
        (_, _, _, PolynomialInput::NoParticipants, _) => Some(ConfigError::NoParticipants),
        (_, _, _, PolynomialInput::Invalid, _) => Some(ConfigError::PolynomialInvalid),
        (_, _, _, _, None) => Some(ConfigError::GenesisHash),
        _ => None,
    }
}

/// The input is what the file says of the share.
pub open spec fn share_input_of(input: ShareInput, file: FileRead) -> bool {
    match file {
        FileRead::NoPath => input == ShareInput::NoPath,
        FileRead::Unreadable => input == ShareInput::Unreadable,
        FileRead::Text(text) => match hex_decoded(text@) {
            None => input == ShareInput::BadFormat,
            Some(bytes) => match share_from_bytes(bytes) {
                None => input == ShareInput::Invalid,
                Some((index, private)) => input matches ShareInput::Decoded(share) && share.index
                    == index && share.private@ == private,
            },
        },
    }
}

/// The input is what the file says of the signer's key.
pub open spec fn signer_of(signer: Option<Signer>, file: FileRead) -> bool {
    match file {
        FileRead::NoPath | FileRead::Unreadable => signer is None,
        FileRead::Text(text) => match hex_decoded(text@) {
            None => signer is None,
            Some(bytes) => match public_key_from_private(bytes) {
                None => signer is None,
                Some(key) => signer matches Some(signer) && signer.private_key@ == bytes
                    && signer.public_key.0@ == key,
            },
        },
    }
}

/// The input is what the text says of the public polynomial of so many participants.
pub open spec fn polynomial_input_of(input: PolynomialInput, identity: Seq<char>, participants: nat) -> bool {
    match hex_decoded(identity) {
        None => input == PolynomialInput::BadFormat,
        Some(bytes) => if committee_size(participants) == 0 {
            input == PolynomialInput::NoParticipants
        } else if threshold_of(participants) * COEFFICIENT_SIZE > usize::MAX {
            input == PolynomialInput::Invalid
        } else {
            match polynomial_from_bytes(bytes, threshold_of(participants)) {
                None => input == PolynomialInput::Invalid,
                Some(polynomial) => input matches PolynomialInput::Decoded(decoded) && decoded@
                    == polynomial && decoded@.len() == threshold_of(participants)
                    * COEFFICIENT_SIZE,
            }
        },
    }
}

/// The hash is the 32 bytes that the text stands for.
pub open spec fn genesis_hash_of(hash: Option<[u8; 32]>, text: Seq<char>) -> bool {
    match hex_decoded(text) {
        Some(bytes) if bytes.len() == 32 => hash matches Some(hash) && hash@ == bytes,
        _ => hash is None,
    }
}

/// What is wrong with the file of the share of the threshold key.
pub open spec fn share_fault(file: FileRead) -> Option<ConfigError> {
    match file {
        FileRead::NoPath => Some(ConfigError::SharePath),
        FileRead::Unreadable => Some(ConfigError::ShareRead),
        FileRead::Text(text) => match hex_decoded(text@) {
            None => Some(ConfigError::ShareFormat),
            Some(bytes) => if share_from_bytes(bytes) is None {
                Some(ConfigError::ShareInvalid)
            } else {
                None
            },
        },
    }
}

/// The file holds the signer's key.
pub open spec fn holds_signer(file: FileRead) -> bool {
    match file {
        FileRead::Text(text) => hex_decoded(text@) is Some && public_key_from_private(
            hex_decoded(text@)->0,
        ) is Some,
        _ => false,
    }
}

/// What is wrong with the public polynomial of so many participants.
pub open spec fn polynomial_fault(identity: Seq<char>, participants: nat) -> Option<ConfigError> {
    if hex_decoded(identity) is None {
        Some(ConfigError::PolynomialFormat)
    } else if committee_size(participants) == 0 {
        Some(ConfigError::NoParticipants)
    } else if threshold_of(participants) * COEFFICIENT_SIZE > usize::MAX || polynomial_from_bytes(
        hex_decoded(identity)->0,
        threshold_of(participants),
    ) is None {
        Some(ConfigError::PolynomialInvalid)
    } else {
        None
    }
}

/// The file holds the private key that belongs to the given public key.
pub open spec fn signs_as(file: FileRead, key: PublicKey) -> bool {
    file matches FileRead::Text(text) && holds_signer(file) && public_key_from_private(
        hex_decoded(text@)->0,
    ) == Some(key.0@)
}

/// The first thing that is wrong with the files and the genesis, in the order in which they are
/// needed: the secret, the share, the signer's key, the polynomial, the genesis hash.
pub open spec fn config_fault(
    engine_jwt: FileRead,
    key: FileRead,
    poly_share: FileRead,
    participants: nat,
    genesis: Genesis,
) -> Option<ConfigError> {
    if engine_jwt == FileRead::NoPath {
        Some(ConfigError::JwtPath)
    } else if engine_jwt == FileRead::Unreadable {
        Some(ConfigError::JwtRead)
    } else if share_fault(poly_share) is Some {
        share_fault(poly_share)
    } else if !holds_signer(key) {
        Some(ConfigError::SignerKey)
    } else if polynomial_fault(genesis.identity@, participants) is Some {
        polynomial_fault(genesis.identity@, participants)
    } else if !(hex_decoded(genesis.eth_genesis_hash@) matches Some(bytes) && bytes.len() == 32) {
        Some(ConfigError::GenesisHash)
    } else {
        None
    }
}

impl EngineConfig {
    /// The configuration has what the operator and the genesis set, and the defaults.
    pub open spec fn has_settings(
        self,
        engine_url: Seq<char>,
        participants: Seq<PublicKey>,
        db_prefix: Seq<char>,
        genesis: Genesis,
    ) -> bool {
        &&& self.engine_url@ == engine_url
        &&& self.participants@ == participants
        &&& self.partition_prefix@ == db_prefix
        &&& self.leader_timeout_ms == genesis.leader_timeout_ms
        &&& self.notarization_timeout_ms == genesis.notarization_timeout_ms
        &&& self.nullify_retry_ms == genesis.nullify_timeout_ms
        &&& self.activity_timeout == genesis.activity_timeout_views
        &&& self.skip_timeout == genesis.skip_timeout_views
        &&& self.namespace@ == genesis.namespace@
        &&& self.mailbox_size == 16384
        &&& self.backfill_quota == quota_of(10)
        &&& self.deque_size == 10
        &&& self.fetch_timeout_ms == 5000
        &&& self.max_fetch_count == 16
        &&& self.max_fetch_size == 524_288
        &&& self.fetch_concurrent == 4
        &&& self.fetch_rate_per_peer == quota_of(128)
    }

    /// The configuration has the secret of the one file, the key of the other and the share of
    /// the third, and the polynomial and the hash that the genesis names.
    pub open spec fn has_keys(
        self,
        engine_jwt: FileRead,
        key: FileRead,
        poly_share: FileRead,
        participants: nat,
        genesis: Genesis,
    ) -> bool {
        &&& engine_jwt == FileRead::Text(self.engine_jwt)
        &&& signer_of(Some(self.signer), key)
        &&& share_input_of(ShareInput::Decoded(self.share), poly_share)
        &&& polynomial_input_of(
            PolynomialInput::Decoded(self.polynomial),
            genesis.identity@,
            participants,
        )
        &&& genesis_hash_of(Some(self.genesis_hash), genesis.eth_genesis_hash@)
    }

    /// Makes the configuration of its parts, or says which part fails first.
    pub fn from_parts(
        engine_url: String,
        jwt: FileRead,
        share: ShareInput,
        signer: Option<Signer>,
        polynomial: PolynomialInput,
        genesis_hash: Option<[u8; 32]>,
        participants: Vec<PublicKey>,
        db_prefix: String,
        genesis: &Genesis,
    ) -> (config: Result<EngineConfig, ConfigError>)
        ensures
            match config {
                Ok(config) => {
                    &&& jwt == FileRead::Text(config.engine_jwt)
                    &&& share == ShareInput::Decoded(config.share)
                    &&& signer == Some(config.signer)
                    &&& polynomial == PolynomialInput::Decoded(config.polynomial)
                    &&& genesis_hash == Some(config.genesis_hash)
                    &&& config.has_settings(engine_url@, participants@, db_prefix@, *genesis)
                },
                Err(error) => first_fault(jwt, share, signer, polynomial, genesis_hash) == Some(error),
            },
    {
        let engine_jwt = match jwt {
            FileRead::NoPath => return Err(ConfigError::JwtPath),
            FileRead::Unreadable => return Err(ConfigError::JwtRead),
            FileRead::Text(text) => text,
        };
        let share = match share {
            ShareInput::NoPath => return Err(ConfigError::SharePath),
            ShareInput::Unreadable => return Err(ConfigError::ShareRead),
            ShareInput::BadFormat => return Err(ConfigError::ShareFormat),
            ShareInput::Invalid => return Err(ConfigError::ShareInvalid),
            ShareInput::Decoded(share) => share,
        };
        let signer = match signer {
            Some(signer) => signer,
            None => return Err(ConfigError::SignerKey),
        };
        let polynomial = match polynomial {
            PolynomialInput::BadFormat => return Err(ConfigError::PolynomialFormat),
            PolynomialInput::NoParticipants => return Err(ConfigError::NoParticipants),
            PolynomialInput::Invalid => return Err(ConfigError::PolynomialInvalid),
            PolynomialInput::Decoded(polynomial) => polynomial,
        };
        let genesis_hash = match genesis_hash {
            Some(hash) => hash,
            None => return Err(ConfigError::GenesisHash),
        };
        Ok(
            EngineConfig {
                partition_prefix: db_prefix,
                signer,
                participants,
                mailbox_size: MAILBOX_SIZE,
                backfill_quota: quota_per_second(BACKFILL_QUOTA),
                deque_size: DEQUE_SIZE,
                leader_timeout_ms: genesis.leader_timeout_ms,
                notarization_timeout_ms: genesis.notarization_timeout_ms,
                nullify_retry_ms: genesis.nullify_timeout_ms,
                fetch_timeout_ms: FETCH_TIMEOUT_MS,
                activity_timeout: genesis.activity_timeout_views,
                skip_timeout: genesis.skip_timeout_views,
                max_fetch_count: MAX_FETCH_COUNT,
                max_fetch_size: MAX_FETCH_SIZE,
                fetch_concurrent: FETCH_CONCURRENT,
                fetch_rate_per_peer: quota_per_second(FETCH_RATE_P2P),
                engine_url,
                engine_jwt,
                namespace: genesis.namespace.clone(),
                genesis_hash,
                share,
                polynomial,
            },
        )
    }

    /// Makes the configuration of the engine from the texts of the files that hold the JWT secret,
    /// the signer's key and the share of the threshold key, and from the genesis. It fails where a
    /// file cannot be read or holds no signer's key.
    pub fn get_engine_config(
        engine_url: String,
        engine_jwt: FileRead,
        key: FileRead,
        poly_share: FileRead,
        participants: Vec<PublicKey>,
        db_prefix: String,
        genesis: &Genesis,
    ) -> (config: Result<EngineConfig, ConfigError>)
        requires
            config_fault(engine_jwt, key, poly_share, participants@.len(), *genesis) matches Some(error)
                ==> error.is_of_a_file(),
        ensures
            match config {
                Ok(config) => config.has_keys(
                    engine_jwt,
                    key,
                    poly_share,
                    participants@.len(),
                    *genesis,
                ) && config.has_settings(engine_url@, participants@, db_prefix@, *genesis),
                Err(error) => config_fault(
                    engine_jwt,
                    key,
                    poly_share,
                    participants@.len(),
                    *genesis,
                ) == Some(error),
            },
            config is Ok <==> config_fault(
                engine_jwt,
                key,
                poly_share,
                participants@.len(),
                *genesis,
            ) is None,
    {
        let share = read_share(&poly_share);
        let signer = read_signer(&key);
        let polynomial = read_polynomial(&genesis.identity, participants.len());
        let genesis_hash = read_genesis_hash(&genesis.eth_genesis_hash);
        EngineConfig::from_parts(
            engine_url,
            engine_jwt,
            share,
            signer,
            polynomial,
            genesis_hash,
            participants,
            db_prefix,
            genesis,
        )
    }

    /// Makes the configuration of the engine, or says what is wrong first, in the order in which
    /// the parts are needed: the secret, the share, the signer's key, the polynomial, the genesis
    /// hash.
    pub fn try_get_engine_config(
        engine_url: String,
        engine_jwt: FileRead,
        key: FileRead,
        poly_share: FileRead,
        participants: Vec<PublicKey>,
        db_prefix: String,
        genesis: &Genesis,
    ) -> (config: Result<EngineConfig, ConfigError>)
        ensures
            match config {
                Ok(config) => config.has_keys(
                    engine_jwt,
                    key,
                    poly_share,
                    participants@.len(),
                    *genesis,
                ) && config.has_settings(engine_url@, participants@, db_prefix@, *genesis),
                Err(error) => config_fault(
                    engine_jwt,
                    key,
                    poly_share,
                    participants@.len(),
                    *genesis,
                ) == Some(error),
            },
            config is Ok <==> config_fault(
                engine_jwt,
                key,
                poly_share,
                participants@.len(),
                *genesis,
            ) is None,
    {
        match find_config_fault(&engine_jwt, &key, &poly_share, participants.len(), genesis) {
            Some(error) => Err(error),
            None => EngineConfig::get_engine_config(
                engine_url,
                engine_jwt,
                key,
                poly_share,
                participants,
                db_prefix,
                genesis,
            ),
        }
    }
}

/// Finds what is wrong first with the files and the genesis, in the order in which they are
/// needed: the secret, the share, the signer's key, the polynomial, the genesis hash.
pub fn find_config_fault(
    engine_jwt: &FileRead,
    key: &FileRead,
    poly_share: &FileRead,
    participants: usize,
    genesis: &Genesis,
) -> (fault: Option<ConfigError>)
    ensures
        fault == config_fault(*engine_jwt, *key, *poly_share, participants as nat, *genesis),
{
    match engine_jwt {
        FileRead::NoPath => return Some(ConfigError::JwtPath),
        FileRead::Unreadable => return Some(ConfigError::JwtRead),
        FileRead::Text(_) => {},
    }
    match read_share(poly_share) {
        ShareInput::NoPath => return Some(ConfigError::SharePath),
        ShareInput::Unreadable => return Some(ConfigError::ShareRead),
        ShareInput::BadFormat => return Some(ConfigError::ShareFormat),
        ShareInput::Invalid => return Some(ConfigError::ShareInvalid),
        ShareInput::Decoded(_) => {},
    }
    if read_signer(key).is_none() {
        return Some(ConfigError::SignerKey);
    }
    match read_polynomial(&genesis.identity, participants) {
        PolynomialInput::BadFormat => return Some(ConfigError::PolynomialFormat),
        PolynomialInput::NoParticipants => return Some(ConfigError::NoParticipants),
        PolynomialInput::Invalid => return Some(ConfigError::PolynomialInvalid),
        PolynomialInput::Decoded(_) => {},
    }
    if read_genesis_hash(&genesis.eth_genesis_hash).is_none() {
        return Some(ConfigError::GenesisHash);
    }
    None
}

/// Reads the share of the threshold key.
pub fn read_share(file: &FileRead) -> (input: ShareInput)
    ensures
        share_input_of(input, *file),
{
    match file {
        FileRead::NoPath => ShareInput::NoPath,
        FileRead::Unreadable => ShareInput::Unreadable,
        FileRead::Text(text) => match hex_bytes(text.as_str()) {
            None => ShareInput::BadFormat,
            Some(bytes) => match decode_share(bytes.as_slice()) {
                Ok(share) => ShareInput::Decoded(share),
                Err(_) => ShareInput::Invalid,
            },
        },
    }
}

/// Reads the signer's key.
pub fn read_signer(file: &FileRead) -> (signer: Option<Signer>)
    ensures
        signer_of(signer, *file),
{
    match file {
        FileRead::NoPath | FileRead::Unreadable => None,
        FileRead::Text(text) => match hex_bytes(text.as_str()) {
            None => None,
            Some(bytes) => match public_key(bytes.as_slice()) {
                Ok(key) => Some(Signer { private_key: bytes, public_key: PublicKey(key) }),
                Err(_) => None,
            },
        },
    }
}

/// Reads the public polynomial of so many participants.
pub fn read_polynomial(identity: &String, participants: usize) -> (input: PolynomialInput)
    ensures
        polynomial_input_of(input, identity@, participants as nat),
{
    let bytes = match hex_bytes(identity.as_str()) {
        Some(bytes) => bytes,
        None => return PolynomialInput::BadFormat,
    };
    let wide: u64 = participants as u64;
    let size: u32 = #[verifier::truncate] (wide as u32);
    proof {
        assert(wide as u32 == wide % 0x1_0000_0000) by (bit_vector);
    }
    if size == 0 {
        return PolynomialInput::NoParticipants;
    }
    let threshold: usize = quorum(size) as usize;
    if threshold > usize::MAX / COEFFICIENT_SIZE {
        return PolynomialInput::Invalid;
    }
    match decode_polynomial(bytes.as_slice(), threshold) {
        Ok(polynomial) => PolynomialInput::Decoded(polynomial),
        Err(_) => PolynomialInput::Invalid,
    }
}

/// Reads the hash of the genesis block of the execution client.
pub fn read_genesis_hash(text: &String) -> (hash: Option<[u8; 32]>)
    ensures
        genesis_hash_of(hash, text@),
{
    let bytes = match hex_bytes(text.as_str()) {
        Some(bytes) => bytes,
        None => return None,
    };
    word(bytes.as_slice())
}

/// The threshold of a configuration is the smallest number of participants that is more than two
/// thirds of them: with fewer than a third of them at fault, the others reach it, and any two
/// groups that reach it have more participants in common than are at fault.
pub proof fn law_thresholds_overlap(participants: nat)
    requires
        0 < participants <= u32::MAX,
    ensures
        ({
            let n = participants as int;
            let threshold = threshold_of(participants) as int;
            let faults = n - threshold;
            &&& 0 < threshold <= n
            &&& 3 * threshold >= 2 * n + 1
            &&& 3 * (threshold - 1) < 2 * n + 1
            &&& n >= 3 * faults + 1
            &&& 2 * threshold - n > faults
        }),
{
}

/// The genesis hash of a configuration stands in the order of the text of the genesis: of the
/// characters of the text that are no blanks, without a leading `0x`, there are 64, and those at
/// twice a place and right behind are the digits of the byte at that place, the high one first. In
/// place of a high digit of zero there may be a plus.
pub proof fn law_genesis_hash_is_read_digit_by_digit(
    config: EngineConfig,
    engine_jwt: FileRead,
    key: FileRead,
    poly_share: FileRead,
    participants: nat,
    genesis: Genesis,
    i: int,
)
    requires
        config.has_keys(engine_jwt, key, poly_share, participants, genesis),
        0 <= i < 32,
    ensures
        ({
            let bare = genesis.eth_genesis_hash@.filter(
                |c: char| c != ' ' && c != '\t' && c != '\n' && c != '\r',
            );
            let digits = if bare.len() >= 2 && bare[0] == '0' && bare[1] == 'x' {
                bare.skip(2)
            } else {
                bare
            };
            let byte = config.genesis_hash@[i] as int;
            &&& digits.len() == 64
            &&& is_digit_of(digits[2 * i + 1], byte % 16)
            &&& is_digit_of(digits[2 * i], byte / 16) || (digits[2 * i] == '+' && byte < 16)
        }),
{
    law_hex_is_read_digit_by_digit(genesis.eth_genesis_hash@, i);
}

/// A hash that is written in hexadecimal digits, with or without `0x` in front, is read back: the
/// text gives that hash and no other, and it does not fail to give one.
pub proof fn law_genesis_hash_is_read_back(hash: [u8; 32], text: Seq<char>, read: Option<[u8; 32]>)
    requires
        text.len() == 64,
        forall|i: int|
            0 <= i < 32 ==> is_digit_of(text[2 * i], #[trigger] hash@[i] as int / 16) && is_digit_of(
                text[2 * i + 1],
                hash@[i] as int % 16,
            ),
    ensures
        genesis_hash_of(read, text) <==> read == Some(hash),
        genesis_hash_of(read, seq!['0', 'x'] + text) <==> read == Some(hash),
{
    assert(hash@.len() == 32);
    law_hex_is_read_back(hash@, text);
    if let Some(other) = read {
        if other@ == hash@ {
            assert(other =~= hash);
        }
    }
}

/// A text gives no genesis hash if it is not hexadecimal or has another number of bytes than 32,
/// and it never gives two.
pub proof fn law_genesis_hashes_have_32_bytes(text: Seq<char>, first: Option<[u8; 32]>, second: Option<[u8; 32]>)
    requires
        genesis_hash_of(first, text),
        genesis_hash_of(second, text),
    ensures
        first == second,
        first is None <==> !(hex_decoded(text) matches Some(bytes) && bytes.len() == 32),
{
    if first is Some && second is Some {
        assert(first->0 =~= second->0);
    }
}

/// The keys of a configuration are those of the files and of the genesis: the secret is the text
/// of its file; the private key is what the digits of its file stand for, and the public key
/// belongs to it; the share is decoded from the digits of its file; and the polynomial is decoded
/// from the digits of the genesis, with all but a third of the participants beyond the first as
/// the number of its coefficients.
pub proof fn law_keys_come_from_the_files(
    config: EngineConfig,
    engine_jwt: FileRead,
    key: FileRead,
    poly_share: FileRead,
    participants: nat,
    genesis: Genesis,
)
    requires
        config.has_keys(engine_jwt, key, poly_share, participants, genesis),
    ensures
        engine_jwt matches FileRead::Text(text) && config.engine_jwt == text,
        key matches FileRead::Text(text) && hex_decoded(text@) == Some(config.signer.private_key@),
        public_key_from_private(config.signer.private_key@) == Some(config.signer.public_key.0@),
        poly_share matches FileRead::Text(text) && (hex_decoded(text@) matches Some(bytes)
            && share_from_bytes(bytes) == Some((config.share.index, config.share.private@))),
        participants <= u32::MAX ==> participants > 0 && (hex_decoded(genesis.identity@) matches Some(bytes)
            && polynomial_from_bytes(bytes, (participants - (participants - 1) / 3) as usize) == Some(
            config.polynomial@,
        )),
{
}

/// What a configuration takes from the genesis and from the operator is what they say, and the
/// rest is the same in every configuration.
pub proof fn law_settings_come_from_the_genesis(
    config: EngineConfig,
    engine_url: Seq<char>,
    participants: Seq<PublicKey>,
    db_prefix: Seq<char>,
    genesis: Genesis,
)
    requires
        config.has_settings(engine_url, participants, db_prefix, genesis),
    ensures
        config.engine_url@ == engine_url,
        config.participants@ == participants,
        config.partition_prefix@ == db_prefix,
        config.leader_timeout_ms == genesis.leader_timeout_ms,
        config.notarization_timeout_ms == genesis.notarization_timeout_ms,
        config.nullify_retry_ms == genesis.nullify_timeout_ms,
        config.activity_timeout == genesis.activity_timeout_views,
        config.skip_timeout == genesis.skip_timeout_views,
        config.namespace@ == genesis.namespace@,
        config.mailbox_size == 16384,
        config.deque_size == 10,
        config.fetch_timeout_ms == 5 * 1000,
        config.max_fetch_count == 16,
        config.max_fetch_size == 512 * 1024,
        config.fetch_concurrent == 4,
        config.backfill_quota.burst_size == 10,
        config.backfill_quota.replenish_interval_ns * 10 == 1_000_000_000,
        config.fetch_rate_per_peer.burst_size == 128,
        config.fetch_rate_per_peer.replenish_interval_ns * 128 == 1_000_000_000,
{
}

/// There is a configuration if and only if every part is there, and the part that is blamed is the
/// first one that is not: the secret, the share, the signer's key, the polynomial, the genesis
/// hash.
pub proof fn law_the_first_fault_is_blamed(
    engine_jwt: FileRead,
    key: FileRead,
    poly_share: FileRead,
    participants: nat,
    genesis: Genesis,
)
    requires
        participants <= u32::MAX,
        participants * 48 <= usize::MAX,
    ensures
        ({
            let fault = config_fault(engine_jwt, key, poly_share, participants, genesis);
            let jwt = engine_jwt is Text;
            let hex_share = poly_share matches FileRead::Text(text) && hex_decoded(text@) is Some;
            let share = poly_share matches FileRead::Text(text) && (hex_decoded(text@) matches Some(bytes)
                && share_from_bytes(bytes) is Some);
            let signer = key matches FileRead::Text(text) && (hex_decoded(text@) matches Some(bytes)
                && public_key_from_private(bytes) is Some);
            let hex_identity = hex_decoded(genesis.identity@) is Some;
            let quorum = (participants - (participants - 1) / 3) as usize;
            let polynomial = hex_decoded(genesis.identity@) matches Some(bytes) && polynomial_from_bytes(
                bytes,
                quorum,
            ) is Some;
            let hash = hex_decoded(genesis.eth_genesis_hash@) matches Some(bytes) && bytes.len() == 32;
            &&& fault is None <==> jwt && share && signer && participants > 0 && polynomial && hash
            &&& fault == Some(ConfigError::JwtPath) <==> engine_jwt is NoPath
            &&& fault == Some(ConfigError::JwtRead) <==> engine_jwt is Unreadable
            &&& fault == Some(ConfigError::SharePath) <==> jwt && poly_share is NoPath
            &&& fault == Some(ConfigError::ShareRead) <==> jwt && poly_share is Unreadable
            &&& fault == Some(ConfigError::ShareFormat) <==> jwt && poly_share is Text && !hex_share
            &&& fault == Some(ConfigError::ShareInvalid) <==> jwt && hex_share && !share
            &&& fault == Some(ConfigError::SignerKey) <==> jwt && share && !signer
            &&& fault == Some(ConfigError::PolynomialFormat) <==> jwt && share && signer && !hex_identity
            &&& fault == Some(ConfigError::NoParticipants) <==> jwt && share && signer && hex_identity
                && participants == 0
            &&& fault == Some(ConfigError::PolynomialInvalid) <==> jwt && share && signer && hex_identity
                && participants > 0 && !polynomial
            &&& fault == Some(ConfigError::GenesisHash) <==> jwt && share && signer && participants > 0
                && polynomial && !hash
        }),
{
    if participants > 0 {
        assert(participants - (participants - 1) / 3 <= participants);
    }
}

/// A file signs as a key if and only if it holds digits of a private key, and the key is the one
/// that belongs to that.
pub proof fn law_files_sign_as_their_keys(file: FileRead, key: PublicKey)
    ensures
        signs_as(file, key) <==> (file matches FileRead::Text(text) && (hex_decoded(text@) matches Some(bytes)
            && public_key_from_private(bytes) == Some(key.0@))),
{
}

/// The errors that a configuration comes back with are those of files that cannot be read or hold
/// no key; what was read and makes no sense is none of them.
pub proof fn law_errors_of_files(error: ConfigError)
    ensures
        error.is_of_a_file() <==> {
            ||| error == ConfigError::JwtPath
            ||| error == ConfigError::JwtRead
            ||| error == ConfigError::SharePath
            ||| error == ConfigError::ShareRead
            ||| error == ConfigError::SignerKey
        },
{
}

/// What comes of a file is told apart: a path that leads nowhere, a file that cannot be read, a
/// text that is not hexadecimal, bytes that encode no share or no key, and those that do.
pub proof fn law_inputs_are_told_apart(
    file: FileRead,
    share: ShareInput,
    signer: Option<Signer>,
    identity: Seq<char>,
    participants: nat,
    polynomial: PolynomialInput,
)
    requires
        share_input_of(share, file),
        signer_of(signer, file),
        polynomial_input_of(polynomial, identity, participants),
        participants <= u32::MAX,
        participants * 48 <= usize::MAX,
    ensures
        ({
            let bytes = match file {
                FileRead::Text(text) => hex_decoded(text@),
                _ => None,
            };
            &&& share is NoPath <==> file is NoPath
            &&& share is Unreadable <==> file is Unreadable
            &&& share is BadFormat <==> file is Text && bytes is None
            &&& share is Invalid <==> bytes is Some && share_from_bytes(bytes->0) is None
            &&& share matches ShareInput::Decoded(decoded) ==> bytes is Some && share_from_bytes(bytes->0)
                == Some((decoded.index, decoded.private@))
            &&& signer is Some <==> bytes is Some && public_key_from_private(bytes->0) is Some
            &&& signer matches Some(signer) ==> signer.private_key@ == bytes->0 && public_key_from_private(
                signer.private_key@,
            ) == Some(signer.public_key.0@)
        }),
        ({
            let bytes = hex_decoded(identity);
            let quorum = (participants - (participants - 1) / 3) as usize;
            &&& polynomial is BadFormat <==> bytes is None
            &&& polynomial is NoParticipants <==> bytes is Some && participants == 0
            &&& polynomial is Invalid <==> bytes is Some && participants > 0 && polynomial_from_bytes(
                bytes->0,
                quorum,
            ) is None
            &&& polynomial matches PolynomialInput::Decoded(decoded) ==> polynomial_from_bytes(
                bytes->0,
                quorum,
            ) == Some(decoded@)
        }),
{
    if participants > 0 {
        assert(participants - (participants - 1) / 3 <= participants);
    }
}

/// Of parts that fail, the one that is needed first is blamed, and each failure by its own name.
pub proof fn law_the_first_part_is_blamed(
    jwt: FileRead,
    share: ShareInput,
    signer: Option<Signer>,
    polynomial: PolynomialInput,
    genesis_hash: Option<[u8; 32]>,
)
    ensures
        ({
            let fault = first_fault(jwt, share, signer, polynomial, genesis_hash);
            let after_jwt = jwt is Text;
            let after_share = after_jwt && share is Decoded;
            let after_signer = after_share && signer is Some;
            let after_polynomial = after_signer && polynomial is Decoded;
            &&& fault is None <==> after_polynomial && genesis_hash is Some
            &&& fault == Some(ConfigError::JwtPath) <==> jwt is NoPath
            &&& fault == Some(ConfigError::JwtRead) <==> jwt is Unreadable
            &&& fault == Some(ConfigError::SharePath) <==> after_jwt && share is NoPath
            &&& fault == Some(ConfigError::ShareRead) <==> after_jwt && share is Unreadable
            &&& fault == Some(ConfigError::ShareFormat) <==> after_jwt && share is BadFormat
            &&& fault == Some(ConfigError::ShareInvalid) <==> after_jwt && share is Invalid
            &&& fault == Some(ConfigError::SignerKey) <==> after_share && signer is None
            &&& fault == Some(ConfigError::PolynomialFormat) <==> after_signer && polynomial is BadFormat
            &&& fault == Some(ConfigError::NoParticipants) <==> after_signer && polynomial is NoParticipants
            &&& fault == Some(ConfigError::PolynomialInvalid) <==> after_signer && polynomial is Invalid
            &&& fault == Some(ConfigError::GenesisHash) <==> after_polynomial && genesis_hash is None
        }),
{
}

} // verus!
