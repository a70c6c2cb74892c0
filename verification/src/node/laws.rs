//! What the calls of the command line and of the configuration give back, and how calls relate to
//! one another.
//!
//! Each law speaks of calls that were made: of what went into them and of what came back.

use vstd::prelude::*;

use crate::node::args::{
    decimal, engine_url, find_network_fault, find_node_fault, law_decimal_digits_have_the_value,
    law_encoded_lengths_are_not_empty,
    law_nodes_are_configured_of_their_files, law_nodes_join_their_network, law_nodes_start_as_flagged,
    law_nodes_start_when_they_can, law_starts_fail_in_order, plan_node,
    plan_node_on_runtime, run_node_with_runtime,
    try_run_node_with_runtime, CliArgs, Command, Flags, KeySubCmd, NetworkPlan, NetworkSettings, NodeError,
    NodeFiles, NodePlan, Task,
};
use crate::node::config::{
    find_config_fault, law_genesis_hash_is_read_digit_by_digit, law_inputs_are_told_apart,
    law_keys_come_from_the_files, law_settings_come_from_the_genesis, law_the_first_fault_is_blamed,
    law_the_first_part_is_blamed, read_genesis_hash, read_polynomial, read_share, read_signer, signs_as,
    ConfigError, EngineConfig, FileRead, PolynomialInput, ShareInput, Signer,
};
use crate::outside::{
    decimal_value, hex_decoded, is_digit_of, law_hex_is_read_back, law_hex_is_read_digit_by_digit, level_of,
    polynomial_from_bytes, public_key_from_private, share_from_bytes,
};
use crate::types::{Genesis, GenesisCommittee, IpAddr, PublicKey};

verus! {

/// A genesis hash is read in the order of its text: of the characters of the text that are no
/// blanks, without a leading `0x`, there are 64, and those at twice a place and right behind are the
/// digits of the byte at that place, the high one first. In place of a high digit of zero there may
/// be a plus.
pub proof fn law_hashes_are_read_in_order(text: String, hash: Option<[u8; 32]>, i: int)
    requires
        call_ensures(read_genesis_hash, (&text,), hash),
        hash is Some,
        0 <= i < 32,
    ensures
        ({
            let bare = text@.filter(|c: char| c != ' ' && c != '\t' && c != '\n' && c != '\r');
            let digits = if bare.len() >= 2 && bare[0] == '0' && bare[1] == 'x' {
                bare.skip(2)
            } else {
                bare
            };
            let byte = hash->0@[i] as int;
            &&& digits.len() == 64
            &&& is_digit_of(digits[2 * i + 1], byte % 16)
            &&& is_digit_of(digits[2 * i], byte / 16) || (digits[2 * i] == '+' && byte < 16)
        }),
{
    assert(hash->0@.len() == 32);
    law_hex_is_read_digit_by_digit(text@, i);
}

/// A hash that is written in hexadecimal digits, with or without `0x` in front, is read back; and a
/// text that is not hexadecimal or has another number of bytes is refused.
pub proof fn law_written_hashes_are_read_back(hash: [u8; 32], digits: Seq<char>, text: String, read: Option<[u8; 32]>)
    requires
        digits.len() == 64,
        forall|i: int|
            0 <= i < 32 ==> is_digit_of(digits[2 * i], #[trigger] hash@[i] as int / 16) && is_digit_of(
                digits[2 * i + 1],
                hash@[i] as int % 16,
            ),
        call_ensures(read_genesis_hash, (&text,), read),
    ensures
        text@ == digits ==> read == Some(hash),
        text@ == seq!['0', 'x'] + digits ==> read == Some(hash),
        read is Some <==> (hex_decoded(text@) matches Some(bytes) && bytes.len() == 32),
{
    assert(hash@.len() == 32);
    law_hex_is_read_back(hash@, digits);
    if let Some(other) = read {
        if other@ == hash@ {
            assert(other =~= hash);
        }
    }
}

/// A configuration holds what the files, the genesis and the operator say: the secret of its file,
/// the private key of its file with the public key that belongs to it, the share of its file, the
/// polynomial of the genesis with as many coefficients as all but a third of the participants beyond
/// the first, the genesis hash in the order of its text, the times of the genesis, and the URL, the
/// participants and the prefix that were given.
pub proof fn law_configurations_hold_what_was_given(
    url: String,
    engine_jwt: FileRead,
    key: FileRead,
    poly_share: FileRead,
    participants: Vec<PublicKey>,
    prefix: String,
    genesis: Genesis,
    made: Result<EngineConfig, ConfigError>,
    i: int,
)
    requires
        call_ensures(
            EngineConfig::get_engine_config,
            (url, engine_jwt, key, poly_share, participants, prefix, &genesis),
            made,
        ),
        made is Ok,
        0 <= i < 32,
    ensures
        ({
            let config = made->Ok_0;
            &&& config.engine_url@ == url@
            &&& config.participants@ == participants@
            &&& config.partition_prefix@ == prefix@
            &&& config.leader_timeout_ms == genesis.leader_timeout_ms
            &&& config.notarization_timeout_ms == genesis.notarization_timeout_ms
            &&& config.nullify_retry_ms == genesis.nullify_timeout_ms
            &&& config.activity_timeout == genesis.activity_timeout_views
            &&& config.skip_timeout == genesis.skip_timeout_views
            &&& config.namespace@ == genesis.namespace@
            &&& config.mailbox_size == 16384
            &&& config.deque_size == 10
            &&& config.fetch_timeout_ms == 5 * 1000
            &&& config.max_fetch_count == 16
            &&& config.max_fetch_size == 512 * 1024
            &&& config.fetch_concurrent == 4
            &&& config.backfill_quota.burst_size == 10
            &&& config.backfill_quota.replenish_interval_ns * 10 == 1_000_000_000
            &&& config.fetch_rate_per_peer.burst_size == 128
            &&& config.fetch_rate_per_peer.replenish_interval_ns * 128 == 1_000_000_000
            &&& engine_jwt == FileRead::Text(config.engine_jwt)
            &&& key matches FileRead::Text(text) && hex_decoded(text@) == Some(config.signer.private_key@)
            &&& public_key_from_private(config.signer.private_key@) == Some(config.signer.public_key.0@)
            &&& poly_share matches FileRead::Text(text) && (hex_decoded(text@) matches Some(bytes)
                && share_from_bytes(bytes) == Some((config.share.index, config.share.private@)))
            &&& participants@.len() <= u32::MAX ==> participants@.len() > 0 && (hex_decoded(
                genesis.identity@,
            ) matches Some(bytes) && polynomial_from_bytes(
                bytes,
                (participants@.len() - (participants@.len() - 1) / 3) as usize,
            ) == Some(config.polynomial@))
        }),
        ({
            let bare = genesis.eth_genesis_hash@.filter(
                |c: char| c != ' ' && c != '\t' && c != '\n' && c != '\r',
            );
            let digits = if bare.len() >= 2 && bare[0] == '0' && bare[1] == 'x' {
                bare.skip(2)
            } else {
                bare
            };
            let byte = made->Ok_0.genesis_hash@[i] as int;
            &&& digits.len() == 64
            &&& is_digit_of(digits[2 * i + 1], byte % 16)
            &&& is_digit_of(digits[2 * i], byte / 16) || (digits[2 * i] == '+' && byte < 16)
        }),
{
    let config = made->Ok_0;
    let n = participants@.len();
    law_keys_come_from_the_files(config, engine_jwt, key, poly_share, n, genesis);
    law_settings_come_from_the_genesis(config, url@, participants@, prefix@, genesis);
    law_genesis_hash_is_read_digit_by_digit(config, engine_jwt, key, poly_share, n, genesis, i);
}

/// There is a configuration if and only if every part of it is there, and what is blamed is the
/// first part that is not: the secret, the share, the signer's key, the polynomial, the genesis
/// hash. Both ways to make one, and the way to find what is wrong, agree on that.
pub proof fn law_configurations_blame_the_first_fault(
    url: String,
    engine_jwt: FileRead,
    key: FileRead,
    poly_share: FileRead,
    participants: Vec<PublicKey>,
    prefix: String,
    genesis: Genesis,
    made: Result<EngineConfig, ConfigError>,
    fault: Option<ConfigError>,
)
    requires
        participants@.len() <= u32::MAX,
        participants@.len() * 48 <= usize::MAX,
        call_ensures(
            EngineConfig::try_get_engine_config,
            (url, engine_jwt, key, poly_share, participants, prefix, &genesis),
            made,
        ),
        call_ensures(
            find_config_fault,
            (&engine_jwt, &key, &poly_share, participants@.len() as usize, &genesis),
            fault,
        ),
    ensures
        fault is None <==> made is Ok,
        made matches Err(error) ==> fault == Some(error),
        ({
            let n = participants@.len() as int;
            let jwt = engine_jwt is Text;
            let hex_share = poly_share matches FileRead::Text(text) && hex_decoded(text@) is Some;
            let share = poly_share matches FileRead::Text(text) && (hex_decoded(text@) matches Some(bytes)
                && share_from_bytes(bytes) is Some);
            let signer = key matches FileRead::Text(text) && (hex_decoded(text@) matches Some(bytes)
                && public_key_from_private(bytes) is Some);
            let hex_identity = hex_decoded(genesis.identity@) is Some;
            let polynomial = hex_decoded(genesis.identity@) matches Some(bytes) && polynomial_from_bytes(
                bytes,
                (n - (n - 1) / 3) as usize,
            ) is Some;
            let hash = hex_decoded(genesis.eth_genesis_hash@) matches Some(bytes) && bytes.len() == 32;
            &&& fault is None <==> jwt && share && signer && n > 0 && polynomial && hash
            &&& fault == Some(ConfigError::JwtPath) <==> engine_jwt is NoPath
            &&& fault == Some(ConfigError::JwtRead) <==> engine_jwt is Unreadable
            &&& fault == Some(ConfigError::SharePath) <==> jwt && poly_share is NoPath
            &&& fault == Some(ConfigError::ShareRead) <==> jwt && poly_share is Unreadable
            &&& fault == Some(ConfigError::ShareFormat) <==> jwt && poly_share is Text && !hex_share
            &&& fault == Some(ConfigError::ShareInvalid) <==> jwt && hex_share && !share
            &&& fault == Some(ConfigError::SignerKey) <==> jwt && share && !signer
            &&& fault == Some(ConfigError::PolynomialFormat) <==> jwt && share && signer && !hex_identity
            &&& fault == Some(ConfigError::NoParticipants) <==> jwt && share && signer && hex_identity
                && n == 0
            &&& fault == Some(ConfigError::PolynomialInvalid) <==> jwt && share && signer && hex_identity
                && n > 0 && !polynomial
            &&& fault == Some(ConfigError::GenesisHash) <==> jwt && share && signer && n > 0 && polynomial
                && !hash
        }),
{
    law_the_first_fault_is_blamed(engine_jwt, key, poly_share, participants@.len(), genesis);
}

/// What was asked for on the command line is what is done, under the flags that were given.
pub proof fn law_the_command_line_is_followed(
    flags: Flags,
    cmd: KeySubCmd,
    run: Task<'_>,
    keys: Task<'_>,
    asked: Command,
    whole: Task<'_>,
)
    requires
        call_ensures(Command::exec, (&Command::Run, &flags), run),
        call_ensures(Command::exec, (&Command::Keys(cmd), &flags), keys),
        call_ensures(CliArgs::exec, (&CliArgs { cmd: asked, flags },), whole),
    ensures
        run matches Task::RunNode(with) && *with == flags,
        keys matches Task::Keys(done, with) && done == cmd && *with == flags,
        asked is Run ==> whole == run,
        asked == Command::Keys(cmd) ==> whole == keys,
{
}

/// The URL of the engine API is that of this host at the port: it ends in the digits of the port,
/// with no zero in front but for port zero.
pub proof fn law_engine_urls_end_in_the_port(port: u16, url: String)
    requires
        call_ensures(engine_url, (port,), url),
    ensures
        url@.take(15) == "http://0.0.0.0:"@,
        url@.len() > 15,
        decimal_value(url@.skip(15)) == port,
        forall|i: int| 15 <= i < url@.len() ==> '0' <= #[trigger] url@[i] <= '9',
        url@[15] == '0' ==> port == 0 && url@.len() == 16,
{
    reveal_strlit("http://0.0.0.0:");
    law_decimal_digits_have_the_value(port as nat);
    let digits = decimal(port as nat);
    assert(url@.take(15) =~= "http://0.0.0.0:"@);
    assert(url@.skip(15) =~= digits);
    assert forall|i: int| 15 <= i < url@.len() implies '0' <= #[trigger] url@[i] <= '9' by {
        assert(url@[i] == digits[i - 15]);
    }
    assert(url@[15] == digits[0]);
}

/// A node that starts does what its flags say, at the address that the committee lists for the key
/// that it signs with, in the network of its committee and of its chain, and with the configuration
/// that its files and its genesis make.
pub proof fn law_nodes_start_as_asked(
    cmd: Command,
    flags: Flags,
    files: NodeFiles,
    settings: NetworkSettings,
    plan: NodePlan,
    i: int,
)
    requires
        call_ensures(Command::run_node, (&cmd, &flags, files, settings), plan),
    ensures
        ({
            let network = plan.network;
            let config = plan.config;
            let name = settings.namespace@;
            let end = network.namespace@.len() as int;
            &&& plan.runtime.tcp_nodelay == Some(true)
            &&& plan.runtime.worker_threads == flags.worker_threads
            &&& plan.runtime.storage_directory@ == flags.store_path@
            &&& !plan.runtime.catch_panics
            &&& level_of(flags.log_level@) == Some(plan.telemetry.level)
            &&& !plan.telemetry.json
            &&& plan.telemetry.metrics.ip == IpAddr::V4([0, 0, 0, 0])
            &&& plan.telemetry.metrics.port == 6969
            &&& exists|j: int|
                0 <= j < files.committee.validators@.len() && #[trigger] files.committee.validators@[j] == (
                    config.signer.public_key,
                    network.dialable,
                )
            &&& network.listen.ip == IpAddr::V4([0, 0, 0, 0])
            &&& network.listen.port == flags.port
            &&& network.bootstrappers@ == files.committee.validators@
            &&& network.peer_set == 0
            &&& network.peers@.len() == files.committee.validators@.len()
            &&& 0 <= i < network.peers@.len() ==> network.peers@[i] == files.committee.validators@[i].0
                && config.participants@[i] == files.committee.validators@[i].0
            &&& network.max_message_size == settings.max_message_size
            &&& network.mailbox_size == 16384
            &&& end > name.len() + 4
            &&& network.namespace@.subrange(end - 4 - name.len(), end - 4) == name
            &&& network.voter.channel == settings.voter_channel
            &&& network.resolver.channel == 2
            &&& network.broadcaster.channel == 3
            &&& network.backfiller.channel == 4
            &&& network.voter.rate.burst_size == 128
            &&& network.resolver.rate == network.voter.rate
            &&& network.broadcaster.rate.burst_size == 8
            &&& network.backfiller.rate.burst_size == 10
            &&& network.voter.backlog == 16384
            &&& network.resolver.backlog == 16384
            &&& network.broadcaster.backlog == 16384
            &&& network.backfiller.backlog == 16384
            &&& network.voter.compression is None
            &&& network.resolver.compression is None
            &&& network.broadcaster.compression == Some(3u8)
            &&& network.backfiller.compression == Some(3u8)
            &&& config.participants@.len() == files.committee.validators@.len()
            &&& config.partition_prefix@ == flags.db_prefix@
            &&& config.engine_url@.take(15) == "http://0.0.0.0:"@
            &&& decimal_value(config.engine_url@.skip(15)) == flags.engine_port
            &&& config.leader_timeout_ms == files.genesis.leader_timeout_ms
            &&& config.notarization_timeout_ms == files.genesis.notarization_timeout_ms
            &&& config.nullify_retry_ms == files.genesis.nullify_timeout_ms
            &&& config.activity_timeout == files.genesis.activity_timeout_views
            &&& config.skip_timeout == files.genesis.skip_timeout_views
            &&& config.namespace@ == files.genesis.namespace@
            &&& files.engine_jwt == FileRead::Text(config.engine_jwt)
            &&& public_key_from_private(config.signer.private_key@) == Some(config.signer.public_key.0@)
        }),
{
    let network = plan.network;
    let config = plan.config;
    law_nodes_start_as_flagged(plan, flags, files.committee, settings);
    law_nodes_join_their_network(network, flags.port, network.dialable, files.committee, settings, config, i);
    law_nodes_are_configured_of_their_files(files, flags.engine_port, flags.db_prefix@, config, i);
    law_settings_come_from_the_genesis(
        config,
        config.engine_url@,
        config.participants@,
        config.partition_prefix@,
        files.genesis,
    );
    law_keys_come_from_the_files(
        config,
        files.engine_jwt,
        files.key,
        files.poly_share,
        files.committee.validators@.len(),
        files.genesis,
    );
    law_encoded_lengths_are_not_empty(settings.namespace@.len());
}

/// A node that runs on a runtime of others joins the same network, under the same configuration, as
/// it would on its own; its log level does not matter.
pub proof fn law_runtimes_make_no_difference(
    cmd: Command,
    flags: Flags,
    files: NodeFiles,
    settings: NetworkSettings,
    own: NodePlan,
    other: (NetworkPlan, EngineConfig),
)
    requires
        call_ensures(Command::run_node, (&cmd, &flags, files, settings), own),
        call_ensures(run_node_with_runtime, (&flags, files, settings), other),
    ensures
        own.network.namespace@ == other.0.namespace@,
        own.network.peers@ == other.0.peers@,
        own.network.bootstrappers == other.0.bootstrappers,
        own.network.listen == other.0.listen,
        own.network.dialable == other.0.dialable,
        own.network.max_message_size == other.0.max_message_size,
        own.network.mailbox_size == other.0.mailbox_size,
        own.network.peer_set == other.0.peer_set,
        own.network.voter == other.0.voter,
        own.network.resolver == other.0.resolver,
        own.network.broadcaster == other.0.broadcaster,
        own.network.backfiller == other.0.backfiller,
        own.config.engine_url@ == other.1.engine_url@,
        own.config.engine_jwt == other.1.engine_jwt,
        own.config.signer.private_key@ == other.1.signer.private_key@,
        own.config.signer.public_key == other.1.signer.public_key,
        own.config.participants@ == other.1.participants@,
        own.config.partition_prefix@ == other.1.partition_prefix@,
        own.config.polynomial@ == other.1.polynomial@,
        own.config.genesis_hash == other.1.genesis_hash,
        own.config.share.index == other.1.share.index,
        own.config.share.private == other.1.share.private,
{
    assert(own.config.signer.public_key.0 =~= other.1.signer.public_key.0);
    assert(own.config.genesis_hash =~= other.1.genesis_hash);
    assert(own.config.share.private =~= other.1.share.private);
}

/// A node starts if and only if its files can be read and make sense, its key is listed in the
/// committee, its log level is one and its namespace fits; what is blamed is the first of these that
/// does not hold. On a runtime of others the log level is not asked for.
pub proof fn law_nodes_start_if_nothing_is_wrong(
    cmd: Command,
    flags: Flags,
    files: NodeFiles,
    settings: NetworkSettings,
    key: Result<PublicKey, ConfigError>,
    own: Result<NodePlan, NodeError>,
    other: Result<(NetworkPlan, EngineConfig), NodeError>,
)
    requires
        call_ensures(NodeFiles::signer_key, (&files,), key),
        call_ensures(Command::try_run_node, (&cmd, &flags, files, settings), own),
        call_ensures(try_run_node_with_runtime, (&flags, files, settings), other),
    ensures
        key matches Err(error) ==> own == Err::<NodePlan, NodeError>(NodeError::Config(error)) && other
            == Err::<(NetworkPlan, EngineConfig), NodeError>(NodeError::Config(error)),
        key matches Ok(key) ==> ({
            let listed = exists|i: int|
                0 <= i < files.committee.validators@.len() && (
                #[trigger] files.committee.validators@[i]).0 == key;
            let fits = settings.namespace@.len() <= u32::MAX && settings.namespace@.len() + 9 <= usize::MAX;
            let level = level_of(flags.log_level@) is Some;
            &&& own is Ok <==> listed && level && fits
            &&& own == Err::<NodePlan, NodeError>(NodeError::NotOnCommittee) <==> !listed
            &&& own == Err::<NodePlan, NodeError>(NodeError::InvalidLogLevel) <==> listed && !level
            &&& own == Err::<NodePlan, NodeError>(NodeError::NamespaceTooLong) <==> listed && level && !fits
            &&& other is Ok <==> listed && fits
            &&& other == Err::<(NetworkPlan, EngineConfig), NodeError>(NodeError::NotOnCommittee) <==> !listed
            &&& other == Err::<(NetworkPlan, EngineConfig), NodeError>(NodeError::NamespaceTooLong)
                <==> listed && !fits
        }),
        key matches Ok(key) ==> (files.key matches FileRead::Text(text) && (hex_decoded(text@) matches Some(bytes)
            && public_key_from_private(bytes) == Some(key.0@))),
{
    if let Ok(key) = key {
        law_nodes_start_when_they_can(files, flags, settings, key);
        law_starts_fail_in_order(key, flags.log_level@, files.committee, settings);
        assert forall|signer: PublicKey| signs_as(files.key, signer) implies signer
            == key by {
            assert(signer.0 =~= key.0);
        }
    }
}

/// What keeps a key from starting is that it is not listed, then that the log level is none, then
/// that the namespace is too long.
pub proof fn law_faults_are_found_in_order(
    key: PublicKey,
    log_level: String,
    committee: GenesisCommittee,
    settings: NetworkSettings,
    own: Option<NodeError>,
    other: Option<NodeError>,
)
    requires
        call_ensures(find_node_fault, (&key, &log_level, &committee, &settings), own),
        call_ensures(find_network_fault, (&key, &committee, &settings), other),
    ensures
        ({
            let listed = exists|i: int|
                0 <= i < committee.validators@.len() && (#[trigger] committee.validators@[i]).0 == key;
            let fits = settings.namespace@.len() <= u32::MAX && settings.namespace@.len() + 9 <= usize::MAX;
            let level = level_of(log_level@) is Some;
            &&& own is None <==> listed && level && fits
            &&& own == Some(NodeError::NotOnCommittee) <==> !listed
            &&& own == Some(NodeError::InvalidLogLevel) <==> listed && !level
            &&& own == Some(NodeError::NamespaceTooLong) <==> listed && level && !fits
            &&& other is None <==> listed && fits
            &&& other == Some(NodeError::NotOnCommittee) <==> !listed
            &&& other == Some(NodeError::NamespaceTooLong) <==> listed && !fits
        }),
{
    law_starts_fail_in_order(key, log_level@, committee, settings);
}

/// What comes of a file, and of the identity of a genesis, is told apart by what it holds.
pub proof fn law_files_are_told_apart(
    file: FileRead,
    share: ShareInput,
    signer: Option<Signer>,
    identity: String,
    participants: usize,
    polynomial: PolynomialInput,
)
    requires
        participants <= u32::MAX,
        participants * 48 <= usize::MAX,
        call_ensures(read_share, (&file,), share),
        call_ensures(read_signer, (&file,), signer),
        call_ensures(read_polynomial, (&identity, participants), polynomial),
    ensures
        ({
            let bytes = match file {
                FileRead::Text(text) => hex_decoded(text@),
                _ => None,
            };
            &&& share is NoPath <==> file is NoPath
            &&& share is Unreadable <==> file is Unreadable
            &&& share is BadFormat <==> file is Text && bytes is None
            &&& share is Invalid <==> bytes is Some && share_from_bytes(bytes->0) is None
            &&& share matches ShareInput::Decoded(decoded) ==> bytes is Some && share_from_bytes(bytes->0)
                == Some((decoded.index, decoded.private@))
            &&& signer is Some <==> bytes is Some && public_key_from_private(bytes->0) is Some
            &&& signer matches Some(signer) ==> signer.private_key@ == bytes->0 && public_key_from_private(
                signer.private_key@,
            ) == Some(signer.public_key.0@)
        }),
        ({
            let bytes = hex_decoded(identity@);
            let quorum = (participants - (participants - 1) / 3) as usize;
            &&& polynomial is BadFormat <==> bytes is None
            &&& polynomial is NoParticipants <==> bytes is Some && participants == 0
            &&& polynomial is Invalid <==> bytes is Some && participants > 0 && polynomial_from_bytes(
                bytes->0,
                quorum,
            ) is None
            &&& polynomial matches PolynomialInput::Decoded(decoded) ==> polynomial_from_bytes(
                bytes->0,
                quorum,
            ) == Some(decoded@)
        }),
{
    law_inputs_are_told_apart(file, share, signer, identity@, participants as nat, polynomial);
}

/// A configuration that is made of parts holds these parts, what the genesis says and what the
/// operator gave; there is one if and only if every part is there, and the part that is missed is
/// the one that is needed first.
pub proof fn law_configurations_hold_their_parts(
    url: String,
    jwt: FileRead,
    share: ShareInput,
    signer: Option<Signer>,
    polynomial: PolynomialInput,
    genesis_hash: Option<[u8; 32]>,
    participants: Vec<PublicKey>,
    prefix: String,
    genesis: Genesis,
    made: Result<EngineConfig, ConfigError>,
)
    requires
        call_ensures(
            EngineConfig::from_parts,
            (url, jwt, share, signer, polynomial, genesis_hash, participants, prefix, &genesis),
            made,
        ),
    ensures
        made is Ok <==> jwt is Text && share is Decoded && signer is Some && polynomial is Decoded
            && genesis_hash is Some,
        made matches Ok(config) ==> {
            &&& jwt == FileRead::Text(config.engine_jwt)
            &&& share == ShareInput::Decoded(config.share)
            &&& signer == Some(config.signer)
            &&& polynomial == PolynomialInput::Decoded(config.polynomial)
            &&& genesis_hash == Some(config.genesis_hash)
            &&& config.engine_url@ == url@
            &&& config.participants@ == participants@
            &&& config.partition_prefix@ == prefix@
            &&& config.leader_timeout_ms == genesis.leader_timeout_ms
            &&& config.notarization_timeout_ms == genesis.notarization_timeout_ms
            &&& config.nullify_retry_ms == genesis.nullify_timeout_ms
            &&& config.activity_timeout == genesis.activity_timeout_views
            &&& config.skip_timeout == genesis.skip_timeout_views
            &&& config.namespace@ == genesis.namespace@
        },
        made matches Err(error) ==> {
            &&& error == ConfigError::JwtPath <==> jwt is NoPath
            &&& error == ConfigError::JwtRead <==> jwt is Unreadable
            &&& jwt is Text && share is NoPath ==> error == ConfigError::SharePath
            &&& jwt is Text && share is Unreadable ==> error == ConfigError::ShareRead
            &&& jwt is Text && share is BadFormat ==> error == ConfigError::ShareFormat
            &&& jwt is Text && share is Invalid ==> error == ConfigError::ShareInvalid
            &&& jwt is Text && share is Decoded && signer is None ==> error == ConfigError::SignerKey
            &&& jwt is Text && share is Decoded && signer is Some && polynomial is BadFormat ==> error
                == ConfigError::PolynomialFormat
            &&& jwt is Text && share is Decoded && signer is Some && polynomial is NoParticipants ==> error
                == ConfigError::NoParticipants
            &&& jwt is Text && share is Decoded && signer is Some && polynomial is Invalid ==> error
                == ConfigError::PolynomialInvalid
            &&& jwt is Text && share is Decoded && signer is Some && polynomial is Decoded ==> error
                == ConfigError::GenesisHash
        },
{
    law_the_first_part_is_blamed(jwt, share, signer, polynomial, genesis_hash);
    if let Ok(config) = made {
        law_settings_come_from_the_genesis(config, url@, participants@, prefix@, genesis);
    }
}

/// A configured node is planned as its flags say, under its configuration, at the address that the
/// committee lists for its key; on a runtime of others it joins the same network. It can be planned
/// if and only if its key is listed, its namespace fits and, on a runtime of its own, its log level
/// is one.
pub proof fn law_configured_nodes_are_planned(
    flags: Flags,
    committee: GenesisCommittee,
    settings: NetworkSettings,
    config: EngineConfig,
    own: Result<NodePlan, NodeError>,
    other: Result<NetworkPlan, NodeError>,
    i: int,
)
    requires
        call_ensures(plan_node, (&flags, committee, settings, config), own),
        call_ensures(plan_node_on_runtime, (&flags, committee, settings, &config), other),
    ensures
        ({
            let key = config.signer.public_key;
            let listed = exists|j: int|
                0 <= j < committee.validators@.len() && (#[trigger] committee.validators@[j]).0 == key;
            let fits = settings.namespace@.len() <= u32::MAX && settings.namespace@.len() + 9 <= usize::MAX;
            let level = level_of(flags.log_level@) is Some;
            &&& own is Ok <==> listed && level && fits
            &&& other is Ok <==> listed && fits
            &&& own matches Err(error) ==> (error == NodeError::NotOnCommittee <==> !listed)
            &&& own matches Err(error) ==> (error == NodeError::InvalidLogLevel <==> listed && !level)
            &&& other matches Err(error) ==> (error == NodeError::NotOnCommittee <==> !listed)
        }),
        own matches Ok(plan) ==> {
            &&& plan.config == config
            &&& plan.runtime.worker_threads == flags.worker_threads
            &&& plan.runtime.storage_directory@ == flags.store_path@
            &&& level_of(flags.log_level@) == Some(plan.telemetry.level)
            &&& plan.telemetry.metrics.port == 6969
            &&& exists|j: int|
                0 <= j < committee.validators@.len() && #[trigger] committee.validators@[j] == (
                    config.signer.public_key,
                    plan.network.dialable,
                )
            &&& plan.network.listen.port == flags.port
            &&& plan.network.bootstrappers@ == committee.validators@
            &&& plan.network.mailbox_size == config.mailbox_size
            &&& plan.network.voter.channel == settings.voter_channel
            &&& plan.network.backfiller.rate == config.backfill_quota
        },
        own matches Ok(plan) ==> (other matches Ok(network) && plan.network.dialable == network.dialable
            && plan.network.namespace@ == network.namespace@ && plan.network.peers@ == network.peers@
            && plan.network.bootstrappers == network.bootstrappers && plan.network.listen == network.listen
            && plan.network.voter == network.voter && plan.network.resolver == network.resolver
            && plan.network.broadcaster == network.broadcaster && plan.network.backfiller
            == network.backfiller),
{
    law_starts_fail_in_order(config.signer.public_key, flags.log_level@, committee, settings);
    if let Ok(plan) = own {
        law_nodes_start_as_flagged(plan, flags, committee, settings);
        law_nodes_join_their_network(
            plan.network,
            flags.port,
            plan.network.dialable,
            committee,
            settings,
            config,
            i,
        );
    }
}

} // verus!
