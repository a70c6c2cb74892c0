use commonware_codec::{Encode, EncodeFixed};
use commonware_cryptography::bls12381::dkg::ops::generate_shares;
use commonware_cryptography::bls12381::primitives::variant::MinPk;
use commonware_cryptography::bls12381::PrivateKey;
use commonware_cryptography::{PrivateKeyExt, Signer as _};
use commonware_utils::hex;
use rand::rngs::StdRng;
use rand::SeedableRng;
use summit::node::args::{
    engine_url, plan_node, plan_node_on_runtime, run_node_with_runtime,
    try_run_node_with_runtime, ChannelPlan, CliArgs, Command, Flags, KeySubCmd, NetworkSettings, NodeError, NodeFiles, Task,
};
use summit::node::config::{
    read_genesis_hash, read_polynomial, read_share, read_signer, ConfigError, EngineConfig, FileRead,
    PolynomialInput, ShareInput, Signer,
};
use summit::outside::hex_bytes;
use summit::types::{
    Genesis, GenesisCommittee, IpAddr, LogLevel, PublicKey, Quota, Share, SocketAddr,
};

fn private_key(seed: u64) -> PrivateKey {
    PrivateKey::from_seed(seed)
}

fn public_key(seed: u64) -> PublicKey {
    PublicKey(private_key(seed).public_key().encode_fixed())
}

fn address(last: u8) -> SocketAddr {
    SocketAddr { ip: IpAddr::V4([127, 0, 0, last]), port: 26600 }
}

fn committee() -> GenesisCommittee {
    GenesisCommittee {
        validators: (1..=4).map(|seed| (public_key(seed), address(seed as u8))).collect(),
    }
}

/// The polynomial and the second share of a key of four participants, in hexadecimal digits.
fn threshold_key() -> (String, String, Share) {
    let mut rng = StdRng::seed_from_u64(7);
    let (polynomial, shares) = generate_shares::<_, MinPk>(&mut rng, None, 4, 3);
    let share = Share { index: 1, private: shares[1].private.encode_fixed() };
    (hex(&polynomial.encode()), hex(&shares[1].encode()), share)
}

fn genesis() -> Genesis {
    Genesis {
        eth_genesis_hash: format!("0x{}", "ab".repeat(32)),
        identity: threshold_key().0,
        leader_timeout_ms: 2000,
        notarization_timeout_ms: 4000,
        nullify_timeout_ms: 10000,
        activity_timeout_views: 256,
        skip_timeout_views: 32,
        namespace: "_SUMMIT".to_string(),
    }
}

fn files(seed: u64) -> NodeFiles {
    NodeFiles {
        engine_jwt: FileRead::Text("secret".to_string()),
        key: FileRead::Text(format!("{}\n", hex(&private_key(seed)))),
        poly_share: FileRead::Text(threshold_key().1),
        genesis: genesis(),
        committee: committee(),
    }
}

fn settings() -> NetworkSettings {
    NetworkSettings { namespace: b"_SUMMIT".to_vec(), voter_channel: 0, max_message_size: 1024 }
}

fn configure(files: NodeFiles) -> Result<EngineConfig, ConfigError> {
    EngineConfig::try_get_engine_config(
        "http://0.0.0.0:8551".to_string(),
        files.engine_jwt,
        files.key,
        files.poly_share,
        files.committee.peers(),
        "quartz".to_string(),
        &files.genesis,
    )
}

fn text(text: &str) -> FileRead {
    FileRead::Text(text.to_string())
}

#[test]
fn commands_stand_for_tasks() {
    let flags = Flags::default();
    assert_eq!(Command::Run.exec(&flags), Task::RunNode(&flags));
    assert_eq!(
        Command::Keys(KeySubCmd::Show).exec(&flags),
        Task::Keys(KeySubCmd::Show, &flags)
    );
    let args = CliArgs { cmd: Command::Keys(KeySubCmd::Generate), flags: flags.clone() };
    assert_eq!(args.exec(), Task::Keys(KeySubCmd::Generate, &flags));
    let args = CliArgs { cmd: Command::Run, flags: flags.clone() };
    assert_eq!(args.exec(), Task::RunNode(&flags));
}

#[test]
fn flags_have_defaults() {
    let flags = Flags::default();
    assert_eq!(flags.key_path, "~/.seismic/consensus/key.pem");
    assert_eq!(flags.share_path, "~/.seismic/consensus/share.pem");
    assert_eq!(flags.store_path, "~/.seismic/consensus/store");
    assert_eq!(flags.engine_port, 8551);
    assert_eq!(flags.engine_jwt_path, "~/.seismic/jwt.hex");
    assert_eq!(flags.genesis_path, "test_committee.toml");
    assert_eq!(flags.port, 8551);
    assert_eq!(flags.worker_threads, 4);
    assert_eq!(flags.log_level, "debug");
    assert_eq!(flags.db_prefix, "quartz");
}

#[test]
fn engine_urls_name_the_port() {
    for port in [0, 7, 10, 99, 100, 8551, 30303, 65535] {
        assert_eq!(engine_url(port), format!("http://0.0.0.0:{port}"));
    }
}

#[test]
fn committees_find_addresses() {
    let mut committee = committee();
    assert_eq!(committee.ip_of(&public_key(3)), Some(address(3)));
    assert_eq!(committee.ip_of(&public_key(9)), None);
    committee.validators.push((public_key(3), address(33)));
    assert_eq!(committee.ip_of(&public_key(3)), Some(address(3)));
    assert_eq!(committee.peers()[4], public_key(3));
}

#[test]
fn hexadecimal_texts_are_read() {
    assert_eq!(hex_bytes(""), Some(vec![]));
    assert_eq!(hex_bytes("0x"), Some(vec![]));
    assert_eq!(hex_bytes("0102aB"), Some(vec![1, 2, 0xab]));
    assert_eq!(hex_bytes(" \n0x\r01\t0 2\n"), Some(vec![1, 2]));
    assert_eq!(hex_bytes("+f01"), Some(vec![15, 1]));
    assert_eq!(hex_bytes("010"), None);
    assert_eq!(hex_bytes("0g"), None);
    assert_eq!(hex_bytes("f+"), None);
    assert_eq!(hex_bytes("-1"), None);
    assert_eq!(hex_bytes("0x0x"), None);
    assert_eq!(hex_bytes("a\u{e9}b"), None);
}

#[test]
fn a_configuration_is_made_of_files_and_genesis() {
    let config = configure(files(2)).unwrap();
    let (_, _, share) = threshold_key();
    assert_eq!(config.partition_prefix, "quartz");
    assert_eq!(
        config.signer,
        Signer { private_key: private_key(2).to_vec(), public_key: public_key(2) }
    );
    assert_eq!(config.participants, committee().peers());
    assert_eq!(config.mailbox_size, 16384);
    assert_eq!(
        config.backfill_quota,
        Quota { burst_size: 10, replenish_interval_ns: 100_000_000 }
    );
    assert_eq!(config.deque_size, 10);
    assert_eq!(config.leader_timeout_ms, 2000);
    assert_eq!(config.notarization_timeout_ms, 4000);
    assert_eq!(config.nullify_retry_ms, 10000);
    assert_eq!(config.fetch_timeout_ms, 5000);
    assert_eq!(config.activity_timeout, 256);
    assert_eq!(config.skip_timeout, 32);
    assert_eq!(config.max_fetch_count, 16);
    assert_eq!(config.max_fetch_size, 512 * 1024);
    assert_eq!(config.fetch_concurrent, 4);
    assert_eq!(
        config.fetch_rate_per_peer,
        Quota { burst_size: 128, replenish_interval_ns: 7_812_500 }
    );
    assert_eq!(config.engine_url, "http://0.0.0.0:8551");
    assert_eq!(config.engine_jwt, "secret");
    assert_eq!(config.namespace, "_SUMMIT");
    assert_eq!(config.genesis_hash, [0xab; 32]);
    assert_eq!(config.share, share);
    assert_eq!(hex(&config.polynomial), threshold_key().0);
}

#[test]
fn every_part_of_a_configuration_can_fail() {
    let good = files(2);
    let cases = [
        (NodeFiles { engine_jwt: FileRead::NoPath, ..good.clone() }, ConfigError::JwtPath),
        (NodeFiles { engine_jwt: FileRead::Unreadable, ..good.clone() }, ConfigError::JwtRead),
        (NodeFiles { poly_share: FileRead::NoPath, ..good.clone() }, ConfigError::SharePath),
        (NodeFiles { poly_share: FileRead::Unreadable, ..good.clone() }, ConfigError::ShareRead),
        (NodeFiles { poly_share: text("0g"), ..good.clone() }, ConfigError::ShareFormat),
        (NodeFiles { poly_share: text("01"), ..good.clone() }, ConfigError::ShareInvalid),
        (NodeFiles { key: FileRead::NoPath, ..good.clone() }, ConfigError::SignerKey),
        (NodeFiles { key: FileRead::Unreadable, ..good.clone() }, ConfigError::SignerKey),
        (NodeFiles { key: text("0g"), ..good.clone() }, ConfigError::SignerKey),
        (NodeFiles { key: text("01"), ..good.clone() }, ConfigError::SignerKey),
        (
            NodeFiles {
                genesis: Genesis { identity: "0g".to_string(), ..genesis() },
                ..good.clone()
            },
            ConfigError::PolynomialFormat,
        ),
        (
            NodeFiles { committee: GenesisCommittee { validators: vec![] }, ..good.clone() },
            ConfigError::NoParticipants,
        ),
        (
            NodeFiles {
                genesis: Genesis { identity: "01".to_string(), ..genesis() },
                ..good.clone()
            },
            ConfigError::PolynomialInvalid,
        ),
        (
            NodeFiles {
                genesis: Genesis { eth_genesis_hash: "0g".to_string(), ..genesis() },
                ..good.clone()
            },
            ConfigError::GenesisHash,
        ),
        (
            NodeFiles {
                genesis: Genesis { eth_genesis_hash: "ab".repeat(31), ..genesis() },
                ..good.clone()
            },
            ConfigError::GenesisHash,
        ),
    ];
    for (files, error) in cases {
        assert_eq!(configure(files), Err(error));
    }
}

#[test]
fn the_part_that_is_needed_first_is_blamed() {
    let bad = Genesis {
        identity: "0g".to_string(),
        eth_genesis_hash: "0g".to_string(),
        ..genesis()
    };
    let mut files = NodeFiles {
        engine_jwt: FileRead::Unreadable,
        key: FileRead::Unreadable,
        poly_share: text("0g"),
        genesis: bad,
        committee: GenesisCommittee { validators: vec![] },
    };
    assert_eq!(configure(files.clone()), Err(ConfigError::JwtRead));
    files.engine_jwt = text("secret");
    assert_eq!(configure(files.clone()), Err(ConfigError::ShareFormat));
    files.poly_share = text(&threshold_key().1);
    assert_eq!(configure(files.clone()), Err(ConfigError::SignerKey));
    files.key = text(&hex(&private_key(2)));
    assert_eq!(configure(files.clone()), Err(ConfigError::PolynomialFormat));
    files.genesis.identity = threshold_key().0;
    assert_eq!(configure(files.clone()), Err(ConfigError::NoParticipants));
    files.committee = committee();
    assert_eq!(configure(files), Err(ConfigError::GenesisHash));
}

#[test]
fn parts_are_read() {
    let (polynomial, share, decoded) = threshold_key();
    assert_eq!(read_share(&text(&share)), ShareInput::Decoded(decoded));
    assert_eq!(read_share(&text(&format!("{share}00"))), ShareInput::Invalid);
    let signer = read_signer(&text(&hex(&private_key(5)))).unwrap();
    assert_eq!(signer.public_key, public_key(5));
    assert_eq!(signer.private_key, private_key(5).to_vec());
    assert_eq!(read_signer(&text(&"00".repeat(32))), None);
    assert_eq!(read_genesis_hash(&"cd".repeat(32)), Some([0xcd; 32]));
    for participants in [4usize] {
        match read_polynomial(&polynomial, participants) {
            PolynomialInput::Decoded(bytes) => assert_eq!(hex(&bytes), polynomial),
            other => panic!("{other:?}"),
        }
    }
    // Three coefficients are a quorum of four participants, of no fewer and of no more.
    assert_eq!(read_polynomial(&polynomial, 2), PolynomialInput::Invalid);
    assert_eq!(read_polynomial(&polynomial, 5), PolynomialInput::Invalid);
}

#[test]
fn configurations_are_made_of_parts() {
    let (_, _, share) = threshold_key();
    let signer = Signer { private_key: vec![1, 2], public_key: PublicKey([3; 48]) };
    let config = EngineConfig::from_parts(
        "url".to_string(),
        text("secret"),
        ShareInput::Decoded(share.clone()),
        Some(signer.clone()),
        PolynomialInput::Decoded(vec![4, 5]),
        Some([6; 32]),
        vec![PublicKey([7; 48])],
        "prefix".to_string(),
        &genesis(),
    )
    .unwrap();
    assert_eq!(config.signer, signer);
    assert_eq!(config.share, share);
    assert_eq!(config.polynomial, vec![4, 5]);
    assert_eq!(config.genesis_hash, [6; 32]);
    assert_eq!(config.partition_prefix, "prefix");
    assert_eq!(config.engine_url, "url");
}

#[test]
fn a_node_is_planned() {
    let flags = Flags { port: 26600, log_level: "Info".to_string(), ..Flags::default() };
    let plan = Command::Run.run_node(&flags, files(2), settings());
    assert_eq!(plan.runtime.tcp_nodelay, Some(true));
    assert_eq!(plan.runtime.worker_threads, 4);
    assert_eq!(plan.runtime.storage_directory, "~/.seismic/consensus/store");
    assert!(!plan.runtime.catch_panics);
    assert_eq!(plan.telemetry.level, LogLevel::Info);
    assert!(!plan.telemetry.json);
    let any = IpAddr::V4([0, 0, 0, 0]);
    assert_eq!(plan.telemetry.metrics, SocketAddr { ip: any, port: 6969 });
    let network = plan.network;
    assert_eq!(network.namespace, b"\x07_SUMMIT_P2P".to_vec());
    assert_eq!(network.listen, SocketAddr { ip: any, port: 26600 });
    assert_eq!(network.dialable, address(2));
    assert_eq!(network.bootstrappers, committee().validators);
    assert_eq!(network.max_message_size, 1024);
    assert_eq!(network.mailbox_size, 16384);
    assert_eq!(network.peer_set, 0);
    assert_eq!(network.peers, committee().peers());
    let per_second = |cells: u32| Quota {
        burst_size: cells,
        replenish_interval_ns: 1_000_000_000 / cells as u64,
    };
    let channel = |channel, rate, compression| ChannelPlan {
        channel,
        rate,
        backlog: 16384,
        compression,
    };
    assert_eq!(network.voter, channel(0, per_second(128), None));
    assert_eq!(network.resolver, channel(2, per_second(128), None));
    assert_eq!(network.broadcaster, channel(3, per_second(8), Some(3)));
    assert_eq!(network.backfiller, channel(4, per_second(10), Some(3)));
    assert_eq!(plan.config.engine_url, "http://0.0.0.0:8551");
    assert_eq!(plan.config.partition_prefix, "quartz");
}

#[test]
fn both_starts_join_one_network() {
    let flags = Flags { log_level: "no level".to_string(), ..Flags::default() };
    let (network, config) = run_node_with_runtime(&flags, files(2), settings());
    let own = Command::Run.run_node(&Flags::default(), files(2), settings());
    assert_eq!(network, own.network);
    assert_eq!(config, own.config);
    assert_eq!(
        plan_node_on_runtime(&flags, committee(), settings(), &config),
        Ok(network)
    );
}

#[test]
fn a_node_can_fail_to_start() {
    let flags = Flags::default();
    let bad = NodeFiles { key: FileRead::Unreadable, ..files(2) };
    let error = NodeError::Config(ConfigError::SignerKey);
    assert_eq!(Command::Run.try_run_node(&flags, bad.clone(), settings()), Err(error));
    assert_eq!(try_run_node_with_runtime(&flags, bad, settings()), Err(error));
    assert_eq!(
        Command::Run.try_run_node(&flags, files(9), settings()),
        Err(NodeError::NotOnCommittee)
    );
    assert_eq!(
        try_run_node_with_runtime(&flags, files(9), settings()),
        Err(NodeError::NotOnCommittee)
    );
    let flags = Flags { log_level: "loud".to_string(), ..flags };
    assert_eq!(
        Command::Run.try_run_node(&flags, files(2), settings()),
        Err(NodeError::InvalidLogLevel)
    );
    assert_eq!(
        Command::Run.try_run_node(&flags, files(9), settings()),
        Err(NodeError::NotOnCommittee)
    );
}

#[test]
fn log_levels_have_words_and_numbers() {
    let config = configure(files(1)).unwrap();
    let level = |text: &str| {
        let flags = Flags { log_level: text.to_string(), ..Flags::default() };
        plan_node(&flags, committee(), settings(), config.clone()).map(|plan| plan.telemetry.level)
    };
    assert_eq!(level("error"), Ok(LogLevel::Error));
    assert_eq!(level("WARN"), Ok(LogLevel::Warn));
    assert_eq!(level("iNfO"), Ok(LogLevel::Info));
    assert_eq!(level("debug"), Ok(LogLevel::Debug));
    assert_eq!(level("trace"), Ok(LogLevel::Trace));
    assert_eq!(level("1"), Ok(LogLevel::Error));
    assert_eq!(level("2"), Ok(LogLevel::Warn));
    assert_eq!(level("+03"), Ok(LogLevel::Info));
    assert_eq!(level("4"), Ok(LogLevel::Debug));
    assert_eq!(level("5"), Ok(LogLevel::Trace));
    for bad in ["", "0", "6", "+", "-1", "warning", "errors", " info", "18446744073709551617"] {
        assert_eq!(level(bad), Err(NodeError::InvalidLogLevel));
    }
}

#[test]
fn networks_are_apart() {
    let namespace = |name: &[u8]| {
        let settings = NetworkSettings { namespace: name.to_vec(), ..settings() };
        let plan = Command::Run.run_node(&Flags::default(), files(2), settings);
        plan.network.namespace
    };
    assert_eq!(namespace(b""), b"\x00_P2P".to_vec());
    assert_ne!(namespace(b"a"), namespace(b"b"));
    assert_ne!(namespace(b"a"), namespace(b"a_P2P"));
    let long = namespace(&[9; 300]);
    assert_eq!(long[..2], [0xac, 0x02]);
    assert_eq!(long.len(), 306);
    assert_eq!(&long[302..], b"_P2P");
}

#[test]
fn channels_are_apart() {
    let plan = Command::Run.run_node(&Flags::default(), files(2), settings());
    let network = plan.network;
    let channels = [
        network.voter.channel,
        network.resolver.channel,
        network.broadcaster.channel,
        network.backfiller.channel,
    ];
    for i in 0..4 {
        for j in 0..i {
            assert_ne!(channels[i], channels[j]);
        }
    }
}

#[test]
fn thresholds_overlap() {
    // A polynomial decodes only with as many coefficients as a quorum has members.
    for (participants, threshold) in [(1usize, 1u32), (2, 2), (3, 3), (4, 3), (5, 4), (7, 5), (10, 7)] {
        let mut rng = StdRng::seed_from_u64(3);
        let (polynomial, _) = generate_shares::<_, MinPk>(&mut rng, None, participants as u32, threshold);
        let text = hex(&polynomial.encode());
        assert_eq!(
            read_polynomial(&text, participants),
            PolynomialInput::Decoded(polynomial.encode().to_vec())
        );
        let faults = participants as u32 - threshold;
        assert!(2 * threshold - participants as u32 > faults);
    }
}

#[test]
fn files_that_cannot_be_read_are_errors_of_a_configuration() {
    let good = files(2);
    let configure = |engine_jwt, key, poly_share| {
        EngineConfig::get_engine_config(
            "http://0.0.0.0:8551".to_string(),
            engine_jwt,
            key,
            poly_share,
            committee().peers(),
            "quartz".to_string(),
            &genesis(),
        )
    };
    let (jwt, key, share) = (good.engine_jwt, good.key, good.poly_share);
    assert!(configure(jwt.clone(), key.clone(), share.clone()).is_ok());
    let error = configure(FileRead::NoPath, key.clone(), share.clone()).unwrap_err();
    assert_eq!(error, ConfigError::JwtPath);
    let error = configure(FileRead::Unreadable, key.clone(), text("0g")).unwrap_err();
    assert_eq!(error, ConfigError::JwtRead);
    let error = configure(jwt.clone(), key.clone(), FileRead::NoPath).unwrap_err();
    assert_eq!(error, ConfigError::SharePath);
    let error = configure(jwt.clone(), key, FileRead::Unreadable).unwrap_err();
    assert_eq!(error, ConfigError::ShareRead);
    let error = configure(jwt, text("01"), share).unwrap_err();
    assert_eq!(error, ConfigError::SignerKey);
}

#[test]
fn errors_have_words() {
    assert_eq!(ConfigError::JwtPath.message(), "failed to expand jwt path");
    assert_eq!(ConfigError::JwtRead.message(), "failed to load jwt");
    assert_eq!(ConfigError::SharePath.message(), "failed to expand share path");
    assert_eq!(ConfigError::ShareRead.message(), "failed to load share hex");
    assert_eq!(ConfigError::ShareFormat.message(), "invalid format for polynomial share");
    assert_eq!(ConfigError::ShareInvalid.message(), "Could not parse share");
    assert_eq!(ConfigError::SignerKey.message(), "failed to load signer key");
    assert_eq!(ConfigError::PolynomialFormat.message(), "Could not parse polynomial");
    assert_eq!(ConfigError::NoParticipants.message(), "n must not be zero");
    assert_eq!(ConfigError::PolynomialInvalid.message(), "polynomial is invalid");
    assert_eq!(ConfigError::GenesisHash.message(), "bad eth_genesis_hash");
    assert_eq!(NodeError::Config(ConfigError::JwtRead).message(), "failed to load jwt");
    assert_eq!(NodeError::NotOnCommittee.message(), "This node is not on the committee");
    assert_eq!(NodeError::InvalidLogLevel.message(), "Invalid log level");
    assert_eq!(NodeError::NamespaceTooLong.message(), "The namespace is too long");
}
