//! The command line, and the plan of a node that it asks for.
//!
//! A plan says everything that is decided before the first task of the node is started: the
//! runtime, the telemetry, the network with its channels, and the configuration of the engine.

use vstd::prelude::*;

use crate::node::config::{
    config_fault, find_config_fault, read_signer, signs_as, ConfigError, EngineConfig, FileRead, BACKFILLER_CHANNEL, BROADCASTER_CHANNEL,
    MESSAGE_BACKLOG, RESOLVER_CHANNEL,
};
use crate::outside::{decimal_value, level_of, parse_level, quota_of, quota_per_second, union_unique, varint};
use crate::types::genesis::law_addresses_are_listed;
use crate::types::{
    Genesis, GenesisCommittee, IpAddr, LogLevel, PublicKey, Quota, SocketAddr,
};

verus! {

pub const DEFAULT_KEY_PATH: &'static str = "~/.seismic/consensus/key.pem";

pub const DEFAULT_DB_FOLDER: &'static str = "~/.seismic/consensus/store";

pub const DEFAULT_SHARE_PATH: &'static str = "~/.seismic/consensus/share.pem";

pub const DEFAULT_JWT_PATH: &'static str = "~/.seismic/jwt.hex";

pub const DEFAULT_GENESIS_PATH: &'static str = "test_committee.toml";

pub const DEFAULT_LOG_LEVEL: &'static str = "debug";

pub const DEFAULT_DB_PREFIX: &'static str = "quartz";

/// The port of the engine API, and of consensus, where the flags name none.
pub const DEFAULT_PORT: u16 = 8551;

pub const DEFAULT_WORKER_THREADS: usize = 4;

/// The port at which the node offers its metrics.
pub const METRICS_PORT: u16 = 6969;

/// How many votes, and how many resolver messages, a peer may send each second.
pub const CONSENSUS_RATE: u32 = 128;

/// How many broadcast blocks a peer may send each second.
pub const BROADCAST_RATE: u32 = 8;

/// How hard blocks are compressed on the network.
pub const BLOCK_COMPRESSION: u8 = 3;

/// The flags of the command line.
#[derive(Clone, Debug, PartialEq, Eq)]
pub struct Flags {
    /// Path to your private key or where you want it generated.
    pub key_path: String,
    /// Path to your share of the threshold key.
    pub share_path: String,
    /// Path to the folder we will keep the consensus DB.
    pub store_path: String,
    /// Port of the engine API of the execution client.
    pub engine_port: u16,
    /// Path to the JWT token for communicating with the engine API.
    pub engine_jwt_path: String,
    /// Path to the genesis file.
    pub genesis_path: String,
    /// Port consensus runs on.
    pub port: u16,
    pub worker_threads: usize,
    /// Level for logs (error, warn, info, debug, trace).
    pub log_level: String,
    pub db_prefix: String,
}

/// What may be done with keys.
#[derive(Clone, Copy, Debug, PartialEq, Eq)]
pub enum KeySubCmd {
    /// Generate a private key and store it.
    Generate,
    /// Show the public key of the stored private key.
    Show,
}

/// What the node is asked to do.
#[derive(Clone, Copy, Debug, PartialEq, Eq)]
pub enum Command {
    /// Start the validator.
    Run,
    /// Key management utilities.
    Keys(KeySubCmd),
}

/// The command line.
#[derive(Clone, Debug, PartialEq, Eq)]
pub struct CliArgs {
    pub cmd: Command,
    pub flags: Flags,
}

/// The work that a command stands for.
#[derive(Clone, Copy, Debug, PartialEq, Eq)]
pub enum Task<'a> {
    /// Start the validator with these flags.
    RunNode(&'a Flags),
    /// Do this with keys, under these flags.
    Keys(KeySubCmd, &'a Flags),
}

/// What the network of a chain agrees on.
#[derive(Clone, Debug, PartialEq, Eq)]
pub struct NetworkSettings {
    /// Keeps the messages of one chain apart from those of another.
    pub namespace: Vec<u8>,
    /// The channel on which votes are sent.
    pub voter_channel: u32,
    /// How many bytes a message may have.
    pub max_message_size: usize,
}

/// What was read for a node that is to be started.
#[derive(Clone, Debug, PartialEq, Eq)]
pub struct NodeFiles {
    pub engine_jwt: FileRead,
    pub key: FileRead,
    pub poly_share: FileRead,
    pub genesis: Genesis,
    pub committee: GenesisCommittee,
}

/// How the runtime is started.
#[derive(Clone, Debug, PartialEq, Eq)]
pub struct RuntimePlan {
    pub tcp_nodelay: Option<bool>,
    pub worker_threads: usize,
    pub storage_directory: String,
    pub catch_panics: bool,
}

/// How the node tells what it does.
#[derive(Clone, Debug, PartialEq, Eq)]
pub struct TelemetryPlan {
    pub level: LogLevel,
    pub json: bool,
    pub metrics: SocketAddr,
}

/// A channel that is registered with the network.
#[derive(Clone, Copy, Debug, PartialEq, Eq)]
pub struct ChannelPlan {
    pub channel: u32,
    pub rate: Quota,
    pub backlog: usize,
    pub compression: Option<u8>,
}

/// How the network is started.
#[derive(Clone, Debug, PartialEq, Eq)]
pub struct NetworkPlan {
    pub namespace: Vec<u8>,
    pub listen: SocketAddr,
    pub dialable: SocketAddr,
    pub bootstrappers: Vec<(PublicKey, SocketAddr)>,
    pub max_message_size: usize,
    pub mailbox_size: usize,
    /// The number of the peer set that is authorized.
    pub peer_set: u64,
    pub peers: Vec<PublicKey>,
    pub voter: ChannelPlan,
    pub resolver: ChannelPlan,
    pub broadcaster: ChannelPlan,
    pub backfiller: ChannelPlan,
}

/// How a node is started.
#[derive(Clone, Debug, PartialEq, Eq)]
pub struct NodePlan {
    pub runtime: RuntimePlan,
    pub telemetry: TelemetryPlan,
    pub network: NetworkPlan,
    pub config: EngineConfig,
}

/// Why a node cannot be started.
#[derive(Clone, Copy, Debug, PartialEq, Eq)]
pub enum NodeError {
    /// There is no configuration of the engine.
    Config(ConfigError),
    /// This node is not on the committee.
    NotOnCommittee,
    /// The log level is none.
    InvalidLogLevel,
    /// The namespace is longer than its length can be told.
    NamespaceTooLong,
}

impl NodeError {
    /// The error in words.
    pub open spec fn words(self) -> Seq<char> {
        match self {
            NodeError::Config(error) => error.words(),
            NodeError::NotOnCommittee => "This node is not on the committee"@,
            NodeError::InvalidLogLevel => "Invalid log level"@,
            NodeError::NamespaceTooLong => "The namespace is too long"@,
        }
    }

    /// Says the error in words.
    pub fn message(&self) -> (message: &'static str)
        ensures
            message@ == self.words(),
    {
        match self {
            NodeError::Config(error) => error.message(),
            NodeError::NotOnCommittee => "This node is not on the committee",
            NodeError::InvalidLogLevel => "Invalid log level",
            NodeError::NamespaceTooLong => "The namespace is too long",
        }
    }
}

/// The address on every interface, at the given port.
pub open spec fn any_address(port: u16) -> SocketAddr {
    SocketAddr { ip: IpAddr::V4([0, 0, 0, 0]), port }
}

/// The character of a decimal digit.
pub open spec fn digit_char(digit: int) -> char {
    ('0' as int + digit) as char
}

/// A number in decimal digits.
pub open spec fn decimal(n: nat) -> Seq<char>
    decreases n,
{
    if n < 10 {
        seq![digit_char(n as int)]
    } else {
        decimal(n / 10).push(digit_char((n % 10) as int))
    }
}

fn digit_text(digit: u16) -> (text: &'static str)
    requires
        digit < 10,
    ensures
        text@ == seq![digit_char(digit as int)],
{
    proof {
        reveal_strlit("0");
        reveal_strlit("1");
        reveal_strlit("2");
        reveal_strlit("3");
        reveal_strlit("4");
        reveal_strlit("5");
        reveal_strlit("6");
        reveal_strlit("7");
        reveal_strlit("8");
        reveal_strlit("9");
    }
    let text = match digit {
        0 => "0",
        1 => "1",
        2 => "2",
        3 => "3",
        4 => "4",
        5 => "5",
        6 => "6",
        7 => "7",
        8 => "8",
        _ => "9",
    };
    assert(text@ =~= seq![digit_char(digit as int)]);
    text
}

fn append_decimal(text: &mut String, n: u16)
    ensures
        final(text)@ == old(text)@ + decimal(n as nat),
    decreases n,
{
    let ghost before = text@;
    if n >= 10 {
        append_decimal(text, n / 10);
    }
    text.append(digit_text(n % 10));
    assert(text@ =~= before + decimal(n as nat));
}

/// The URL of the engine API at the given port of this host.
pub fn engine_url(port: u16) -> (url: String)
    ensures
        url@ == "http://0.0.0.0:"@ + decimal(port as nat),
{
    let mut url = "http://0.0.0.0:".to_owned();
    append_decimal(&mut url, port);
    url
}

impl Default for Flags {
    fn default() -> (flags: Flags)
        ensures
            flags.key_path@ == "~/.seismic/consensus/key.pem"@,
            flags.share_path@ == "~/.seismic/consensus/share.pem"@,
            flags.store_path@ == "~/.seismic/consensus/store"@,
            flags.engine_port == 8551,
            flags.engine_jwt_path@ == "~/.seismic/jwt.hex"@,
            flags.genesis_path@ == "test_committee.toml"@,
            flags.port == 8551,
            flags.worker_threads == 4,
            flags.log_level@ == "debug"@,
            flags.db_prefix@ == "quartz"@,
    {
        Flags {
            key_path: DEFAULT_KEY_PATH.to_owned(),
            share_path: DEFAULT_SHARE_PATH.to_owned(),
            store_path: DEFAULT_DB_FOLDER.to_owned(),
            engine_port: DEFAULT_PORT,
            engine_jwt_path: DEFAULT_JWT_PATH.to_owned(),
            genesis_path: DEFAULT_GENESIS_PATH.to_owned(),
            port: DEFAULT_PORT,
            worker_threads: DEFAULT_WORKER_THREADS,
            log_level: DEFAULT_LOG_LEVEL.to_owned(),
            db_prefix: DEFAULT_DB_PREFIX.to_owned(),
        }
    }
}

impl Command {
    /// The work that the command stands for.
    pub open spec fn task<'a>(self, flags: &'a Flags) -> Task<'a> {
        match self {
            Command::Run => Task::RunNode(flags),
            Command::Keys(cmd) => Task::Keys(cmd, flags),
        }
    }

    /// Finds the work that the command stands for.
    pub fn exec<'a>(&self, flags: &'a Flags) -> (task: Task<'a>)
        ensures
            task == self.task(flags),
    {
        match self {
            Command::Run => Task::RunNode(flags),
            Command::Keys(cmd) => Task::Keys(*cmd, flags),
        }
    }

    /// Plans the node that the flags ask for, of the files that were read for it.
    pub fn run_node(&self, flags: &Flags, files: NodeFiles, settings: NetworkSettings) -> (plan: NodePlan)
        requires
            files.can_start(*flags, settings),
        ensures
            files.configure(flags.engine_port, flags.db_prefix@, plan.config),
            plan.starts(*flags, files.committee, settings),
    {
        let (config, committee) = engine_config(flags, files);
        plan_node(flags, committee, settings, config).unwrap()
    }

    /// Plans the node that the flags ask for, of the files that were read for it, or says what
    /// keeps it from being started.
    pub fn try_run_node(&self, flags: &Flags, files: NodeFiles, settings: NetworkSettings) -> (plan: Result<
        NodePlan,
        NodeError,
    >)
        ensures
            match plan {
                Ok(plan) => {
                    &&& files.configure(flags.engine_port, flags.db_prefix@, plan.config)
                    &&& plan.starts(*flags, files.committee, settings)
                },
                Err(NodeError::Config(error)) => files.config_fault() == Some(error),
                Err(error) => files.config_fault() is None && exists|key: PublicKey|
                    signs_as(files.key, key) && #[trigger] node_fault(
                        key,
                        flags.log_level@,
                        files.committee,
                        settings,
                    ) == Some(error),
            },
            plan is Ok <==> files.can_start(*flags, settings),
    {
        let key = match files.signer_key() {
            Ok(key) => key,
            Err(error) => return Err(NodeError::Config(error)),
        };
        proof {
            lemma_one_signer(files.key, key);
        }
        match find_node_fault(&key, &flags.log_level, &files.committee, &settings) {
            Some(error) => Err(error),
            None => Ok(self.run_node(flags, files, settings)),
        }
    }
}

/// Plans the network and the engine of the node that the flags ask for, on a runtime which others
/// started.
pub fn run_node_with_runtime(flags: &Flags, files: NodeFiles, settings: NetworkSettings) -> (plan: (
    NetworkPlan,
    EngineConfig,
))
    requires
        files.can_join(settings),
    ensures
        files.configure(flags.engine_port, flags.db_prefix@, plan.1),
        files.committee.address_of(plan.1.signer.public_key) == Some(plan.0.dialable),
        plan.0.joins(flags.port, plan.0.dialable, files.committee, settings, plan.1),
{
    let (config, committee) = engine_config(flags, files);
    let network = plan_node_on_runtime(flags, committee, settings, &config).unwrap();
    (network, config)
}

/// Plans the network and the engine of the node that the flags ask for, on a runtime which others
/// started, or says what keeps it from joining the network.
pub fn try_run_node_with_runtime(flags: &Flags, files: NodeFiles, settings: NetworkSettings) -> (plan: Result<
    (NetworkPlan, EngineConfig),
    NodeError,
>)
    ensures
        match plan {
            Ok((network, config)) => {
                &&& files.configure(flags.engine_port, flags.db_prefix@, config)
                &&& files.committee.address_of(config.signer.public_key) == Some(network.dialable)
                &&& network.joins(flags.port, network.dialable, files.committee, settings, config)
            },
            Err(NodeError::Config(error)) => files.config_fault() == Some(error),
            Err(error) => files.config_fault() is None && exists|key: PublicKey|
                signs_as(files.key, key) && #[trigger] network_fault(key, files.committee, settings)
                    == Some(error),
        },
        plan is Ok <==> files.can_join(settings),
{
    let key = match files.signer_key() {
        Ok(key) => key,
        Err(error) => return Err(NodeError::Config(error)),
    };
    proof {
        lemma_one_signer(files.key, key);
    }
    match find_network_fault(&key, &files.committee, &settings) {
        Some(error) => Err(error),
        None => Ok(run_node_with_runtime(flags, files, settings)),
    }
}

/// Makes the configuration of the engine of a node, and gives the committee back.
fn engine_config(flags: &Flags, files: NodeFiles) -> (made: (EngineConfig, GenesisCommittee))
    requires
        files.config_fault() is None,
    ensures
        files.configure(flags.engine_port, flags.db_prefix@, made.0),
        signs_as(files.key, made.0.signer.public_key),
        made.1 == files.committee,
{
    let config = EngineConfig::get_engine_config(
        engine_url(flags.engine_port),
        files.engine_jwt,
        files.key,
        files.poly_share,
        files.committee.peers(),
        flags.db_prefix.clone(),
        &files.genesis,
    ).unwrap();
    (config, files.committee)
}

/// A file holds the private key of one public key only.
proof fn lemma_one_signer(file: FileRead, key: PublicKey)
    requires
        signs_as(file, key),
    ensures
        forall|other: PublicKey| signs_as(file, other) ==> other == key,
{
    assert forall|other: PublicKey| signs_as(file, other) implies other == key by {
        assert(other.0 =~= key.0);
    }
}

impl NodeFiles {
    /// The node can be configured, and nothing keeps it from being started.
    pub open spec fn can_start(self, flags: Flags, settings: NetworkSettings) -> bool {
        self.config_fault() is None && forall|key: PublicKey|
            signs_as(self.key, key) ==> #[trigger] node_fault(
                key,
                flags.log_level@,
                self.committee,
                settings,
            ) is None
    }

    /// The node can be configured, and nothing keeps it from joining the network.
    pub open spec fn can_join(self, settings: NetworkSettings) -> bool {
        self.config_fault() is None && forall|key: PublicKey|
            signs_as(self.key, key) ==> #[trigger] network_fault(key, self.committee, settings) is None
    }

    /// The public key that the node signs as, where nothing is wrong with what was read.
    pub fn signer_key(&self) -> (key: Result<PublicKey, ConfigError>)
        ensures
            match key {
                Ok(key) => self.config_fault() is None && signs_as(self.key, key),
                Err(error) => self.config_fault() == Some(error),
            },
    {
        match find_config_fault(
            &self.engine_jwt,
            &self.key,
            &self.poly_share,
            self.committee.validators.len(),
            &self.genesis,
        ) {
            Some(error) => Err(error),
            None => Ok(read_signer(&self.key).unwrap().public_key),
        }
    }

    /// What is wrong first with what was read.
    pub open spec fn config_fault(self) -> Option<ConfigError> {
        config_fault(
            self.engine_jwt,
            self.key,
            self.poly_share,
            self.committee.keys().len(),
            self.genesis,
        )
    }

    /// The configuration is the one that was read, for an execution client at the given port and
    /// a store with the given prefix.
    pub open spec fn configure(self, engine_port: u16, db_prefix: Seq<char>, config: EngineConfig) -> bool {
        &&& config.has_keys(
            self.engine_jwt,
            self.key,
            self.poly_share,
            self.committee.keys().len(),
            self.genesis,
        )
        &&& config.has_settings(
            "http://0.0.0.0:"@ + decimal(engine_port as nat),
            self.committee.keys(),
            db_prefix,
            self.genesis,
        )
    }
}

impl CliArgs {
    /// The work that the command line asks for.
    pub fn exec(&self) -> (task: Task<'_>)
        ensures
            task == self.cmd.task(&self.flags),
    {
        self.cmd.exec(&self.flags)
    }
}

impl ChannelPlan {
    /// A channel with the given number of messages per second, the common backlog and the given
    /// compression.
    pub open spec fn with(channel: u32, rate: Quota, compression: Option<u8>) -> ChannelPlan {
        ChannelPlan { channel, rate, backlog: 16384, compression }
    }
}

impl NetworkPlan {
    /// The network of a node at the given port and address, of a committee, and of a chain.
    pub open spec fn joins(
        self,
        port: u16,
        address: SocketAddr,
        committee: GenesisCommittee,
        settings: NetworkSettings,
        config: EngineConfig,
    ) -> bool {
        &&& self.namespace@ == varint(settings.namespace@.len()) + settings.namespace@ + "_P2P"@.map_values(|c: char| c as u8)
        &&& self.listen == any_address(port)
        &&& self.dialable == address
        &&& self.bootstrappers == committee.validators
        &&& self.max_message_size == settings.max_message_size
        &&& self.mailbox_size == config.mailbox_size
        &&& self.peer_set == 0
        &&& self.peers@ == committee.keys()
        &&& self.voter == ChannelPlan::with(settings.voter_channel, quota_of(128), None)
        &&& self.resolver == ChannelPlan::with(2, quota_of(128), None)
        &&& self.broadcaster == ChannelPlan::with(3, quota_of(8), Some(3))
        &&& self.backfiller == ChannelPlan::with(4, config.backfill_quota, Some(3))
    }
}

/// Plans the network of a node.
fn plan_network(
    port: u16,
    address: SocketAddr,
    committee: GenesisCommittee,
    settings: NetworkSettings,
    config: &EngineConfig,
) -> (plan: NetworkPlan)
    requires
        settings.namespace@.len() <= u32::MAX,
        settings.namespace@.len() + 9 <= usize::MAX,
    ensures
        plan.joins(port, address, committee, settings, *config),
{
    let suffix: [u8; 4] = [95, 80, 50, 80];
    proof {
        reveal_strlit("_P2P");
        assert(suffix@ =~= "_P2P"@.map_values(|c: char| c as u8));
    }
    let namespace = union_unique(settings.namespace.as_slice(), suffix.as_slice());
    let peers = committee.peers();
    NetworkPlan {
        namespace,
        listen: SocketAddr { ip: IpAddr::V4([0, 0, 0, 0]), port },
        dialable: address,
        bootstrappers: committee.validators,
        max_message_size: settings.max_message_size,
        mailbox_size: config.mailbox_size,
        peer_set: 0,
        peers,
        voter: ChannelPlan {
            channel: settings.voter_channel,
            rate: quota_per_second(CONSENSUS_RATE),
            backlog: MESSAGE_BACKLOG,
            compression: None,
        },
        resolver: ChannelPlan {
            channel: RESOLVER_CHANNEL,
            rate: quota_per_second(CONSENSUS_RATE),
            backlog: MESSAGE_BACKLOG,
            compression: None,
        },
        broadcaster: ChannelPlan {
            channel: BROADCASTER_CHANNEL,
            rate: quota_per_second(BROADCAST_RATE),
            backlog: MESSAGE_BACKLOG,
            compression: Some(BLOCK_COMPRESSION),
        },
        backfiller: ChannelPlan {
            channel: BACKFILLER_CHANNEL,
            rate: config.backfill_quota,
            backlog: MESSAGE_BACKLOG,
            compression: Some(BLOCK_COMPRESSION),
        },
    }
}

impl NodePlan {
    /// The plan of a node with the given flags on the given committee.
    pub open spec fn starts(
        self,
        flags: Flags,
        committee: GenesisCommittee,
        settings: NetworkSettings,
    ) -> bool {
        &&& self.runtime.tcp_nodelay == Some(true)
        &&& self.runtime.worker_threads == flags.worker_threads
        &&& self.runtime.storage_directory@ == flags.store_path@
        &&& self.runtime.catch_panics == false
        &&& level_of(flags.log_level@) == Some(self.telemetry.level)
        &&& self.telemetry.json == false
        &&& self.telemetry.metrics == any_address(6969)
        &&& committee.address_of(self.config.signer.public_key) == Some(self.network.dialable)
        &&& self.network.joins(
            flags.port,
            self.network.dialable,
            committee,
            settings,
            self.config,
        )
    }
}

/// What keeps a configured node from joining the network, first things first.
pub open spec fn network_fault(
    key: PublicKey,
    committee: GenesisCommittee,
    settings: NetworkSettings,
) -> Option<NodeError> {
    if committee.address_of(key) is None {
        Some(NodeError::NotOnCommittee)
    } else if settings.namespace@.len() > u32::MAX || settings.namespace@.len() + 9 > usize::MAX {
        Some(NodeError::NamespaceTooLong)
    } else {
        None
    }
}

/// What keeps a configured node from being started, first things first.
pub open spec fn node_fault(
    key: PublicKey,
    log_level: Seq<char>,
    committee: GenesisCommittee,
    settings: NetworkSettings,
) -> Option<NodeError> {
    if committee.address_of(key) is None {
        Some(NodeError::NotOnCommittee)
    } else if level_of(log_level) is None {
        Some(NodeError::InvalidLogLevel)
    } else {
        network_fault(key, committee, settings)
    }
}

/// The namespace can be told by its length.
fn namespace_fits(settings: &NetworkSettings) -> (fits: bool)
    ensures
        fits == (settings.namespace@.len() <= u32::MAX && settings.namespace@.len() + 9 <= usize::MAX),
{
    let len: u64 = settings.namespace.len() as u64;
    len <= 0xffff_ffff && settings.namespace.len() <= usize::MAX - 9
}

/// Finds what keeps a configured node from joining the network, first things first.
pub fn find_network_fault(key: &PublicKey, committee: &GenesisCommittee, settings: &NetworkSettings) -> (fault:
    Option<NodeError>)
    ensures
        fault == network_fault(*key, *committee, *settings),
{
    if committee.ip_of(key).is_none() {
        Some(NodeError::NotOnCommittee)
    } else if !namespace_fits(settings) {
        Some(NodeError::NamespaceTooLong)
    } else {
        None
    }
}

/// Finds what keeps a configured node from being started, first things first.
pub fn find_node_fault(
    key: &PublicKey,
    log_level: &String,
    committee: &GenesisCommittee,
    settings: &NetworkSettings,
) -> (fault: Option<NodeError>)
    ensures
        fault == node_fault(*key, log_level@, *committee, *settings),
{
    if committee.ip_of(key).is_none() {
        Some(NodeError::NotOnCommittee)
    } else if parse_level(log_level.as_str()).is_err() {
        Some(NodeError::InvalidLogLevel)
    } else {
        find_network_fault(key, committee, settings)
    }
}

/// Plans a configured node.
pub fn plan_node(
    flags: &Flags,
    committee: GenesisCommittee,
    settings: NetworkSettings,
    config: EngineConfig,
) -> (plan: Result<NodePlan, NodeError>)
    ensures
        match plan {
            Ok(plan) => plan.config == config && plan.starts(*flags, committee, settings),
            Err(error) => node_fault(
                config.signer.public_key,
                flags.log_level@,
                committee,
                settings,
            ) == Some(error),
        },
        plan is Ok <==> node_fault(config.signer.public_key, flags.log_level@, committee, settings) is None,
{
    let address = match committee.ip_of(&config.signer.public_key) {
        Some(address) => address,
        None => return Err(NodeError::NotOnCommittee),
    };
    let level = match parse_level(flags.log_level.as_str()) {
        Ok(level) => level,
        Err(_) => return Err(NodeError::InvalidLogLevel),
    };
    if !namespace_fits(&settings) {
        return Err(NodeError::NamespaceTooLong);
    }
    let runtime = RuntimePlan {
        tcp_nodelay: Some(true),
        worker_threads: flags.worker_threads,
        storage_directory: flags.store_path.clone(),
        catch_panics: false,
    };
    let telemetry = TelemetryPlan {
        level,
        json: false,
        metrics: SocketAddr { ip: IpAddr::V4([0, 0, 0, 0]), port: METRICS_PORT },
    };
    let network = plan_network(flags.port, address, committee, settings, &config);
    Ok(NodePlan { runtime, telemetry, network, config })
}

/// Plans the network of a configured node that runs on a runtime which others started.
pub fn plan_node_on_runtime(
    flags: &Flags,
    committee: GenesisCommittee,
    settings: NetworkSettings,
    config: &EngineConfig,
) -> (plan: Result<NetworkPlan, NodeError>)
    ensures
        match plan {
            Ok(plan) => committee.address_of(config.signer.public_key) == Some(plan.dialable)
                && plan.joins(flags.port, plan.dialable, committee, settings, *config),
            Err(error) => network_fault(config.signer.public_key, committee, settings) == Some(error),
        },
        plan is Ok <==> network_fault(config.signer.public_key, committee, settings) is None,
{
    let address = match committee.ip_of(&config.signer.public_key) {
        Some(address) => address,
        None => return Err(NodeError::NotOnCommittee),
    };
    if !namespace_fits(&settings) {
        return Err(NodeError::NamespaceTooLong);
    }
    Ok(plan_network(flags.port, address, committee, settings, config))
}

/// The channels of a network never share a number, so long as the votes have one of their own.
pub proof fn law_channels_are_apart(
    plan: NetworkPlan,
    port: u16,
    address: SocketAddr,
    committee: GenesisCommittee,
    settings: NetworkSettings,
    config: EngineConfig,
)
    requires
        plan.joins(port, address, committee, settings, config),
        !(2 <= settings.voter_channel <= 4),
    ensures
        plan.voter.channel != plan.resolver.channel,
        plan.voter.channel != plan.broadcaster.channel,
        plan.voter.channel != plan.backfiller.channel,
        plan.resolver.channel != plan.broadcaster.channel,
        plan.resolver.channel != plan.backfiller.channel,
        plan.broadcaster.channel != plan.backfiller.channel,
{
}

/// A longer number never has a shorter encoding.
proof fn lemma_varint_grows(a: nat, b: nat)
    requires
        a <= b,
    ensures
        varint(a).len() <= varint(b).len(),
        varint(a).len() > 0,
    decreases b,
{
    if b >= 128 && a >= 128 {
        lemma_varint_grows(a / 128, b / 128);
    } else if b >= 128 {
        lemma_varint_grows(b / 128, b / 128);
    }
}

/// The length of a namespace takes at least one byte.
pub proof fn law_encoded_lengths_are_not_empty(length: nat)
    ensures
        varint(length).len() > 0,
{
    lemma_varint_grows(length, length);
}

/// The networks of chains with different namespaces speak under different namespaces, whatever
/// the namespaces are.
pub proof fn law_networks_are_apart(first: Seq<u8>, second: Seq<u8>, suffix: Seq<u8>)
    requires
        first != second,
    ensures
        varint(first.len()) + first + suffix != varint(second.len()) + second + suffix,
{
    let a = varint(first.len()) + first + suffix;
    let b = varint(second.len()) + second + suffix;
    if first.len() < second.len() {
        lemma_varint_grows(first.len(), second.len());
        assert(a.len() < b.len());
    } else if second.len() < first.len() {
        lemma_varint_grows(second.len(), first.len());
        assert(b.len() < a.len());
    } else if a == b {
        let start = varint(first.len()).len() as int;
        assert forall|i: int| 0 <= i < first.len() implies first[i] == second[i] by {
            assert(a[start + i] == first[i]);
            assert(b[start + i] == second[i]);
        }
        assert(first =~= second);
    }
}

/// A node joins the same network whether it starts its own runtime or runs on another's.
pub proof fn law_both_starts_join_one_network(
    own: NodePlan,
    other: NetworkPlan,
    flags: Flags,
    committee: GenesisCommittee,
    settings: NetworkSettings,
    config: EngineConfig,
)
    requires
        own.starts(flags, committee, settings),
        own.config == config,
        committee.address_of(config.signer.public_key) == Some(other.dialable),
        other.joins(flags.port, other.dialable, committee, settings, config),
    ensures
        own.network.namespace@ == other.namespace@,
        own.network.peers@ == other.peers@,
        own.network == (NetworkPlan {
            namespace: own.network.namespace,
            peers: own.network.peers,
            ..other
        }),
{
}

/// A number in decimal digits is that number: every character is a digit, the digits have the
/// value of the number, and there is no zero in front but for the number zero.
pub proof fn law_decimal_digits_have_the_value(n: nat)
    ensures
        decimal_value(decimal(n)) == n,
        decimal(n).len() > 0,
        forall|i: int| 0 <= i < decimal(n).len() ==> '0' <= #[trigger] decimal(n)[i] <= '9',
        decimal(n)[0] == '0' ==> n == 0 && decimal(n).len() == 1,
    decreases n,
{
    reveal_with_fuel(decimal_value, 2);
    if n >= 10 {
        law_decimal_digits_have_the_value(n / 10);
        assert(decimal(n).drop_last() =~= decimal(n / 10));
        assert forall|i: int| 0 <= i < decimal(n).len() implies '0' <= #[trigger] decimal(n)[i] <= '9' by {
            if i < decimal(n).len() - 1 {
                assert(decimal(n)[i] == decimal(n / 10)[i]);
            }
        }
        assert(decimal(n)[0] == decimal(n / 10)[0]);
    } else {
        assert(decimal(n).drop_last() =~= Seq::empty());
    }
}

/// A command stands for its own work, under the flags that it was given.
pub proof fn law_commands_stand_for_their_work(cmd: KeySubCmd, flags: &Flags)
    ensures
        Command::Run.task(flags) matches Task::RunNode(with) && *with == *flags,
        Command::Keys(cmd).task(flags) matches Task::Keys(done, with) && done == cmd && *with == *flags,
{
}

/// What keeps a node from starting is blamed in order: that it is not listed in the committee,
/// then that the log level is none, then that its namespace is too long. On a runtime of others the
/// log level does not matter.
pub proof fn law_starts_fail_in_order(
    key: PublicKey,
    log_level: Seq<char>,
    committee: GenesisCommittee,
    settings: NetworkSettings,
)
    ensures
        ({
            let listed = exists|i: int|
                0 <= i < committee.validators@.len() && (#[trigger] committee.validators@[i]).0 == key;
            let fits = settings.namespace@.len() <= u32::MAX && settings.namespace@.len() + 9 <= usize::MAX;
            let on_own = node_fault(key, log_level, committee, settings);
            let on_other = network_fault(key, committee, settings);
            &&& on_own is None <==> listed && level_of(log_level) is Some && fits
            &&& on_own == Some(NodeError::NotOnCommittee) <==> !listed
            &&& on_own == Some(NodeError::InvalidLogLevel) <==> listed && level_of(log_level) is None
            &&& on_own == Some(NodeError::NamespaceTooLong) <==> listed && level_of(log_level) is Some
                && !fits
            &&& on_other is None <==> listed && fits
            &&& on_other == Some(NodeError::NotOnCommittee) <==> !listed
            &&& on_other == Some(NodeError::NamespaceTooLong) <==> listed && !fits
        }),
{
    law_addresses_are_listed(committee, key);
}

/// A node starts if and only if there is nothing wrong with what was read and its key is listed in
/// the committee, its log level is one, and its namespace fits.
pub proof fn law_nodes_start_when_they_can(files: NodeFiles, flags: Flags, settings: NetworkSettings, key: PublicKey)
    requires
        signs_as(files.key, key),
    ensures
        files.config_fault() == config_fault(
            files.engine_jwt,
            files.key,
            files.poly_share,
            files.committee.validators@.len(),
            files.genesis,
        ),
        files.can_start(flags, settings) <==> files.config_fault() is None && node_fault(
            key,
            flags.log_level@,
            files.committee,
            settings,
        ) is None,
        files.can_join(settings) <==> files.config_fault() is None && network_fault(
            key,
            files.committee,
            settings,
        ) is None,
{
    lemma_one_signer(files.key, key);
}

/// A configured node has the keys of its files and of its genesis, speaks to the execution client
/// at the port that was given on this host, counts the listed validators as the participants, in
/// their order, and stores under the prefix that was given.
pub proof fn law_nodes_are_configured_of_their_files(
    files: NodeFiles,
    engine_port: u16,
    db_prefix: Seq<char>,
    config: EngineConfig,
    i: int,
)
    requires
        files.configure(engine_port, db_prefix, config),
    ensures
        config.has_keys(
            files.engine_jwt,
            files.key,
            files.poly_share,
            files.committee.validators@.len(),
            files.genesis,
        ),
        config.has_settings(
            config.engine_url@,
            config.participants@,
            config.partition_prefix@,
            files.genesis,
        ),
        config.partition_prefix@ == db_prefix,
        config.participants@.len() == files.committee.validators@.len(),
        0 <= i < config.participants@.len() ==> config.participants@[i] == files.committee.validators@[i].0,
        config.engine_url@.take(15) == "http://0.0.0.0:"@,
        decimal_value(config.engine_url@.skip(15)) == engine_port,
        config.engine_url@.len() > 15,
        config.engine_url@[15] == '0' ==> engine_port == 0,
{
    reveal_strlit("http://0.0.0.0:");
    law_decimal_digits_have_the_value(engine_port as nat);
    assert(config.engine_url@.take(15) =~= "http://0.0.0.0:"@);
    assert(config.engine_url@.skip(15) =~= decimal(engine_port as nat));
    assert(config.engine_url@[15] == decimal(engine_port as nat)[0]);
}

/// A node joins the network of its chain and of its committee: it listens on every interface at its
/// port, knows and authorizes exactly the listed validators, and registers its four channels, each
/// with its number, its rate, the common backlog and its compression.
pub proof fn law_nodes_join_their_network(
    plan: NetworkPlan,
    port: u16,
    address: SocketAddr,
    committee: GenesisCommittee,
    settings: NetworkSettings,
    config: EngineConfig,
    i: int,
)
    requires
        plan.joins(port, address, committee, settings, config),
    ensures
        ({
            let name = settings.namespace@;
            let start = varint(name.len()).len() as int;
            &&& plan.namespace@.len() == start + name.len() + 4
            &&& plan.namespace@.take(start) == varint(name.len())
            &&& plan.namespace@.subrange(start, start + name.len()) == name
            &&& plan.namespace@[start + name.len()] == 95
            &&& plan.namespace@[start + name.len() + 1] == 80
            &&& plan.namespace@[start + name.len() + 2] == 50
            &&& plan.namespace@[start + name.len() + 3] == 80
        }),
        plan.listen.ip == IpAddr::V4([0, 0, 0, 0]),
        plan.listen.port == port,
        plan.dialable == address,
        plan.bootstrappers@ == committee.validators@,
        plan.peer_set == 0,
        plan.peers@.len() == committee.validators@.len(),
        0 <= i < plan.peers@.len() ==> plan.peers@[i] == committee.validators@[i].0,
        plan.max_message_size == settings.max_message_size,
        plan.mailbox_size == config.mailbox_size,
        plan.voter.channel == settings.voter_channel,
        plan.resolver.channel == 2,
        plan.broadcaster.channel == 3,
        plan.backfiller.channel == 4,
        plan.voter.rate.burst_size == 128,
        plan.voter.rate.replenish_interval_ns * 128 == 1_000_000_000,
        plan.resolver.rate == plan.voter.rate,
        plan.broadcaster.rate.burst_size == 8,
        plan.broadcaster.rate.replenish_interval_ns * 8 == 1_000_000_000,
        plan.backfiller.rate == config.backfill_quota,
        plan.voter.backlog == 16384,
        plan.resolver.backlog == 16384,
        plan.broadcaster.backlog == 16384,
        plan.backfiller.backlog == 16384,
        plan.voter.compression is None,
        plan.resolver.compression is None,
        plan.broadcaster.compression == Some(3u8),
        plan.backfiller.compression == Some(3u8),
{
    reveal_strlit("_P2P");
    let name = settings.namespace@;
    let length = varint(name.len());
    let start = length.len() as int;
    assert(plan.namespace@.take(start) =~= length);
    assert(plan.namespace@.subrange(start, start + name.len()) =~= name);
}

/// A node starts as its flags say, at the address that the committee lists for its key.
pub proof fn law_nodes_start_as_flagged(
    plan: NodePlan,
    flags: Flags,
    committee: GenesisCommittee,
    settings: NetworkSettings,
)
    requires
        plan.starts(flags, committee, settings),
    ensures
        plan.runtime.tcp_nodelay == Some(true),
        plan.runtime.worker_threads == flags.worker_threads,
        plan.runtime.storage_directory@ == flags.store_path@,
        !plan.runtime.catch_panics,
        level_of(flags.log_level@) == Some(plan.telemetry.level),
        !plan.telemetry.json,
        plan.telemetry.metrics.ip == IpAddr::V4([0, 0, 0, 0]),
        plan.telemetry.metrics.port == 6969,
        exists|i: int|
            0 <= i < committee.validators@.len() && #[trigger] committee.validators@[i] == (
                plan.config.signer.public_key,
                plan.network.dialable,
            ),
        plan.network.joins(flags.port, plan.network.dialable, committee, settings, plan.config),
{
    law_addresses_are_listed(committee, plan.config.signer.public_key);
}

} // verus!
