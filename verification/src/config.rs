//! The configuration values that chain synchronization consumes.

use vstd::prelude::*;
use vstd::string::*;

verus! {

/// The default interval between two syncs of the on-chain wallet, in seconds.
pub const DEFAULT_BDK_WALLET_SYNC_INTERVAL_SECS: u64 = 80;

/// The default interval between two syncs of the Lightning wallet, in seconds.
pub const DEFAULT_LDK_WALLET_SYNC_INTERVAL_SECS: u64 = 30;

/// The default interval between two updates of the fee-rate cache, in seconds.
pub const DEFAULT_FEE_RATE_CACHE_UPDATE_INTERVAL_SECS: u64 = 600;

/// The shortest interval that any periodic sync may run at, in seconds.
///
/// Configured values below it are raised to it, so that no timer can make the
/// node poll its provider in a hot loop.
pub const WALLET_SYNC_INTERVAL_MINIMUM_SECS: u64 = 10;

/// The number of consecutive unused addresses after which a full scan stops.
pub const BDK_CLIENT_STOP_GAP: usize = 20;

/// The number of chain queries that a scan may have in flight at once.
pub const BDK_CLIENT_CONCURRENCY: usize = 4;

/// The time limit of one sync of the on-chain wallet, in seconds.
pub const BDK_WALLET_SYNC_TIMEOUT_SECS: u64 = 90;

/// The time limit of one sync of the Lightning wallet, in seconds.
pub const LDK_WALLET_SYNC_TIMEOUT_SECS: u64 = 30;

/// The time limit of one fetch of fee-rate estimates, in seconds.
pub const FEE_RATE_CACHE_UPDATE_TIMEOUT_SECS: u64 = 5;

/// The time limit of one transaction broadcast, in seconds.
pub const TX_BROADCAST_TIMEOUT_SECS: u64 = 5;

/// The number of blocks after which resolved channel monitors are archived
/// again.
pub const RESOLVED_CHANNEL_MONITOR_ARCHIVAL_INTERVAL: u32 = 6;

/// The time limit of a single request of the chain data client, in seconds.
pub const DEFAULT_ESPLORA_CLIENT_TIMEOUT_SECS: u64 = 10;

/// The Bitcoin network that the node operates on.
#[derive(Clone, Copy, Debug, PartialEq, Eq, Structural)]
pub enum Network {
    /// The production network, on which coins carry real value.
    Bitcoin,
    /// The public test network.
    Testnet,
    /// The signet test network.
    Signet,
    /// A local regression-test network.
    Regtest,
}

impl Network {
    /// Whether coins on this network carry real value.
    pub open spec fn spec_is_mainnet(self) -> bool {
        self == Network::Bitcoin
    }

    /// Whether coins on this network carry real value.
    #[verifier::when_used_as_spec(spec_is_mainnet)]
    pub fn is_mainnet(self) -> (r: bool)
        ensures
            r == self.spec_is_mainnet(),
    {
        match self {
            Network::Bitcoin => true,
            _ => false,
        }
    }
}

/// The name under which a node announces itself: UTF-8, padded with zero
/// bytes to 32 bytes.
#[derive(Clone, Copy, Debug, PartialEq, Eq)]
pub struct NodeAlias(pub [u8; 32]);

/// The public key that identifies a node, in its compressed form.
#[derive(Clone, Copy, Debug, PartialEq, Eq)]
pub struct PublicKey(pub [u8; 33]);

/// The level from which on messages are logged.
#[derive(Clone, Copy, Debug, PartialEq, Eq, Structural)]
pub enum LogLevel {
    /// Everything, gossip included.
    Gossip,
    /// Everything but gossip.
    Trace,
    /// Messages for debugging and above.
    Debug,
    /// Informational messages and above.
    Info,
    /// Warnings and errors.
    Warn,
    /// Errors only.
    Error,
}

/// The options of a node.
pub struct Config {
    /// The directory in which the node keeps its data.
    pub storage_dir_path: String,
    /// The directory in which the node keeps its logs, where they are to live
    /// apart from the data.
    pub log_dir_path: Option<String>,
    /// The network that the node operates on.
    pub network: Network,
    /// The addresses on which the node listens for incoming connections.
    pub listening_addresses: Option<Vec<String>>,
    /// The alias under which the node announces itself.
    pub node_alias: Option<NodeAlias>,
    /// The peers from which channels are accepted without confirmations.
    pub trusted_peers_0conf: Vec<PublicKey>,
    /// The level from which on messages are logged.
    pub log_level: LogLevel,
}

/// The storage directory of a node that was not given one.
pub const DEFAULT_STORAGE_DIR_PATH: &'static str = "/tmp/ldk_node/";

impl Config {
    /// Whether these are the options of a node that was given none: it keeps
    /// its data below the default storage directory and its logs with them,
    /// operates on the production network, listens nowhere, has no alias,
    /// trusts no peer for channels without confirmations and logs from the
    /// debug level on.
    pub open spec fn spec_is_default(self) -> bool {
        &&& self.storage_dir_path@ == DEFAULT_STORAGE_DIR_PATH@
        &&& self.log_dir_path is None
        &&& self.network == Network::Bitcoin
        &&& self.listening_addresses is None
        &&& self.node_alias is None
        &&& self.trusted_peers_0conf@ == Seq::<PublicKey>::empty()
        &&& self.log_level == LogLevel::Debug
    }

    /// Returns the options of a node that was given none: it keeps its data
    /// below the default storage directory, operates on the production
    /// network, listens nowhere, has no alias and logs from the debug level
    /// on.
    pub fn new() -> (config: Config)
        ensures
            config.spec_is_default(),
    {
        Config {
            storage_dir_path: String::from_str(DEFAULT_STORAGE_DIR_PATH),
            log_dir_path: None,
            network: Network::Bitcoin,
            listening_addresses: None,
            node_alias: None,
            trusted_peers_0conf: Vec::new(),
            log_level: LogLevel::Debug,
        }
    }
}

/// The intervals at which the background syncs run, as the user configured
/// them.
#[derive(Clone, Copy, Debug, PartialEq, Eq, Structural)]
pub struct EsploraSyncConfig {
    /// Seconds between two syncs of the on-chain wallet.
    pub onchain_wallet_sync_interval_secs: u64,
    /// Seconds between two syncs of the Lightning wallet.
    pub lightning_wallet_sync_interval_secs: u64,
    /// Seconds between two updates of the fee-rate cache.
    pub fee_rate_cache_update_interval_secs: u64,
}

impl Default for EsploraSyncConfig {
    fn default() -> (r: Self)
        ensures
            r.onchain_wallet_sync_interval_secs == DEFAULT_BDK_WALLET_SYNC_INTERVAL_SECS,
            r.lightning_wallet_sync_interval_secs == DEFAULT_LDK_WALLET_SYNC_INTERVAL_SECS,
            r.fee_rate_cache_update_interval_secs == DEFAULT_FEE_RATE_CACHE_UPDATE_INTERVAL_SECS,
    {
        EsploraSyncConfig {
            onchain_wallet_sync_interval_secs: DEFAULT_BDK_WALLET_SYNC_INTERVAL_SECS,
            lightning_wallet_sync_interval_secs: DEFAULT_LDK_WALLET_SYNC_INTERVAL_SECS,
            fee_rate_cache_update_interval_secs: DEFAULT_FEE_RATE_CACHE_UPDATE_INTERVAL_SECS,
        }
    }
}

/// The interval that a timer runs at when `configured_secs` was asked for: the
/// configured value, but never less than the enforced minimum.
pub open spec fn spec_effective_interval_secs(configured_secs: u64) -> u64 {
    if configured_secs < WALLET_SYNC_INTERVAL_MINIMUM_SECS {
        WALLET_SYNC_INTERVAL_MINIMUM_SECS
    } else {
        configured_secs
    }
}

/// Returns the interval that a timer runs at when `configured_secs` was asked
/// for: the configured value, but never less than the enforced minimum.
#[verifier::when_used_as_spec(spec_effective_interval_secs)]
pub fn effective_interval_secs(configured_secs: u64) -> (secs: u64)
    ensures
        secs == spec_effective_interval_secs(configured_secs),
        secs >= WALLET_SYNC_INTERVAL_MINIMUM_SECS,
        secs >= configured_secs,
{
    if configured_secs < WALLET_SYNC_INTERVAL_MINIMUM_SECS {
        WALLET_SYNC_INTERVAL_MINIMUM_SECS
    } else {
        configured_secs
    }
}

} // verus!
