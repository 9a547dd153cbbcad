//! Validation of the options that a node is built from.

use crate::config::{Config, LogLevel, Network, NodeAlias, PublicKey};
use vstd::array::*;
use vstd::prelude::*;
use vstd::string::*;
use vstd::utf8::encode_utf8;

verus! {

/// An error encountered while building a node.
#[derive(Clone, Copy, Debug, PartialEq, Eq, Structural)]
pub enum BuildError {
    /// The given seed bytes are invalid, e.g., have invalid length.
    InvalidSeedBytes,
    /// The given seed file is invalid, e.g., has invalid length, or could not
    /// be read.
    InvalidSeedFile,
    /// The current system time is invalid, clocks might have gone backwards.
    InvalidSystemTime,
    /// A channel monitor that was read is invalid.
    InvalidChannelMonitor,
    /// The given listening addresses are invalid, e.g. too many were passed.
    InvalidListeningAddresses,
    /// The provided alias is invalid.
    InvalidNodeAlias,
    /// Reading from the store failed.
    ReadFailed,
    /// Writing to the store failed.
    WriteFailed,
    /// The given storage path could not be accessed.
    StoragePathAccessFailed,
    /// The store could not be set up.
    KVStoreSetupFailed,
    /// The on-chain wallet could not be set up.
    WalletSetupFailed,
    /// The logger could not be set up.
    LoggerSetupFailed,
}

impl BuildError {
    /// The message that describes the error to a user.
    pub open spec fn message(self) -> Seq<char> {
        match self {
            BuildError::InvalidSeedBytes => "Given seed bytes are invalid."@,
            BuildError::InvalidSeedFile => "Given seed file is invalid or could not be read."@,
            BuildError::InvalidSystemTime =>
                "System time is invalid. Clocks might have gone back in time."@,
            BuildError::InvalidChannelMonitor => "Failed to watch a deserialized ChannelMonitor"@,
            BuildError::InvalidListeningAddresses => "Given listening addresses are invalid."@,
            BuildError::ReadFailed => "Failed to read from store."@,
            BuildError::WriteFailed => "Failed to write to store."@,
            BuildError::StoragePathAccessFailed => "Failed to access the given storage path."@,
            BuildError::KVStoreSetupFailed => "Failed to setup KVStore."@,
            BuildError::WalletSetupFailed => "Failed to setup onchain wallet."@,
            BuildError::LoggerSetupFailed => "Failed to setup the logger."@,
            BuildError::InvalidNodeAlias => "Given node alias is invalid."@,
        }
    }

    /// Returns the message that describes the error to a user.
    pub fn to_string(&self) -> (text: String)
        ensures
            text@ == self.message(),
    {
        match self {
            BuildError::InvalidSeedBytes => String::from_str("Given seed bytes are invalid."),
            BuildError::InvalidSeedFile => String::from_str(
                "Given seed file is invalid or could not be read.",
            ),
            BuildError::InvalidSystemTime => String::from_str(
                "System time is invalid. Clocks might have gone back in time.",
            ),
            BuildError::InvalidChannelMonitor => String::from_str(
                "Failed to watch a deserialized ChannelMonitor",
            ),
            BuildError::InvalidListeningAddresses => String::from_str(
                "Given listening addresses are invalid.",
            ),
            BuildError::ReadFailed => String::from_str("Failed to read from store."),
            BuildError::WriteFailed => String::from_str("Failed to write to store."),
            BuildError::StoragePathAccessFailed => String::from_str(
                "Failed to access the given storage path.",
            ),
            BuildError::KVStoreSetupFailed => String::from_str("Failed to setup KVStore."),
            BuildError::WalletSetupFailed => String::from_str("Failed to setup onchain wallet."),
            BuildError::LoggerSetupFailed => String::from_str("Failed to setup the logger."),
            BuildError::InvalidNodeAlias => String::from_str("Given node alias is invalid."),
        }
    }
}

/// The number of bytes of a node alias.
pub const NODE_ALIAS_LEN: usize = 32;

/// The number of bytes of the seed that the wallet keys are derived from.
pub const WALLET_KEYS_SEED_LEN: usize = 64;

/// The largest number of listening addresses that a node announces.
pub const MAX_LISTENING_ADDRESSES: usize = 100;

/// Where and from which level on the node logs.
pub struct LoggerSetup {
    /// The directory that holds the log files.
    pub log_dir: String,
    /// The level from which on messages are logged.
    pub log_level: LogLevel,
}

/// Whether `c` is white space, that is, has the Unicode property
/// `White_Space`.
pub open spec fn spec_is_whitespace(c: char) -> bool {
    let code = c as u32;
    ||| 0x09 <= code <= 0x0D
    ||| code == 0x20
    ||| code == 0x85
    ||| code == 0xA0
    ||| code == 0x1680
    ||| 0x2000 <= code <= 0x200A
    ||| code == 0x2028
    ||| code == 0x2029
    ||| code == 0x202F
    ||| code == 0x205F
    ||| code == 0x3000
}

/// `s` without the white space that it starts with.
pub open spec fn spec_trim_start(s: Seq<char>) -> Seq<char>
    decreases s.len(),
{
    if s.len() > 0 && spec_is_whitespace(s.first()) {
        spec_trim_start(s.drop_first())
    } else {
        s
    }
}

/// `s` without the white space that it ends with.
pub open spec fn spec_trim_end(s: Seq<char>) -> Seq<char>
    decreases s.len(),
{
    if s.len() > 0 && spec_is_whitespace(s.last()) {
        spec_trim_end(s.drop_last())
    } else {
        s
    }
}

/// `s` without the white space around it.
pub open spec fn spec_trim(s: Seq<char>) -> Seq<char> {
    spec_trim_end(spec_trim_start(s))
}

/// The bytes of an alias whose text is encoded as `text`: the text, then zero
/// bytes up to the length of an alias.
pub open spec fn spec_alias_bytes(text: Seq<u8>) -> Seq<u8> {
    Seq::new(
        NODE_ALIAS_LEN as nat,
        |i: int|
            if i < text.len() {
                text[i]
            } else {
                0u8
            },
    )
}

/// The directory that the node logs to: the configured one, or `logs` below
/// the storage directory where none is configured.
pub open spec fn spec_log_dir(config: Config) -> Seq<char> {
    match config.log_dir_path {
        Some(log_dir) => log_dir@,
        None => config.storage_dir_path@ + "/logs"@,
    }
}

/// Removes the white space around `s` with `str::trim`.
///
/// The result is `s` without its leading and trailing characters of the
/// Unicode property `White_Space`, as the documentation of `trim` defines it.
#[verifier::external_body]
fn trim(s: &str) -> (trimmed: &str)
    ensures
        trimmed@ == spec_trim(s@),
{
    s.trim()
}

/// Sanitizes the alias that a user provided, so that it is a valid alias of
/// the protocol.
///
/// White space around the text is dropped. What is left must fit into 32
/// bytes of UTF-8; otherwise the alias is refused as
/// [`BuildError::InvalidNodeAlias`]. The alias holds the text followed by zero
/// bytes.
pub fn sanitize_alias(alias_str: &str) -> (sanitized: Result<NodeAlias, BuildError>)
    ensures
        match sanitized {
            Ok(alias) => encode_utf8(spec_trim(alias_str@)).len() <= NODE_ALIAS_LEN && alias.0@
                == spec_alias_bytes(encode_utf8(spec_trim(alias_str@))),
            Err(e) => e == BuildError::InvalidNodeAlias && encode_utf8(spec_trim(alias_str@)).len()
                > NODE_ALIAS_LEN,
        },
{
    let alias = trim(alias_str);
    let text = alias.as_bytes();
    if text.len() > NODE_ALIAS_LEN {
        return Err(BuildError::InvalidNodeAlias);
    }
    let mut bytes: [u8; 32] = array_fill_for_copy_types(0u8);
    let mut i: usize = 0;
    while i < text.len()
        invariant
            i <= text.len() <= NODE_ALIAS_LEN,
            forall|j: int| 0 <= j < i ==> bytes@[j] == text@[j],
            forall|j: int| i <= j < NODE_ALIAS_LEN ==> bytes@[j] == 0u8,
        decreases text.len() - i,
    {
        let ghost before = bytes@;
        bytes[i] = text[i];
        assert(bytes@ =~= before.update(i as int, text@[i as int]));
        i += 1;
    }
    assert(bytes@ =~= spec_alias_bytes(text@));
    Ok(NodeAlias(bytes))
}

/// Decides where and from which level on the node logs.
///
/// The logs go to the configured log directory, or to `logs` below the
/// storage directory where none is configured.
pub fn setup_logger(config: &Config) -> (setup: LoggerSetup)
    ensures
        setup.log_dir@ == spec_log_dir(*config),
        setup.log_level == config.log_level,
{
    let log_dir = match &config.log_dir_path {
        Some(log_dir) => log_dir.clone(),
        None => config.storage_dir_path.clone().concat("/logs"),
    };
    LoggerSetup { log_dir, log_level: config.log_level }
}

/// Takes the seed of the wallet keys from the bytes that a user provided.
///
/// The seed must be exactly 64 bytes long; any other length is refused as
/// [`BuildError::InvalidSeedBytes`].
pub fn seed_bytes_from_vec(seed_bytes: &Vec<u8>) -> (seed: Result<[u8; 64], BuildError>)
    ensures
        match seed {
            Ok(bytes) => seed_bytes@.len() == WALLET_KEYS_SEED_LEN && bytes@ == seed_bytes@,
            Err(e) => e == BuildError::InvalidSeedBytes && seed_bytes@.len()
                != WALLET_KEYS_SEED_LEN,
        },
{
    if seed_bytes.len() != WALLET_KEYS_SEED_LEN {
        return Err(BuildError::InvalidSeedBytes);
    }
    let mut bytes: [u8; 64] = array_fill_for_copy_types(0u8);
    let mut i: usize = 0;
    while i < WALLET_KEYS_SEED_LEN
        invariant
            i <= WALLET_KEYS_SEED_LEN,
            seed_bytes@.len() == WALLET_KEYS_SEED_LEN,
            forall|j: int| 0 <= j < i ==> bytes@[j] == seed_bytes@[j],
        decreases WALLET_KEYS_SEED_LEN - i,
    {
        let ghost before = bytes@;
        bytes[i] = seed_bytes[i];
        assert(bytes@ =~= before.update(i as int, seed_bytes@[i as int]));
        i += 1;
    }
    assert(bytes@ =~= seed_bytes@);
    Ok(bytes)
}

/// Checks the number of addresses that a node is asked to listen on: more than
/// 100 are refused as [`BuildError::InvalidListeningAddresses`].
pub fn check_listening_addresses(count: usize) -> (checked: Result<(), BuildError>)
    ensures
        count <= MAX_LISTENING_ADDRESSES ==> checked == Ok::<(), BuildError>(()),
        count > MAX_LISTENING_ADDRESSES ==> checked == Err::<(), BuildError>(
            BuildError::InvalidListeningAddresses,
        ),
{
    if count > MAX_LISTENING_ADDRESSES {
        Err(BuildError::InvalidListeningAddresses)
    } else {
        Ok(())
    }
}

/// Where the seed of the wallet keys comes from, as the user chose it.
pub enum EntropySourceConfig {
    /// A seed file on disk, which is generated where it does not exist.
    SeedFile(String),
    /// The given seed bytes.
    SeedBytes([u8; 64]),
    /// A mnemonic of words, with a passphrase where one was given.
    Bip39Mnemonic { mnemonic: String, passphrase: Option<String> },
}

/// Where the chain data comes from, as the user chose it.
pub enum ChainDataSourceConfig {
    /// The Esplora server at the given URL.
    Esplora(String),
}

/// Where the gossip data comes from, as the user chose it.
pub enum GossipSourceConfig {
    /// The peer-to-peer network.
    P2PNetwork,
    /// The rapid gossip sync server at the given URL.
    RapidGossipSync(String),
}

/// A service that provides inbound liquidity.
pub struct Lsps2Service {
    /// The address of the service.
    pub address: String,
    /// The node id of the service.
    pub node_id: PublicKey,
    /// The token by which the service knows the user.
    pub token: Option<String>,
}

/// Where inbound liquidity comes from, as the user chose it.
pub struct LiquiditySourceConfig {
    /// The service that opens channels just in time.
    pub lsps2_service: Option<Lsps2Service>,
}

/// What the seed of the wallet keys is to be made from.
pub enum SeedSource {
    /// These bytes are the seed.
    Bytes([u8; 64]),
    /// The seed is read from the file at this path, or generated and stored
    /// there where the file does not exist.
    File(String),
    /// The seed is derived from the mnemonic and the passphrase.
    Mnemonic { mnemonic: String, passphrase: String },
}

/// The options from which a node is built.
///
/// Where nothing else is chosen, the seed of the wallet keys is read from the
/// file `keys_seed` below the storage directory, chain data comes from the
/// default Esplora server and gossip data from the peer-to-peer network.
pub struct NodeBuilder {
    /// The options of the node.
    pub config: Config,
    /// The chosen source of the wallet seed.
    pub entropy_source_config: Option<EntropySourceConfig>,
    /// The chosen source of chain data.
    pub chain_data_source_config: Option<ChainDataSourceConfig>,
    /// The chosen source of gossip data.
    pub gossip_source_config: Option<GossipSourceConfig>,
    /// The chosen source of inbound liquidity.
    pub liquidity_source_config: Option<LiquiditySourceConfig>,
}

/// The Esplora server that a node uses where none is chosen.
pub const DEFAULT_ESPLORA_SERVER_URL: &'static str = "https://blockstream.info/api";

/// Returns the URL of the Esplora server that the node takes its chain data
/// from: the chosen one, or the default server where none was chosen.
pub fn esplora_server_url(chain_data_source_config: Option<&ChainDataSourceConfig>) -> (url: String)
    ensures
        url@ == match chain_data_source_config {
            Some(ChainDataSourceConfig::Esplora(server_url)) => server_url@,
            None => DEFAULT_ESPLORA_SERVER_URL@,
        },
{
    match chain_data_source_config {
        Some(ChainDataSourceConfig::Esplora(server_url)) => server_url.clone(),
        None => String::from_str(DEFAULT_ESPLORA_SERVER_URL),
    }
}

/// The source of the seed under the given options.
pub open spec fn spec_seed_source(
    config: Config,
    entropy_source_config: Option<EntropySourceConfig>,
) -> SeedSourceView {
    match entropy_source_config {
        Some(EntropySourceConfig::SeedBytes(bytes)) => SeedSourceView::Bytes(bytes@),
        Some(EntropySourceConfig::SeedFile(seed_path)) => SeedSourceView::File(seed_path@),
        Some(EntropySourceConfig::Bip39Mnemonic { mnemonic, passphrase }) => SeedSourceView::Mnemonic {
            mnemonic: mnemonic@,
            passphrase: match passphrase {
                Some(passphrase) => passphrase@,
                None => Seq::empty(),
            },
        },
        None => SeedSourceView::File(config.storage_dir_path@ + "/keys_seed"@),
    }
}

/// A [`SeedSource`] by what it holds.
pub enum SeedSourceView {
    /// These bytes are the seed.
    Bytes(Seq<u8>),
    /// The seed file at this path.
    File(Seq<char>),
    /// The mnemonic and the passphrase.
    Mnemonic { mnemonic: Seq<char>, passphrase: Seq<char> },
}

impl View for SeedSource {
    type V = SeedSourceView;

    open spec fn view(&self) -> SeedSourceView {
        match self {
            SeedSource::Bytes(bytes) => SeedSourceView::Bytes(bytes@),
            SeedSource::File(path) => SeedSourceView::File(path@),
            SeedSource::Mnemonic { mnemonic, passphrase } => SeedSourceView::Mnemonic {
                mnemonic: mnemonic@,
                passphrase: passphrase@,
            },
        }
    }
}

/// Decides what the seed of the wallet keys is made from.
///
/// Given bytes are the seed. A seed file is read from its path. A mnemonic is
/// used with its passphrase, or with the empty passphrase where none was
/// given. Where nothing was chosen the seed file is `keys_seed` below the
/// storage directory.
pub fn seed_bytes_from_config(
    config: &Config,
    entropy_source_config: Option<&EntropySourceConfig>,
) -> (source: SeedSource)
    ensures
        source@ == spec_seed_source(
            *config,
            match entropy_source_config {
                Some(chosen) => Some(*chosen),
                None => None,
            },
        ),
{
    match entropy_source_config {
        Some(EntropySourceConfig::SeedBytes(bytes)) => SeedSource::Bytes(*bytes),
        Some(EntropySourceConfig::SeedFile(seed_path)) => SeedSource::File(seed_path.clone()),
        Some(EntropySourceConfig::Bip39Mnemonic { mnemonic, passphrase }) => match passphrase {
            Some(passphrase) => SeedSource::Mnemonic {
                mnemonic: mnemonic.clone(),
                passphrase: passphrase.clone(),
            },
            None => SeedSource::Mnemonic { mnemonic: mnemonic.clone(), passphrase: String::new() },
        },
        None => SeedSource::File(config.storage_dir_path.clone().concat("/keys_seed")),
    }
}

impl NodeBuilder {
    /// Returns a builder with the default options: the options of a node that
    /// was given none, and no source chosen for the wallet seed, the chain
    /// data, the gossip data or inbound liquidity.
    pub fn new() -> (builder: NodeBuilder)
        ensures
            builder.config.spec_is_default(),
            builder.entropy_source_config is None,
            builder.chain_data_source_config is None,
            builder.gossip_source_config is None,
            builder.liquidity_source_config is None,
    {
        NodeBuilder::from_config(Config::new())
    }

    /// Returns a builder with the given options and nothing else chosen.
    pub fn from_config(config: Config) -> (builder: NodeBuilder)
        ensures
            builder.config == config,
            builder.entropy_source_config is None,
            builder.chain_data_source_config is None,
            builder.gossip_source_config is None,
            builder.liquidity_source_config is None,
    {
        NodeBuilder {
            config,
            entropy_source_config: None,
            chain_data_source_config: None,
            gossip_source_config: None,
            liquidity_source_config: None,
        }
    }

    /// Makes the node read the seed of its wallet keys from a file, which is
    /// generated where it does not exist.
    pub fn set_entropy_seed_path(&mut self, seed_path: String) -> (builder: &mut NodeBuilder)
        ensures
            builder.entropy_source_config == Some(EntropySourceConfig::SeedFile(seed_path)),
            builder.config == old(self).config,
            builder.chain_data_source_config == old(self).chain_data_source_config,
            builder.gossip_source_config == old(self).gossip_source_config,
            builder.liquidity_source_config == old(self).liquidity_source_config,
            *final(self) == *final(builder),
    {
        self.entropy_source_config = Some(EntropySourceConfig::SeedFile(seed_path));
        self
    }

    /// Makes the node use the given 64 bytes as the seed of its wallet keys.
    /// Bytes of any other length are refused as
    /// [`BuildError::InvalidSeedBytes`] and change nothing.
    pub fn set_entropy_seed_bytes(&mut self, seed_bytes: Vec<u8>) -> (set: Result<
        &mut NodeBuilder,
        BuildError,
    >)
        ensures
            match set {
                Ok(builder) => {
                    &&& seed_bytes@.len() == WALLET_KEYS_SEED_LEN
                    &&& builder.entropy_source_config matches Some(
                        EntropySourceConfig::SeedBytes(bytes),
                    ) && bytes@ == seed_bytes@
                    &&& builder.config == old(self).config
                    &&& builder.chain_data_source_config == old(self).chain_data_source_config
                    &&& builder.gossip_source_config == old(self).gossip_source_config
                    &&& builder.liquidity_source_config == old(self).liquidity_source_config
                    &&& *final(self) == *final(builder)
                },
                Err(e) => {
                    &&& e == BuildError::InvalidSeedBytes
                    &&& seed_bytes@.len() != WALLET_KEYS_SEED_LEN
                    &&& *final(self) == *old(self)
                },
            },
    {
        match seed_bytes_from_vec(&seed_bytes) {
            Ok(bytes) => {
                self.entropy_source_config = Some(EntropySourceConfig::SeedBytes(bytes));
                Ok(self)
            },
            Err(e) => Err(e),
        }
    }

    /// Makes the node derive the seed of its wallet keys from a mnemonic.
    pub fn set_entropy_bip39_mnemonic(&mut self, mnemonic: String, passphrase: Option<String>) -> (builder: &mut NodeBuilder)
        ensures
            builder.entropy_source_config == Some(
                EntropySourceConfig::Bip39Mnemonic { mnemonic, passphrase },
            ),
            builder.config == old(self).config,
            builder.chain_data_source_config == old(self).chain_data_source_config,
            builder.gossip_source_config == old(self).gossip_source_config,
            builder.liquidity_source_config == old(self).liquidity_source_config,
            *final(self) == *final(builder),
    {
        self.entropy_source_config = Some(
            EntropySourceConfig::Bip39Mnemonic { mnemonic, passphrase },
        );
        self
    }

    /// Makes the node take its chain data from the given Esplora server.
    pub fn set_esplora_server(&mut self, esplora_server_url: String) -> (builder: &mut NodeBuilder)
        ensures
            builder.chain_data_source_config == Some(
                ChainDataSourceConfig::Esplora(esplora_server_url),
            ),
            builder.config == old(self).config,
            builder.entropy_source_config == old(self).entropy_source_config,
            builder.gossip_source_config == old(self).gossip_source_config,
            builder.liquidity_source_config == old(self).liquidity_source_config,
            *final(self) == *final(builder),
    {
        self.chain_data_source_config = Some(ChainDataSourceConfig::Esplora(esplora_server_url));
        self
    }

    /// Makes the node take its gossip data from the peer-to-peer network.
    pub fn set_gossip_source_p2p(&mut self) -> (builder: &mut NodeBuilder)
        ensures
            builder.gossip_source_config == Some(GossipSourceConfig::P2PNetwork),
            builder.config == old(self).config,
            builder.entropy_source_config == old(self).entropy_source_config,
            builder.chain_data_source_config == old(self).chain_data_source_config,
            builder.liquidity_source_config == old(self).liquidity_source_config,
            *final(self) == *final(builder),
    {
        self.gossip_source_config = Some(GossipSourceConfig::P2PNetwork);
        self
    }

    /// Makes the node take its gossip data from the given rapid gossip sync
    /// server.
    pub fn set_gossip_source_rgs(&mut self, rgs_server_url: String) -> (builder: &mut NodeBuilder)
        ensures
            builder.gossip_source_config == Some(
                GossipSourceConfig::RapidGossipSync(rgs_server_url),
            ),
            builder.config == old(self).config,
            builder.entropy_source_config == old(self).entropy_source_config,
            builder.chain_data_source_config == old(self).chain_data_source_config,
            builder.liquidity_source_config == old(self).liquidity_source_config,
            *final(self) == *final(builder),
    {
        self.gossip_source_config = Some(GossipSourceConfig::RapidGossipSync(rgs_server_url));
        self
    }

    /// Makes the node take its inbound liquidity from the given service, and
    /// trust the service for channels without confirmations.
    pub fn set_liquidity_source_lsps2(
        &mut self,
        address: String,
        node_id: PublicKey,
        token: Option<String>,
    ) -> (builder: &mut NodeBuilder)
        ensures
            builder.config.trusted_peers_0conf@ == old(self).config.trusted_peers_0conf@.push(
                node_id,
            ),
            (builder.liquidity_source_config matches Some(liquidity)
                && liquidity.lsps2_service == Some(Lsps2Service { address, node_id, token })),
            builder.config.storage_dir_path == old(self).config.storage_dir_path,
            builder.config.log_dir_path == old(self).config.log_dir_path,
            builder.config.network == old(self).config.network,
            builder.config.listening_addresses == old(self).config.listening_addresses,
            builder.config.node_alias == old(self).config.node_alias,
            builder.config.log_level == old(self).config.log_level,
            builder.entropy_source_config == old(self).entropy_source_config,
            builder.chain_data_source_config == old(self).chain_data_source_config,
            builder.gossip_source_config == old(self).gossip_source_config,
            *final(self) == *final(builder),
    {
        self.config.trusted_peers_0conf.push(node_id);
        self.liquidity_source_config = Some(
            LiquiditySourceConfig { lsps2_service: Some(Lsps2Service { address, node_id, token }) },
        );
        self
    }

    /// Sets the directory in which the node keeps its data.
    pub fn set_storage_dir_path(&mut self, storage_dir_path: String) -> (builder: &mut NodeBuilder)
        ensures
            *builder == (NodeBuilder {
                config: Config { storage_dir_path, ..old(self).config },
                ..*old(self)
            }),
            *final(self) == *final(builder),
    {
        self.config.storage_dir_path = storage_dir_path;
        self
    }

    /// Sets the directory in which the node keeps its logs, apart from its
    /// data.
    pub fn set_log_dir_path(&mut self, log_dir_path: String) -> (builder: &mut NodeBuilder)
        ensures
            *builder == (NodeBuilder {
                config: Config { log_dir_path: Some(log_dir_path), ..old(self).config },
                ..*old(self)
            }),
            *final(self) == *final(builder),
    {
        self.config.log_dir_path = Some(log_dir_path);
        self
    }

    /// Sets the network that the node operates on.
    pub fn set_network(&mut self, network: Network) -> (builder: &mut NodeBuilder)
        ensures
            *builder == (NodeBuilder {
                config: Config { network, ..old(self).config },
                ..*old(self)
            }),
            *final(self) == *final(builder),
    {
        self.config.network = network;
        self
    }

    /// Sets the addresses on which the node listens for incoming connections.
    /// More than 100 addresses are refused as
    /// [`BuildError::InvalidListeningAddresses`] and change nothing.
    pub fn set_listening_addresses(&mut self, listening_addresses: Vec<String>) -> (set: Result<
        &mut NodeBuilder,
        BuildError,
    >)
        ensures
            match set {
                Ok(builder) => {
                    &&& listening_addresses@.len() <= MAX_LISTENING_ADDRESSES
                    &&& *builder == (NodeBuilder {
                        config: Config {
                            listening_addresses: Some(listening_addresses),
                            ..old(self).config
                        },
                        ..*old(self)
                    })
                    &&& *final(self) == *final(builder)
                },
                Err(e) => {
                    &&& e == BuildError::InvalidListeningAddresses
                    &&& listening_addresses@.len() > MAX_LISTENING_ADDRESSES
                    &&& *final(self) == *old(self)
                },
            },
    {
        match check_listening_addresses(listening_addresses.len()) {
            Ok(_) => {
                self.config.listening_addresses = Some(listening_addresses);
                Ok(self)
            },
            Err(e) => Err(e),
        }
    }

    /// Sets the alias under which the node announces itself.
    ///
    /// White space around the alias is dropped. An alias that then is longer
    /// than 32 bytes of UTF-8 is refused as [`BuildError::InvalidNodeAlias`]
    /// and changes nothing.
    pub fn set_node_alias(&mut self, node_alias: String) -> (set: Result<
        &mut NodeBuilder,
        BuildError,
    >)
        ensures
            match set {
                Ok(builder) => {
                    &&& encode_utf8(spec_trim(node_alias@)).len() <= NODE_ALIAS_LEN
                    &&& builder.config.node_alias matches Some(alias) && alias.0@
                        == spec_alias_bytes(encode_utf8(spec_trim(node_alias@)))
                    &&& builder.config.storage_dir_path == old(self).config.storage_dir_path
                    &&& builder.config.log_dir_path == old(self).config.log_dir_path
                    &&& builder.config.network == old(self).config.network
                    &&& builder.config.listening_addresses == old(self).config.listening_addresses
                    &&& builder.config.trusted_peers_0conf == old(self).config.trusted_peers_0conf
                    &&& builder.config.log_level == old(self).config.log_level
                    &&& builder.entropy_source_config == old(self).entropy_source_config
                    &&& builder.chain_data_source_config == old(self).chain_data_source_config
                    &&& builder.gossip_source_config == old(self).gossip_source_config
                    &&& builder.liquidity_source_config == old(self).liquidity_source_config
                    &&& *final(self) == *final(builder)
                },
                Err(e) => {
                    &&& e == BuildError::InvalidNodeAlias
                    &&& encode_utf8(spec_trim(node_alias@)).len() > NODE_ALIAS_LEN
                    &&& *final(self) == *old(self)
                },
            },
    {
        match sanitize_alias(node_alias.as_str()) {
            Ok(alias) => {
                self.config.node_alias = Some(alias);
                Ok(self)
            },
            Err(e) => Err(e),
        }
    }

    /// Sets the level from which on the node logs messages.
    pub fn set_log_level(&mut self, level: LogLevel) -> (builder: &mut NodeBuilder)
        ensures
            *builder == (NodeBuilder {
                config: Config { log_level: level, ..old(self).config },
                ..*old(self)
            }),
            *final(self) == *final(builder),
    {
        self.config.log_level = level;
        self
    }
}

} // verus!
