//! The configuration of a node and where its files live.
//!
//! The configuration of node `n` is the file `~/.ephemera/n/ephemera.toml`; an
//! application `a` keeps the configuration of its node `n` in
//! `~/.ephemera/a/n/ephemera.toml`.  Reading and writing the files is left to the
//! caller; this module computes the paths and decides what a load, create or update
//! may do.

use vstd::prelude::*;
use vstd::string::{StrSliceExecFns, StringExecFns};

verus! {

/// The whole configuration of a node.
#[derive(Debug)]
pub struct Configuration {
    pub node: NodeConfig,
    pub libp2p: Libp2pConfig,
    pub storage: DbConfig,
    pub websocket: WsConfig,
    pub http: HttpConfig,
    pub block: BlockConfig,
}

/// The node's address and its key.
#[derive(Debug)]
pub struct NodeConfig {
    /// The IP address the node listens on.
    pub ip: String,
    /// The base58 text of the node's Ed25519 secret key.
    pub private_key: String,
}

/// Settings of the Bracha broadcast.
#[derive(Debug, Clone, Copy, PartialEq, Eq)]
pub struct BroadcastConfig {
    /// The number of nodes in the cluster.
    pub cluster_size: usize,
}

/// Settings of the three phase broadcast protocol.
#[derive(Debug, Clone, Copy, PartialEq, Eq)]
pub struct BroadcastProtocolSettings {
    /// The number of nodes in the cluster.
    pub cluster_size: usize,
    /// How many nodes make a quorum.
    pub quorum_threshold_size: usize,
}

/// Settings of the peer to peer network.
#[derive(Debug)]
pub struct Libp2pConfig {
    /// The port of the protocol.
    pub port: u16,
    /// The gossip topic of messages.
    pub ephemera_msg_topic_name: String,
    pub heartbeat_interval_sec: u64,
    /// How often the members of the cluster are asked for.
    pub members_provider_delay_sec: u64,
    /// The known peers.
    pub peers: Vec<PeerSetting>,
}

/// A known peer.
#[derive(Debug)]
pub struct PeerSetting {
    pub name: String,
    pub address: String,
    pub pub_key: String,
}

impl View for PeerSetting {
    type V = (Seq<char>, Seq<char>, Seq<char>);

    /// The name, the address and the public key text.
    open spec fn view(&self) -> (Seq<char>, Seq<char>, Seq<char>) {
        (self.name@, self.address@, self.pub_key@)
    }
}

/// The views of a list of peers.
pub open spec fn peer_settings_view(s: Seq<PeerSetting>) -> Seq<(Seq<char>, Seq<char>, Seq<char>)> {
    s.map_values(|p: PeerSetting| p@)
}

/// Where the databases are.
#[derive(Debug)]
pub struct DbConfig {
    pub rocket_path: String,
    pub sqlite_path: String,
    pub create_if_not_exists: bool,
}

/// The WebSocket API.
#[derive(Debug, Clone, Copy, PartialEq, Eq)]
pub struct WsConfig {
    /// The port to listen on.
    pub port: u16,
}

/// The HTTP API.
#[derive(Debug, Clone, Copy, PartialEq, Eq)]
pub struct HttpConfig {
    /// The port to listen on.
    pub port: u16,
}

/// Block production.
#[derive(Debug, Clone, Copy, PartialEq, Eq)]
pub struct BlockConfig {
    /// Whether this node makes blocks.  By default every node does, but an application
    /// may want only one to.
    pub producer: bool,
    /// Seconds between two block proposals.
    pub creation_interval_sec: u64,
    /// While the last proposed block is not committed, propose its messages again
    /// rather than the messages of the pool.
    pub repeat_last_block: bool,
}

impl BlockConfig {
    pub fn new(producer: bool, creation_interval_sec: u64, repeat_last_block: bool) -> (r: Self)
        ensures
            r == (BlockConfig { producer, creation_interval_sec, repeat_last_block }),
    {
        BlockConfig { producer, creation_interval_sec, repeat_last_block }
    }
}

/// An error of the standard library's I/O.
#[verifier::external_type_specification]
#[verifier::external_body]
pub struct ExIoError(std::io::Error);

/// Why a configuration could not be loaded or written.
#[derive(Debug)]
pub enum ConfigurationError {
    /// The file that should be created is already there.
    ConfigurationFileExists(String),
    /// The file that should be updated is not there.
    ConfigurationFileDoesNotExists(String),
    /// Reading or writing failed.
    IoError(std::io::Error),
    /// Anything else, with a message.
    Other(String),
}

/// The name of the directory of the node configurations, in the home directory.
pub const EPHEMERA_DIR_NAME: &'static str = ".ephemera";

/// The name of a configuration file.
pub const EPHEMERA_CONFIG_FILE: &'static str = "ephemera.toml";

/// The path `part` taken relative to `base`: `part` itself when it is absolute,
/// otherwise `base` and `part` with one `/` between them (none when `base` is empty or
/// already ends with `/`).
pub open spec fn path_join(base: Seq<char>, part: Seq<char>) -> Seq<char> {
    if part.len() > 0 && part[0] == '/' {
        part
    } else if base.len() == 0 || base[base.len() - 1] == '/' {
        base + part
    } else {
        base + seq!['/'] + part
    }
}

/// `home/.ephemera`
pub open spec fn root_dir_path(home: Seq<char>) -> Seq<char> {
    path_join(home, EPHEMERA_DIR_NAME@)
}

/// `home/.ephemera/node`
pub open spec fn node_dir_path(home: Seq<char>, node: Seq<char>) -> Seq<char> {
    path_join(root_dir_path(home), node)
}

/// `home/.ephemera/node/ephemera.toml`
pub open spec fn root_config_path(home: Seq<char>, node: Seq<char>) -> Seq<char> {
    path_join(node_dir_path(home, node), EPHEMERA_CONFIG_FILE@)
}

/// `home/.ephemera/application/node/ephemera.toml`
pub open spec fn application_config_path(
    home: Seq<char>,
    application: Seq<char>,
    node: Seq<char>,
) -> Seq<char> {
    path_join(path_join(node_dir_path(home, application), node), EPHEMERA_CONFIG_FILE@)
}

/// The line that starts every configuration file that the node writes.
pub open spec fn config_file_text(toml: Seq<char>) -> Seq<char> {
    GENERATED_HEADER@ + toml
}

/// The first line of a written configuration file.
pub const GENERATED_HEADER: &'static str =
    "#This file is generated by cli and automatically overwritten every time when cli is run\n";

/// `dirs::home_dir`: the home directory of the user, from the environment; its text
/// (lossy where the path is not UTF-8).  Nothing is claimed of the value.
#[verifier::external_body]
fn home_dir() -> (r: Option<String>) {
    dirs::home_dir().map(|p| p.to_string_lossy().into_owned())
}

/// Joins two paths as `path_join` says.
pub fn join_path(base: &str, part: &str) -> (r: String)
    ensures
        r@ == path_join(base@, part@),
{
    let part_len = part.unicode_len();
    if part_len > 0 && part.get_char(0) == '/' {
        return String::from_str(part);
    }
    let base_len = base.unicode_len();
    let mut out = String::from_str(base);
    if base_len == 0 || base.get_char(base_len - 1) == '/' {
        out.append(part);
    } else {
        out.append("/");
        out.append(part);
        proof {
            reveal_strlit("/");
            assert(out@ =~= base@ + seq!['/'] + part@);
        }
    }
    out
}

impl Configuration {
    /// The directory of the node configurations under the home directory `home`, or
    /// an error when the home directory is unknown.
    pub fn ephemera_root_dir_in(home: Option<String>) -> (r: Result<String, ConfigurationError>)
        ensures
            home is None ==> (r matches Err(ConfigurationError::Other(m)) && m@
                == "Could not find home directory"@),
            home matches Some(h) ==> (r matches Ok(p) && p@ == root_dir_path(h@)),
    {
        match home {
            Some(h) => Ok(join_path(h.as_str(), EPHEMERA_DIR_NAME)),
            None => Err(ConfigurationError::Other(String::from_str("Could not find home directory"))),
        }
    }

    /// The directory of the node configurations in the user's home directory.
    pub fn ephemera_root_dir() -> (r: Result<String, ConfigurationError>)
        ensures
            r matches Ok(p) ==> exists|h: Seq<char>| p@ == root_dir_path(h),
            r matches Err(e) ==> (e matches ConfigurationError::Other(m) && m@
                == "Could not find home directory"@),
    {
        Self::ephemera_root_dir_in(home_dir())
    }

    /// The directory of the configurations of an application's nodes.
    pub fn ephemera_root_dir_application(application: &str) -> (r: Result<
        String,
        ConfigurationError,
    >)
        ensures
            r matches Ok(p) ==> exists|h: Seq<char>| p@ == node_dir_path(h, application@),
            r matches Err(e) ==> (e matches ConfigurationError::Other(m) && m@
                == "Could not find home directory"@),
    {
        Self::ephemera_node_dir(application)
    }

    /// The directory of a node's configuration.
    pub fn ephemera_node_dir(node_name: &str) -> (r: Result<String, ConfigurationError>)
        ensures
            r matches Ok(p) ==> exists|h: Seq<char>| p@ == node_dir_path(h, node_name@),
            r matches Err(e) ==> (e matches ConfigurationError::Other(m) && m@
                == "Could not find home directory"@),
    {
        match Self::ephemera_root_dir() {
            Ok(root) => {
                let p = join_path(root.as_str(), node_name);
                proof {
                    let h = choose|h: Seq<char>| root@ == root_dir_path(h);
                    assert(p@ == node_dir_path(h, node_name@));
                }
                Ok(p)
            },
            Err(e) => Err(e),
        }
    }

    /// The configuration file of a node.
    pub fn ephemera_config_file_root(node_name: &str) -> (r: Result<String, ConfigurationError>)
        ensures
            r matches Ok(p) ==> exists|h: Seq<char>| p@ == root_config_path(h, node_name@),
            r matches Err(e) ==> (e matches ConfigurationError::Other(m) && m@
                == "Could not find home directory"@),
    {
        match Self::ephemera_node_dir(node_name) {
            Ok(dir) => {
                let p = join_path(dir.as_str(), EPHEMERA_CONFIG_FILE);
                proof {
                    let h = choose|h: Seq<char>| dir@ == node_dir_path(h, node_name@);
                    assert(p@ == root_config_path(h, node_name@));
                }
                Ok(p)
            },
            Err(e) => Err(e),
        }
    }

    /// The configuration file of a node of an application.
    pub fn ephemera_config_file_application(application: &str, node_name: &str) -> (r: Result<
        String,
        ConfigurationError,
    >)
        ensures
            r matches Ok(p) ==> exists|h: Seq<char>|
                p@ == application_config_path(h, application@, node_name@),
            r matches Err(e) ==> (e matches ConfigurationError::Other(m) && m@
                == "Could not find home directory"@),
    {
        match Self::ephemera_node_dir(application) {
            Ok(dir) => {
                let node_dir = join_path(dir.as_str(), node_name);
                let p = join_path(node_dir.as_str(), EPHEMERA_CONFIG_FILE);
                proof {
                    let h = choose|h: Seq<char>| dir@ == node_dir_path(h, application@);
                    assert(p@ == application_config_path(h, application@, node_name@));
                }
                Ok(p)
            },
            Err(e) => Err(e),
        }
    }

    /// The path of the configuration file of node `node_name` under the home
    /// directory `home`.
    pub fn config_file_root_in(home: &str, node_name: &str) -> (r: String)
        ensures
            r@ == root_config_path(home@, node_name@),
    {
        let root = join_path(home, EPHEMERA_DIR_NAME);
        let dir = join_path(root.as_str(), node_name);
        join_path(dir.as_str(), EPHEMERA_CONFIG_FILE)
    }

    /// Whether a new configuration file may be written at `file_path`: not when a file
    /// is already there.
    pub fn check_create(file_path: String, exists: bool) -> (r: Result<String, ConfigurationError>)
        ensures
            exists ==> (r matches Err(ConfigurationError::ConfigurationFileExists(p)) && p@
                == file_path@),
            !exists ==> (r matches Ok(p) && p@ == file_path@),
    {
        if exists {
            Err(ConfigurationError::ConfigurationFileExists(file_path))
        } else {
            Ok(file_path)
        }
    }

    /// Whether the configuration file at `file_path` may be overwritten: only when it
    /// is there.
    pub fn check_update(file_path: String, exists: bool) -> (r: Result<String, ConfigurationError>)
        ensures
            !exists ==> (r matches Err(ConfigurationError::ConfigurationFileDoesNotExists(p))
                && p@ == file_path@),
            exists ==> (r matches Ok(p) && p@ == file_path@),
    {
        if exists {
            Ok(file_path)
        } else {
            Err(ConfigurationError::ConfigurationFileDoesNotExists(file_path))
        }
    }

    /// The text of a configuration file: the generated header line, then the TOML of
    /// the configuration.
    pub fn file_text(toml: String) -> (r: String)
        ensures
            r@ == config_file_text(toml@),
    {
        let mut out = String::from_str(GENERATED_HEADER);
        out.append(toml.as_str());
        out
    }
}

} // verus!
