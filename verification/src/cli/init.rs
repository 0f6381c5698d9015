//! The configuration of a new node.

use vstd::prelude::*;
use vstd::string::StringExecFns;
use crate::config::{
    join_path, path_join, BlockConfig, Configuration, DbConfig, HttpConfig, Libp2pConfig,
    NodeConfig, WsConfig,
};

verus! {

/// The default IP address of a node.
pub const DEFAULT_LISTEN_ADDRESS: &'static str = "127.0.0.1";

/// The default port of the protocol.
pub const DEFAULT_LISTEN_PORT: u16 = 3000;

/// The gossip topic of messages.
pub const DEFAULT_MESSAGES_TOPIC_NAME: &'static str = "nym-ephemera-proposed";

/// Seconds between two gossip heartbeats.
pub const DEFAULT_HEARTBEAT_INTERVAL_SEC: u64 = 1;

/// The settings of a new node.
#[derive(Debug)]
pub struct InitCmd {
    pub node_name: String,
    pub ip: String,
    pub protocol_port: u16,
    pub websocket_port: u16,
    pub http_api_port: u16,
    pub block_producer: bool,
    pub block_creation_interval_sec: u64,
    pub repeat_last_block: bool,
    pub members_provider_delay_sec: u64,
}

/// `node_dir/db/rocksdb`
pub open spec fn rocksdb_path(node_dir: Seq<char>) -> Seq<char> {
    path_join(path_join(node_dir, "db"@), "rocksdb"@)
}

/// `node_dir/db/ephemera.sqlite`
pub open spec fn sqlite_path(node_dir: Seq<char>) -> Seq<char> {
    path_join(path_join(node_dir, "db"@), "ephemera.sqlite"@)
}

impl InitCmd {
    /// The configuration of the new node whose directory is `node_dir` and whose key
    /// is the base58 text `private_key`: the databases under `node_dir/db`, no peers.
    pub fn configuration(&self, node_dir: &str, private_key: String) -> (r: Configuration)
        ensures
            r.node.ip@ == self.ip@,
            r.node.private_key@ == private_key@,
            r.libp2p.port == self.protocol_port,
            r.libp2p.ephemera_msg_topic_name@ == DEFAULT_MESSAGES_TOPIC_NAME@,
            r.libp2p.heartbeat_interval_sec == DEFAULT_HEARTBEAT_INTERVAL_SEC,
            r.libp2p.members_provider_delay_sec == self.members_provider_delay_sec,
            r.libp2p.peers@.len() == 0,
            r.storage.rocket_path@ == rocksdb_path(node_dir@),
            r.storage.sqlite_path@ == sqlite_path(node_dir@),
            r.storage.create_if_not_exists,
            r.websocket.port == self.websocket_port,
            r.http.port == self.http_api_port,
            r.block == (BlockConfig {
                producer: self.block_producer,
                creation_interval_sec: self.block_creation_interval_sec,
                repeat_last_block: self.repeat_last_block,
            }),
    {
        let db_dir = join_path(node_dir, "db");
        let rocksdb = join_path(db_dir.as_str(), "rocksdb");
        let sqlite = join_path(db_dir.as_str(), "ephemera.sqlite");
        Configuration {
            node: NodeConfig { ip: self.ip.clone(), private_key },
            libp2p: Libp2pConfig {
                port: self.protocol_port,
                ephemera_msg_topic_name: String::from_str(DEFAULT_MESSAGES_TOPIC_NAME),
                heartbeat_interval_sec: DEFAULT_HEARTBEAT_INTERVAL_SEC,
                members_provider_delay_sec: self.members_provider_delay_sec,
                peers: Vec::new(),
            },
            storage: DbConfig { rocket_path: rocksdb, sqlite_path: sqlite, create_if_not_exists: true },
            websocket: WsConfig { port: self.websocket_port },
            http: HttpConfig { port: self.http_api_port },
            block: BlockConfig::new(
                self.block_producer,
                self.block_creation_interval_sec,
                self.repeat_last_block,
            ),
        }
    }
}

} // verus!
