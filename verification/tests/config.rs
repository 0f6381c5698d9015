use ephemera::cli::crypto::GenerateKeypairCmd;
use ephemera::cli::init::InitCmd;
use ephemera::cli::peers::{AddLocalPeersCmd, AddPeerCmd, AddPeerError};
use ephemera::cli::run_node::{MembersProvider, MembersProviderType, RunExternalNodeCmd};
use ephemera::config::{
    join_path, BlockConfig, Configuration, ConfigurationError, DbConfig, HttpConfig, Libp2pConfig,
    NodeConfig, PeerSetting, WsConfig,
};
use ephemera::crypto::Keypair;

fn configuration(ip: &str, port: u16, private_key: String) -> Configuration {
    Configuration {
        node: NodeConfig { ip: ip.to_string(), private_key },
        libp2p: Libp2pConfig {
            port,
            ephemera_msg_topic_name: "topic".to_string(),
            heartbeat_interval_sec: 1,
            members_provider_delay_sec: 60,
            peers: vec![],
        },
        storage: DbConfig {
            rocket_path: "r".to_string(),
            sqlite_path: "s".to_string(),
            create_if_not_exists: true,
        },
        websocket: WsConfig { port: 6000 },
        http: HttpConfig { port: 7000 },
        block: BlockConfig::new(true, 30, false),
    }
}

#[test]
fn paths_are_joined_like_std() {
    assert_eq!(join_path("/home/a", ".ephemera"), "/home/a/.ephemera");
    assert_eq!(join_path("/home/a/", "node"), "/home/a/node");
    assert_eq!(join_path("", "node"), "node");
    assert_eq!(join_path("/home/a", "/etc"), "/etc");
    for base in ["", "/", "/home/a", "/home/a/", "rel", "rel/dir"] {
        for part in ["", "node", "/etc", "a/b", ".ephemera"] {
            assert_eq!(
                std::path::Path::new(base).join(part).to_str().unwrap(),
                join_path(base, part),
                "{base:?} {part:?}"
            );
        }
    }
}

#[test]
fn configuration_file_layout() {
    assert_eq!(
        Configuration::config_file_root_in("/home/a", "node1"),
        "/home/a/.ephemera/node1/ephemera.toml"
    );
    assert_eq!(
        Configuration::ephemera_root_dir_in(Some("/home/a".to_string())).unwrap(),
        "/home/a/.ephemera"
    );
    assert!(matches!(
        Configuration::ephemera_root_dir_in(None),
        Err(ConfigurationError::Other(_))
    ));
    if let Ok(path) = Configuration::ephemera_config_file_application("app", "node1") {
        assert!(path.ends_with("/.ephemera/app/node1/ephemera.toml"));
    }
    if let Ok(path) = Configuration::ephemera_config_file_root("node1") {
        assert!(path.ends_with("/.ephemera/node1/ephemera.toml"));
    }
}

#[test]
fn create_and_update_decisions() {
    assert!(matches!(
        Configuration::check_create("p".to_string(), true),
        Err(ConfigurationError::ConfigurationFileExists(p)) if p == "p"
    ));
    assert_eq!(Configuration::check_create("p".to_string(), false).unwrap(), "p");
    assert!(matches!(
        Configuration::check_update("p".to_string(), false),
        Err(ConfigurationError::ConfigurationFileDoesNotExists(p)) if p == "p"
    ));
    assert_eq!(Configuration::check_update("p".to_string(), true).unwrap(), "p");
    assert_eq!(
        Configuration::file_text("a = 1\n".to_string()),
        "#This file is generated by cli and automatically overwritten every time when cli is run\na = 1\n"
    );
}

#[test]
fn add_peer_refuses_duplicate_names() {
    let mut conf = configuration("127.0.0.1", 3000, "k".to_string());
    let cmd = AddPeerCmd { name: "n1".to_string(), address: "a1".to_string(), pub_key: "p1".to_string() };
    assert_eq!(cmd.execute(&mut conf), Ok(()));
    assert_eq!(conf.libp2p.peers.len(), 1);
    assert_eq!(conf.libp2p.peers[0].address, "a1");
    let again = AddPeerCmd { name: "n1".to_string(), address: "a2".to_string(), pub_key: "p2".to_string() };
    assert_eq!(again.execute(&mut conf), Err(AddPeerError::DuplicateName));
    assert_eq!(conf.libp2p.peers.len(), 1);
    assert_eq!(conf.libp2p.peers[0].address, "a1");
}

#[test]
fn local_peers_list_every_other_node() {
    let k1 = Keypair::generate();
    let k2 = Keypair::generate();
    let configs = vec![
        ("node1".to_string(), configuration("10.0.0.1", 3001, k1.to_base58())),
        ("node2".to_string(), configuration("10.0.0.2", 3002, k2.to_base58())),
    ];
    let lists = AddLocalPeersCmd.peer_lists(&configs);
    assert_eq!(lists.len(), 2);
    let PeerSetting { name, address, pub_key } = &lists[0][0];
    assert_eq!(lists[0].len(), 1);
    assert_eq!(name, "node2");
    assert_eq!(address, "/ip4/10.0.0.2/tcp/3002");
    assert_eq!(pub_key, &k2.public_key().to_base58());
    assert_eq!(lists[1][0].name, "node1");
    assert_eq!(lists[1][0].address, "/ip4/10.0.0.1/tcp/3001");
}

#[test]
fn init_configuration() {
    let cmd = InitCmd {
        node_name: "node1".to_string(),
        ip: "127.0.0.1".to_string(),
        protocol_port: 3000,
        websocket_port: 6000,
        http_api_port: 7000,
        block_producer: true,
        block_creation_interval_sec: 30,
        repeat_last_block: false,
        members_provider_delay_sec: 3600,
    };
    let conf = cmd.configuration("/home/a/.ephemera/node1", "key".to_string());
    assert_eq!(conf.storage.rocket_path, "/home/a/.ephemera/node1/db/rocksdb");
    assert_eq!(conf.storage.sqlite_path, "/home/a/.ephemera/node1/db/ephemera.sqlite");
    assert_eq!(conf.libp2p.ephemera_msg_topic_name, "nym-ephemera-proposed");
    assert_eq!(conf.libp2p.port, 3000);
    assert_eq!(conf.http.port, 7000);
    assert_eq!(conf.block, BlockConfig::new(true, 30, false));
}

#[test]
fn generated_keys_belong_together() {
    let (secret, public) = GenerateKeypairCmd.keys();
    let keypair = Keypair::from_base58(&secret).unwrap();
    assert_eq!(keypair.public_key().to_base58(), public);
    assert_eq!(keypair.to_base58(), secret);
}

#[test]
fn members_provider_precedence() {
    let cmd = |d: Option<bool>, c: Option<bool>, h: Option<&str>| RunExternalNodeCmd {
        config_file: "f".to_string(),
        members_provider: MembersProviderType {
            dummy_members_provider: d,
            config_members_provider: c,
            http_members_provider: h.map(|s| s.to_string()),
        },
    };
    assert_eq!(cmd(Some(true), Some(true), None).members_provider().unwrap(), MembersProvider::Dummy);
    assert_eq!(cmd(Some(false), Some(true), None).members_provider().unwrap(), MembersProvider::Config);
    assert_eq!(
        cmd(None, None, Some("http://x")).members_provider().unwrap(),
        MembersProvider::Http("http://x".to_string())
    );
    assert!(cmd(None, Some(false), None).members_provider().is_err());
}

#[test]
fn local_peers_need_valid_keys() {
    let k1 = Keypair::generate();
    let good = vec![
        ("node1".to_string(), configuration("10.0.0.1", 3001, k1.to_base58())),
        ("node2".to_string(), configuration("10.0.0.2", 3002, Keypair::generate().to_base58())),
    ];
    let lists = AddLocalPeersCmd.checked_peer_lists(&good).unwrap();
    let expected = AddLocalPeersCmd.peer_lists(&good);
    assert_eq!(lists.len(), expected.len());
    for (a, b) in lists.iter().zip(expected.iter()) {
        assert_eq!(a.len(), b.len());
        for (p, q) in a.iter().zip(b.iter()) {
            assert_eq!((&p.name, &p.address, &p.pub_key), (&q.name, &q.address, &q.pub_key));
        }
    }
    let bad = vec![
        ("node1".to_string(), configuration("10.0.0.1", 3001, k1.to_base58())),
        ("node2".to_string(), configuration("10.0.0.2", 3002, "not a key".to_string())),
    ];
    assert!(AddLocalPeersCmd.checked_peer_lists(&bad).is_none());
}

#[test]
fn missing_home_directory_message() {
    match Configuration::ephemera_root_dir_in(None) {
        Err(ephemera::config::ConfigurationError::Other(m)) => {
            assert_eq!(m, "Could not find home directory")
        }
        other => panic!("unexpected {other:?}"),
    }
}
