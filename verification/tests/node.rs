use ephemera::api::application::{ApplicationError, CheckBlockResult, DefaultApplication, RemoveMessages};
use ephemera::api::types::{ApiError, RawApiEphemeraMessage};
use ephemera::block::manager::BlockManager;
use ephemera::block::types::block::Block;
use ephemera::broadcast::bracha::broadcaster::Broadcaster;
use ephemera::broadcast::group::BroadcastGroup;
use ephemera::broadcast::{MessageType, RbMsg};
use ephemera::config::{
    BlockConfig, Configuration, DbConfig, HttpConfig, Libp2pConfig, NodeConfig, WsConfig,
};
use ephemera::crypto::Keypair;
use ephemera::ephemera::{
    block_query_response, certificates_query_response, last_block_response, submit_reply, Ephemera,
    MessageVerdict, NetworkAction, NodeInfo,
};

fn configuration(private_key: String) -> Configuration {
    Configuration {
        node: NodeConfig { ip: "10.1.2.3".to_string(), private_key },
        libp2p: Libp2pConfig {
            port: 3000,
            ephemera_msg_topic_name: "topic".to_string(),
            heartbeat_interval_sec: 1,
            members_provider_delay_sec: 60,
            peers: vec![],
        },
        storage: DbConfig {
            rocket_path: "r".to_string(),
            sqlite_path: "s".to_string(),
            create_if_not_exists: true,
        },
        websocket: WsConfig { port: 6000 },
        http: HttpConfig { port: 7000 },
        block: BlockConfig::new(true, 0, true),
    }
}

fn node() -> Ephemera<DefaultApplication> {
    let secret = Keypair::generate().to_base58();
    let node_info = NodeInfo::new(configuration(secret.clone())).unwrap();
    let keypair = Keypair::from_base58(&secret).unwrap();
    let peer_id = node_info.peer_id.clone();
    let genesis = Block::new_genesis_block(peer_id.clone());
    Ephemera {
        block_manager: BlockManager::new(BlockConfig::new(true, 0, true), keypair, genesis),
        broadcaster: Broadcaster::new(peer_id),
        topology: BroadcastGroup::new(),
        node_info,
        application: DefaultApplication,
    }
}

fn message(label: &str) -> ephemera::api::types::ApiEphemeraMessage {
    RawApiEphemeraMessage::new(label.to_string(), vec![1]).sign(&Keypair::generate())
}

#[test]
fn node_info_addresses() {
    let node = node();
    assert_eq!(node.node_info.protocol_address(), "/ip4/10.1.2.3/tcp/3000");
    assert_eq!(node.node_info.api_address_http(), "http://10.1.2.3:7000");
    assert_eq!(node.node_info.ws_address_ws(), "ws://10.1.2.3:6000");
    assert_eq!(node.node_info.ws_address_ip_port(), "10.1.2.3:6000");
    let config = node.ephemera_config();
    assert_eq!(config.protocol_address, "/ip4/10.1.2.3/tcp/3000");
    assert_eq!(config.public_key, node.node_info.keypair.public_key().to_base58());
    assert!(config.block_producer);
    assert!(NodeInfo::new(configuration("not a key".to_string())).is_none());
}

#[test]
fn network_messages_enter_the_pool_once() {
    let mut node = node();
    let m = message("a").into_message();
    assert_eq!(node.process_ephemera_message(m.clone()), MessageVerdict::Added);
    assert_eq!(node.process_ephemera_message(m.clone()), MessageVerdict::Duplicate);
    assert!(node.block_manager.message_pool.contains(&m.hash_with_default_hasher()));
    let other = message("b").into_message();
    assert_eq!(node.on_checked_message(other.clone(), Ok(false)), MessageVerdict::Rejected);
    assert!(!node.block_manager.message_pool.contains(&other.hash_with_default_hasher()));
}

#[test]
fn submitted_messages() {
    let mut node = node();
    let m = message("a");
    let accepted = node.handle_submit_message(m.clone()).unwrap();
    assert_eq!(accepted, m.clone().into_message());
    assert!(matches!(node.handle_submit_message(m.clone()), Err(ApiError::DuplicateMessage)));
    assert!(matches!(
        node.after_submit_check(message("b"), Ok(false)),
        Err(ApiError::ApplicationRejectedMessage)
    ));
    assert!(matches!(
        node.after_submit_check(
            message("c"),
            Err(ApplicationError::GeneralError(anyhow::Error::msg("down")))
        ),
        Err(ApiError::Application(_))
    ));
    assert_eq!(node.block_manager.message_pool.get_messages().len(), 1);
}

#[test]
fn local_block_is_broadcast_when_the_group_is_known() {
    let mut node = node();
    let (block, certificate) = node.block_manager.next_block().unwrap();
    // No members yet: the block is not broadcast.
    assert!(node.process_new_local_block(block.clone(), certificate.clone()).unwrap().is_none());

    let local = node.node_info.peer_id.clone();
    node.process_peers_updated(vec![local.clone(), ephemera::crypto::PeerId::random()]);
    let msg = node.process_new_local_block(block.clone(), certificate.clone()).unwrap().unwrap();
    assert_eq!(msg.certificate, certificate);
    assert_eq!(msg.original_sender, local);
    assert!(matches!(msg.phase, MessageType::Echo(ref b) if *b == block));
}

#[test]
fn rejected_local_block_is_dropped() {
    let mut node = node();
    let (block, certificate) = node.block_manager.next_block().unwrap();
    let r = node.continue_new_local_block(block, certificate, Ok(CheckBlockResult::Reject));
    assert!(r.unwrap().is_none());
}

#[test]
fn block_from_a_peer_is_echoed_and_signed() {
    let mut a = node();
    let mut b = node();
    let a_id = a.node_info.peer_id.clone();
    let b_id = b.node_info.peer_id.clone();
    for n in [&mut a, &mut b] {
        n.process_peers_updated(vec![a_id.clone(), b_id.clone()]);
    }
    let (block, certificate) = a.block_manager.next_block().unwrap();
    let echo = a.process_new_local_block(block.clone(), certificate).unwrap().unwrap();

    match b.process_block_from_network(echo).unwrap() {
        NetworkAction::Send(reply) => {
            assert_eq!(reply.original_sender, b_id);
            assert!(block.verify(&reply.certificate));
            assert_eq!(reply.certificate.public_key, b.node_info.keypair.public_key());
        }
        other => panic!("unexpected {other:?}"),
    }
}

#[test]
fn block_from_outside_the_group_is_refused() {
    let mut a = node();
    let mut b = node();
    let a_id = a.node_info.peer_id.clone();
    a.process_peers_updated(vec![a_id.clone()]);
    b.process_peers_updated(vec![b.node_info.peer_id.clone()]);
    let (block, certificate) = a.block_manager.next_block().unwrap();
    let echo = a.process_new_local_block(block, certificate).unwrap().unwrap();
    assert!(b.process_block_from_network(echo).is_err());
}

#[test]
fn query_answers() {
    let block = Block::new_genesis_block(ephemera::crypto::PeerId::random());
    let answer = block_query_response(Ok(Some(block.clone()))).unwrap().unwrap();
    assert_eq!(answer.header.height, 0);
    assert!(block_query_response(Ok(None)).unwrap().is_none());
    assert!(matches!(
        block_query_response(Err(anyhow::Error::msg("io"))),
        Err(ApiError::Internal(_))
    ));
    assert!(matches!(last_block_response(Ok(None)), Err(ApiError::Internal(_))));
    assert_eq!(last_block_response(Ok(Some(block))).unwrap().header.height, 0);
    let keypair = Keypair::generate();
    let certificate = ephemera::crypto::Certificate::prepare_bytes(&keypair, b"x");
    let answer = certificates_query_response(Ok(Some(vec![certificate.clone()]))).unwrap().unwrap();
    assert_eq!(answer[0].signature, certificate.signature);
    assert!(certificates_query_response(Ok(None)).unwrap().is_none());
}

#[test]
fn block_rejected_with_its_messages_is_not_broadcast() {
    let mut node = node();
    let local = node.node_info.peer_id.clone();
    node.process_peers_updated(vec![local, ephemera::crypto::PeerId::random()]);
    node.handle_submit_message(message("a")).unwrap();
    let (block, certificate) = node.block_manager.next_block().unwrap();
    assert_eq!(block.messages.len(), 1);
    let r = node.continue_new_local_block(
        block,
        certificate,
        Ok(CheckBlockResult::RejectAndRemoveMessages(RemoveMessages::All)),
    );
    assert!(r.unwrap().is_none());
    assert_eq!(node.block_manager.message_pool.get_messages().len(), 0);
}

#[test]
fn peers_update_keeps_each_peer_once() {
    let mut node = node();
    let a = ephemera::crypto::PeerId::random();
    let b = ephemera::crypto::PeerId::random();
    node.process_peers_updated(vec![a.clone(), b.clone(), a.clone()]);
    assert_eq!(node.topology.current(), vec![a, b]);
}

fn copy(m: &RbMsg) -> RbMsg {
    RbMsg {
        id: m.id.clone(),
        request_id: m.request_id.clone(),
        original_sender: m.original_sender.clone(),
        timestamp: m.timestamp,
        phase: m.phase.clone(),
        certificate: m.certificate.clone(),
    }
}

#[test]
fn delivered_block_is_stored_by_its_creator_only() {
    let mut nodes: Vec<Ephemera<DefaultApplication>> = (0..3).map(|_| node()).collect();
    let ids: Vec<_> = nodes.iter().map(|n| n.node_info.peer_id.clone()).collect();
    for n in nodes.iter_mut() {
        n.process_peers_updated(ids.clone());
    }
    let (block, certificate) = nodes[0].block_manager.next_block().unwrap();
    let first = nodes[0].process_new_local_block(block.clone(), certificate).unwrap().unwrap();
    let mut queue = vec![first];
    let mut stored = Vec::new();
    let mut nothing_after_delivery = 0;
    while let Some(msg) = queue.pop() {
        for (i, n) in nodes.iter_mut().enumerate() {
            if ids[i] == msg.original_sender {
                continue;
            }
            match n.process_block_from_network(copy(&msg)) {
                Ok(NetworkAction::Send(reply)) => queue.push(reply),
                Ok(NetworkAction::StoreLocalBlock(b, certificates)) => stored.push((i, b, certificates)),
                Ok(NetworkAction::Nothing) => nothing_after_delivery += 1,
                Err(e) => panic!("unexpected error {e:?}"),
            }
        }
    }
    assert_eq!(stored.len(), 1);
    let (i, b, certificates) = &stored[0];
    assert_eq!(*i, 0);
    assert_eq!(*b, block);
    assert!(!certificates.is_empty());
    assert!(certificates.iter().all(|c| block.verify(c)));
    assert!(nothing_after_delivery > 0);
}

#[test]
fn block_answers_show_the_whole_header() {
    let block = Block::new_genesis_block(ephemera::crypto::PeerId::random());
    let answer = block_query_response(Ok(Some(block.clone()))).unwrap().unwrap();
    assert_eq!(answer.header.hash, block.header.hash.to_base58());
    assert_eq!(answer.header.creator, block.header.creator);
    assert_eq!(answer.header.timestamp, block.header.timestamp);
    let last = last_block_response(Ok(Some(block.clone()))).unwrap();
    assert_eq!(last.header.hash, block.header.hash.to_base58());
}

#[test]
fn delivered_own_block_is_stored_committed_then_sent() {
    let mut node = node();
    let (block, _) = node.block_manager.next_block().unwrap();
    // A failed store stops everything: the block stays pending.
    assert!(node.after_store(&block, Err(anyhow::Error::msg("disk full"))).is_err());
    let sent = node.after_store(&block, Ok(())).unwrap();
    assert_eq!(sent, block);
    // Once committed, the block is no longer pending.
    assert!(node.after_store(&block, Ok(())).is_err());
}

#[test]
fn accepted_submission_answer_follows_the_gossip() {
    assert!(submit_reply(Ok(())).is_ok());
    assert!(matches!(submit_reply(Err(anyhow::Error::msg("down"))), Err(ApiError::Internal(_))));
}
