use std::collections::HashMap;
use std::time;

use ephemera::broadcast::quorum::BasicQuorum;
use ephemera::broadcast_protocol::broadcast::{BroadcastError, BroadcastProtocol, ProtocolResult};
use ephemera::broadcast_protocol::request::{
    CommitMsg, PrePrepareMsg, PrepareMsg, RbMsg, ReliableBroadcast,
};
use ephemera::broadcast_protocol::{
    pre_prepare_msg, BroadcastCallBack, EphemeraSigningRequest, Kind,
};
use ephemera::config::BroadcastProtocolSettings;
use prost_types::Timestamp;
use uuid::Uuid;

#[derive(Debug, Default)]
struct DummyCallback {}

impl BroadcastCallBack for DummyCallback {}

struct PeerTestInstance {
    protocol: BroadcastProtocol<DummyCallback, BasicQuorum>,
}

impl PeerTestInstance {
    fn new(node_id: &str, settings: BroadcastProtocolSettings) -> Self {
        let callback = DummyCallback::default();
        let quorum = BasicQuorum::new(settings);
        let protocol = BroadcastProtocol::new(quorum, callback, node_id.to_string());
        PeerTestInstance { protocol }
    }
}

struct TestSuite {
    peers: HashMap<String, PeerTestInstance>,
}

impl TestSuite {
    fn new() -> Self {
        let settings = BroadcastProtocolSettings { cluster_size: 3, quorum_threshold_size: 3 };
        let mut peers = HashMap::new();
        for id in ["peer1", "peer2", "peer3"] {
            peers.insert(id.to_string(), PeerTestInstance::new(id, settings));
        }
        Self { peers }
    }

    fn get_peer(&mut self, peer_id: &str) -> &mut PeerTestInstance {
        self.peers.get_mut(peer_id).unwrap()
    }

    fn pre_prepare_msg(&mut self, id: String, from: String, payload: Vec<u8>) -> EphemeraSigningRequest {
        let timestamp = Some(Timestamp::from(time::SystemTime::now()));
        let rbm = RbMsg {
            id,
            node_id: from.clone(),
            timestamp,
            custom_message_id: "custom_message_id".to_string(),
            reliable_broadcast: Some(ReliableBroadcast::PrePrepare(PrePrepareMsg { payload })),
        };
        EphemeraSigningRequest::new(from, rbm)
    }

    fn prepare_msg(&mut self, msg_id: String, from: String, payload: Vec<u8>) -> EphemeraSigningRequest {
        let timestamp = Some(Timestamp::from(time::SystemTime::now()));
        let rbm = RbMsg {
            id: msg_id,
            custom_message_id: "custom_message_id".to_string(),
            node_id: from.clone(),
            timestamp,
            reliable_broadcast: Some(ReliableBroadcast::Prepare(PrepareMsg { payload })),
        };
        EphemeraSigningRequest::new(from, rbm)
    }

    fn commit_msg(&mut self, msg_id: String, from: String) -> EphemeraSigningRequest {
        let timestamp = Some(Timestamp::from(time::SystemTime::now()));
        let rbm = RbMsg {
            id: msg_id,
            custom_message_id: "custom_message_id".to_string(),
            node_id: from.clone(),
            timestamp,
            reliable_broadcast: Some(ReliableBroadcast::Commit(CommitMsg {})),
        };
        EphemeraSigningRequest::new(from, rbm)
    }

    fn send_pre_prepare(&mut self, to: &str, payload: Vec<u8>) -> ProtocolResult {
        let msg = self.pre_prepare_msg(Uuid::new_v4().to_string(), "client".to_string(), payload);
        let peer = self.peers.get_mut(to).unwrap();
        peer.protocol.handle(msg)
    }

    fn send_prepare(&mut self, msg_id: String, to: &str, from: String, payload: Vec<u8>) -> ProtocolResult {
        let msg = self.prepare_msg(msg_id, from, payload);
        let peer = self.peers.get_mut(to).unwrap();
        peer.protocol.handle(msg)
    }

    fn send_commit(&mut self, msg_id: String, to: &str, from: String) -> ProtocolResult {
        let msg = self.commit_msg(msg_id, from);
        let peer = self.peers.get_mut(to).unwrap();
        peer.protocol.handle(msg)
    }
}

#[test]
fn test_pre_prepare_response() {
    let mut suite = TestSuite::new();
    let payload = "Hello".as_bytes().to_vec();

    let response = suite.send_pre_prepare("peer1", payload.clone()).unwrap();

    assert_eq!(response.kind, Kind::Broadcast);
    assert_eq!(response.protocol_reply.node_id, "peer1");
    let rbm = response.protocol_reply.reliable_broadcast.unwrap();
    assert_eq!(rbm, ReliableBroadcast::Prepare(PrepareMsg { payload }));
}

#[test]
fn test_prepare_response() {
    let mut suite = TestSuite::new();
    let payload = "Hello".as_bytes().to_vec();
    let id = Uuid::new_v4().to_string();

    let response = suite
        .send_prepare(id, "peer1", "peer".to_string(), payload.clone())
        .unwrap();

    assert_eq!(response.kind, Kind::Broadcast);
    assert_eq!(response.protocol_reply.node_id, "peer1");
    let rbm = response.protocol_reply.reliable_broadcast.unwrap();
    assert_eq!(rbm, ReliableBroadcast::Prepare(PrepareMsg { payload }));
}

#[test]
#[should_panic(expected = "UnknownBroadcast")]
fn test_commit_response_without_prepare() {
    let mut suite = TestSuite::new();
    let _payload = "Hello".as_bytes().to_vec();

    suite
        .send_commit("id".to_string(), "peer1", "unknown".to_string())
        .unwrap();
}

#[test]
fn test_commit_response() {
    let mut suite = TestSuite::new();
    let payload = "Hello".as_bytes().to_vec();
    let id = Uuid::new_v4().to_string();

    let prepare_resp = suite
        .send_prepare(id, "peer1", "peer".to_string(), payload.clone())
        .unwrap();
    let msg_id = prepare_resp.protocol_reply.id;
    let response = suite
        .send_commit(msg_id, "peer1", "unknown".to_string())
        .unwrap();

    assert_eq!(response.kind, Kind::Broadcast);
    assert_eq!(response.protocol_reply.node_id, "peer1");
    let rbm = response.protocol_reply.reliable_broadcast.unwrap();
    assert_eq!(rbm, ReliableBroadcast::Commit(CommitMsg {}));
}

#[test]
fn test_prepared_after_quorum_threshold() {
    let mut suite = TestSuite::new();
    let payload = "Hello".as_bytes().to_vec();
    let id = Uuid::new_v4().to_string();

    let _ = suite
        .send_prepare(id.clone(), "peer1", "peer2".to_string(), payload.clone())
        .unwrap();

    let peer1 = suite.get_peer("peer1");
    let ctx = peer1.protocol.context(&id).unwrap();
    assert_eq!(ctx.prepared, false);
    let _ = suite
        .send_prepare(id.clone(), "peer1", "peer3".to_string(), payload.clone())
        .unwrap();

    let peer1 = suite.get_peer("peer1");
    let ctx = peer1.protocol.context(&id).unwrap();
    assert_eq!(ctx.prepared, true);
}

#[test]
fn test_committed_after_quorum_threshold() {
    let mut suite = TestSuite::new();
    let payload = "Hello".as_bytes().to_vec();
    let id = Uuid::new_v4().to_string();

    let _ = suite
        .send_prepare(id.clone(), "peer1", "peer2".to_string(), payload.clone())
        .unwrap();

    let peer1 = suite.get_peer("peer1");
    let ctx = peer1.protocol.context(&id).unwrap();
    assert_eq!(ctx.prepared, false);
    let _ = suite
        .send_prepare(id.clone(), "peer1", "peer3".to_string(), payload.clone())
        .unwrap();

    let peer1 = suite.get_peer("peer1");
    let ctx = peer1.protocol.context(&id).unwrap();
    assert_eq!(ctx.prepared, true);

    let _ = suite
        .send_commit(id.clone(), "peer1", "peer2".to_string())
        .unwrap();

    let peer1 = suite.get_peer("peer1");
    let ctx = peer1.protocol.context(&id).unwrap();
    assert_eq!(ctx.committed, false);
    let _ = suite
        .send_commit(id.clone(), "peer1", "peer3".to_string())
        .unwrap();

    let peer1 = suite.get_peer("peer1");
    let ctx = peer1.protocol.context(&id).unwrap();
    assert_eq!(ctx.committed, true);
}

#[test]
fn duplicate_pre_prepare_is_refused() {
    let mut suite = TestSuite::new();
    let msg = suite.pre_prepare_msg("m".to_string(), "client".to_string(), vec![1]);
    let peer = suite.get_peer("peer1");
    assert!(peer.protocol.handle(msg.clone()).is_ok());
    match peer.protocol.handle(msg) {
        Err(BroadcastError::DuplicateMessage(id)) => assert_eq!(id, "m"),
        other => panic!("unexpected {other:?}"),
    }
}

#[test]
fn message_without_phase_is_refused() {
    let mut suite = TestSuite::new();
    let msg = EphemeraSigningRequest::new(
        "client".to_string(),
        RbMsg {
            id: "m".to_string(),
            node_id: "client".to_string(),
            timestamp: None,
            custom_message_id: String::new(),
            reliable_broadcast: None,
        },
    );
    let peer = suite.get_peer("peer2");
    assert!(matches!(peer.protocol.handle(msg), Err(BroadcastError::UnknownBroadcast(_))));
}

#[test]
fn original_sender_commits_after_prepare_quorum() {
    let mut suite = TestSuite::new();
    let msg = suite.pre_prepare_msg("m".to_string(), "client".to_string(), vec![7]);
    let peer = suite.get_peer("peer1");
    peer.protocol.handle(msg).unwrap();
    let ctx = peer.protocol.context(&"m".to_string()).unwrap();
    assert!(ctx.original_sender);
    assert_eq!(ctx.prepare, vec!["peer1".to_string()]);

    let _ = suite.send_prepare("m".to_string(), "peer1", "peer2".to_string(), vec![7]).unwrap();
    let response = suite.send_prepare("m".to_string(), "peer1", "peer3".to_string(), vec![7]).unwrap();
    assert_eq!(
        response.protocol_reply.reliable_broadcast,
        Some(ReliableBroadcast::Commit(CommitMsg {}))
    );
    let ctx = suite.get_peer("peer1").protocol.context(&"m".to_string()).unwrap();
    assert!(ctx.prepared);
    assert_eq!(ctx.commit, vec!["peer1".to_string()]);

    // Once prepared, a further prepare is acknowledged and dropped.
    let ack = suite.send_prepare("m".to_string(), "peer1", "peer2".to_string(), vec![7]).unwrap();
    assert_eq!(ack.kind, Kind::Drop);
}

#[test]
fn commit_without_prepared_does_not_commit() {
    let mut suite = TestSuite::new();
    let _ = suite.send_prepare("m".to_string(), "peer1", "peer2".to_string(), vec![]).unwrap();
    let _ = suite.send_commit("m".to_string(), "peer1", "peer2".to_string()).unwrap();
    let _ = suite.send_commit("m".to_string(), "peer1", "peer3".to_string()).unwrap();
    let ctx = suite.get_peer("peer1").protocol.context(&"m".to_string()).unwrap();
    assert_eq!(ctx.commit.len(), 3);
    assert!(!ctx.prepared);
    assert!(!ctx.committed);
}

#[test]
fn client_message_has_the_pre_prepare_phase() {
    let msg = pre_prepare_msg("client".to_string(), "custom".to_string(), vec![1, 2]);
    assert_eq!(msg.node_id, "client");
    assert_eq!(msg.custom_message_id, "custom");
    assert_eq!(
        msg.reliable_broadcast,
        Some(ReliableBroadcast::PrePrepare(PrePrepareMsg { payload: vec![1, 2] }))
    );
    assert!(Uuid::parse_str(&msg.id).is_ok());
}
