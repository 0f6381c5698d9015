use ephemera::broadcast_protocol::request::{PrePrepareMsg, ReliableBroadcast};
use ephemera::broadcast_protocol::signer::{insert_signature, Signature, SignatureRequest, Signer};
use ephemera::crypto::{Ed25519KeyPair, KeyPair, KeyPairError, Keypair};
use ephemera::http::{signing_request, MessageSigningRequest};

fn signer() -> Signer {
    Signer::new(Ed25519KeyPair(Keypair::generate()))
}

#[test]
fn hex_signatures_verify() {
    let keypair = <Ed25519KeyPair as KeyPair>::generate().unwrap();
    let signature = keypair.sign_hex(b"payload").unwrap();
    assert_eq!(signature.len(), 128);
    assert!(signature.chars().all(|c| c.is_ascii_hexdigit() && !c.is_ascii_uppercase()));
    assert_eq!(KeyPair::verify(&keypair, b"payload", &signature), Ok(()));
    assert_eq!(
        KeyPair::verify(&keypair, b"other", &signature),
        Err(KeyPairError::Signature)
    );
    assert_eq!(
        KeyPair::verify(&keypair, b"payload", &"xyz".to_string()),
        Err(KeyPairError::Signature)
    );
}

#[test]
fn pre_prepare_signs_once() {
    let mut signer = signer();
    let request = signer
        .pre_prepare("m1".to_string(), b"hello".to_vec(), "node1".to_string())
        .unwrap();
    assert_eq!(request.payload, b"hello".to_vec());
    assert_eq!(KeyPair::verify(&signer.keypair, b"hello", &request.signature), Ok(()));
    assert!(signer
        .pre_prepare("m1".to_string(), b"hello".to_vec(), "node1".to_string())
        .is_none());
    assert_eq!(signer.requests.len(), 1);
    assert_eq!(signer.requests[0].signatures.len(), 1);
    assert_eq!(signer.requests[0].signatures[0].id, "node1");
}

#[test]
fn prepare_collects_and_countersigns() {
    let mut other = signer();
    let from_other = other
        .pre_prepare("m1".to_string(), b"hello".to_vec(), "node2".to_string())
        .unwrap();

    let mut signer = signer();
    let reply = signer
        .prepare("m1".to_string(), "node2".to_string(), from_other, false, "node1".to_string())
        .unwrap();
    assert_eq!(reply.payload, b"hello".to_vec());
    let request = &signer.requests[0];
    assert_eq!(request.signatures.len(), 2);

    // A second request from another node only adds its signature.
    let third = SignatureRequest { payload: b"hello".to_vec(), signature: "abcd".to_string() };
    assert!(signer
        .prepare("m1".to_string(), "node3".to_string(), third, false, "node1".to_string())
        .is_none());
    assert_eq!(signer.requests[0].signatures.len(), 3);

    let done = signer.committed(&"m1".to_string()).unwrap();
    assert_eq!(done.request_id, "m1");
    assert_eq!(done.message, b"hello".to_vec());
    assert!(signer.requests.is_empty());
    assert!(signer.committed(&"m1".to_string()).is_none());
}

#[test]
fn original_sender_does_not_countersign() {
    let mut signer = signer();
    let request = SignatureRequest { payload: vec![1], signature: "00".to_string() };
    assert!(signer
        .prepare("m".to_string(), "node2".to_string(), request, true, "node1".to_string())
        .is_none());
    assert_eq!(signer.requests[0].signatures.len(), 1);
}

#[test]
fn signatures_keep_one_entry_per_node() {
    let mut signatures = vec![];
    insert_signature(&mut signatures, Signature { id: "a".to_string(), signature: "1".to_string() });
    insert_signature(&mut signatures, Signature { id: "b".to_string(), signature: "2".to_string() });
    insert_signature(&mut signatures, Signature { id: "a".to_string(), signature: "3".to_string() });
    assert_eq!(signatures.len(), 2);
    assert_eq!(signatures[0].signature, "3");
}

#[test]
fn http_signing_request_starts_a_broadcast() {
    let request = MessageSigningRequest {
        request_id: "r".to_string(),
        custom_message_id: "c".to_string(),
        message: vec![5],
    };
    let signing = signing_request("1.2.3.4".to_string(), request);
    assert_eq!(signing.origin, "1.2.3.4");
    assert_eq!(signing.message.node_id, "1.2.3.4");
    assert_eq!(signing.message.custom_message_id, "c");
    assert_eq!(
        signing.message.reliable_broadcast,
        Some(ReliableBroadcast::PrePrepare(PrePrepareMsg { payload: vec![5] }))
    );
}

#[test]
fn committed_request_leaves_alone() {
    let mut signer = signer();
    signer.pre_prepare("m1".to_string(), b"one".to_vec(), "node1".to_string()).unwrap();
    signer.pre_prepare("m2".to_string(), b"two".to_vec(), "node1".to_string()).unwrap();
    signer.pre_prepare("m3".to_string(), b"three".to_vec(), "node1".to_string()).unwrap();
    let done = signer.committed(&"m2".to_string()).unwrap();
    assert_eq!(done.request_id, "m2");
    assert_eq!(done.message, b"two".to_vec());
    let left: Vec<_> = signer.requests.iter().map(|r| r.request_id.clone()).collect();
    assert_eq!(left, vec!["m1".to_string(), "m3".to_string()]);
    assert!(signer.committed(&"m2".to_string()).is_none());
    assert_eq!(signer.requests.len(), 2);
}
