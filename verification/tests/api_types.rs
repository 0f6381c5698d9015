use ephemera::api::types::{
    ApiBlock, ApiCertificate, ApiDhtQueryRequest, ApiDhtQueryResponse, ApiDhtStoreRequest,
    ApiError, RawApiEphemeraMessage,
};
use ephemera::block::producer::BlockProducer;
use ephemera::block::types::message::EphemeraMessage;
use ephemera::crypto::{Keypair, PeerId};

#[test]
fn test_message_sign_ok() {
    let message_signing_keypair = Keypair::generate();

    let message = RawApiEphemeraMessage::new("test".to_string(), vec![1, 2, 3]);
    let signed_message = message.sign(&message_signing_keypair);

    let certificate = signed_message.certificate;

    assert!(certificate
        .public_key
        .verify(&message.encode(), &certificate.signature));
}

#[test]
fn test_message_sign_fail() {
    let message_signing_keypair = Keypair::generate();

    let message = RawApiEphemeraMessage::new("test1".to_string(), vec![1, 2, 3]);
    let signed_message = message.sign(&message_signing_keypair);

    let certificate = signed_message.certificate;

    let modified_message = RawApiEphemeraMessage::new("test2".to_string(), vec![1, 2, 3]);
    assert!(!certificate
        .public_key
        .verify(&modified_message.encode(), &certificate.signature));
}

#[test]
fn raw_message_encoding_is_json() {
    let message = RawApiEphemeraMessage {
        timestamp: 17,
        label: "a\"b".to_string(),
        data: vec![0, 255],
    };
    assert_eq!(
        String::from_utf8(message.encode()).unwrap(),
        r#"{"timestamp":17,"label":"a\"b","data":[0,255]}"#
    );
}

#[test]
fn signed_message_keeps_fields_and_key() {
    let keypair = Keypair::generate();
    let raw = RawApiEphemeraMessage::new("label".to_string(), vec![9]);
    let signed = raw.sign(&keypair);
    assert_eq!(signed.timestamp, raw.timestamp);
    assert_eq!(signed.label, "label");
    assert_eq!(signed.data, vec![9]);
    assert_eq!(signed.certificate.public_key, keypair.public_key());
}

#[test]
fn certificate_prepare_and_verify() {
    let keypair = Keypair::generate();
    let certificate = ApiCertificate::prepare(&keypair, b"payload");
    assert!(certificate.verify(b"payload"));
    assert!(!certificate.verify(b"payloaD"));
    assert_eq!(certificate.public_key, keypair.public_key());
}

#[test]
fn api_message_converts_both_ways() {
    let keypair = Keypair::generate();
    let message = EphemeraMessage::signed("label".to_string(), vec![1, 2], &keypair);
    let api = ephemera::api::types::ApiEphemeraMessage::from_message(message.clone());
    assert_eq!(api.label, "label");
    assert_eq!(api.into_message(), message);
}

fn block_with_one_message() -> ephemera::block::types::block::Block {
    let keypair = Keypair::generate();
    let message = EphemeraMessage::signed("label".to_string(), vec![1, 2], &keypair);
    let mut producer = BlockProducer::new(PeerId::random());
    producer.produce_block(4, vec![message])
}

#[test]
fn api_block_round_trip() {
    let block = block_with_one_message();
    let api = ApiBlock::from_block(block.clone());
    assert_eq!(api.header.height, 4);
    assert_eq!(api.message_count(), 1);
    assert_eq!(api.hash(), block.header.hash.to_base58());
    let raw = api.as_raw_block();
    assert_eq!(raw.header, api.header);
    assert_eq!(raw.messages, api.messages);
    let back = api.into_block().unwrap();
    assert_eq!(back, block);
}

#[test]
fn api_block_verify_checks_signature_and_hash() {
    let block = block_with_one_message();
    let keypair = Keypair::generate();
    let certificate = ApiCertificate::from_certificate(block.sign(&keypair));
    let api = ApiBlock::from_block(block.clone());
    assert!(api.verify(&certificate).unwrap());

    let other = ApiCertificate::from_certificate(block_with_one_message().sign(&keypair));
    assert!(!api.verify(&other).unwrap());

    let mut broken = api.clone();
    broken.header.hash = "0OIl".to_string();
    assert!(matches!(broken.verify(&certificate), Err(ApiError::InvalidBlockHash(_))));

    let mut short = api.clone();
    short.header.hash = "2g".to_string();
    assert!(matches!(short.into_block(), Err(ApiError::InvalidBlockHash(_))));
}

#[test]
fn dht_requests_hex_round_trip() {
    let query = ApiDhtQueryRequest::new(&[0x0a, 0xff, 0x00]);
    assert_eq!(query.key_encoded(), "0x0aff00");
    assert_eq!(query.key(), vec![0x0a, 0xff, 0x00]);
    assert_eq!(ApiDhtQueryRequest::parse_key("0x0AFF00"), vec![0x0a, 0xff, 0x00]);
    assert_eq!(ApiDhtQueryRequest::parse_key("0aff00"), vec![0x0a, 0xff, 0x00]);

    let store = ApiDhtStoreRequest::new(b"key", b"value");
    assert_eq!(store.key(), b"key".to_vec());
    assert_eq!(store.value(), b"value".to_vec());

    let response = ApiDhtQueryResponse::new(vec![], vec![1]);
    assert_eq!(response.key(), Vec::<u8>::new());
    assert_eq!(response.value(), vec![1]);
}

#[test]
fn dht_requests_refuse_non_hex() {
    assert!(ApiDhtQueryRequest::from_hex("0x0g".to_string()).is_none());
    assert!(ApiDhtQueryRequest::from_hex("0x0".to_string()).is_none());
    assert!(ApiDhtQueryRequest::from_hex("0x00".to_string()).is_some());
    assert!(ApiDhtStoreRequest::from_hex("0x00".to_string(), "zz".to_string()).is_none());
    assert!(ApiDhtQueryResponse::from_hex("".to_string(), "0x".to_string()).is_some());
}
