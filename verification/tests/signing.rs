use ephemera::block::types::block::{Block, RawBlock, RawBlockHeader};
use ephemera::block::types::message::{EphemeraMessage, UnsignedEphemeraMessage};
use ephemera::broadcast::signing::{BlockSignatureError, BlockSigner};
use ephemera::crypto::{Certificate, Keypair};

fn new_block(keypair: &Keypair) -> Block {
    let peer_id = keypair.public_key().peer_id().unwrap();

    let raw_ephemera_message =
        UnsignedEphemeraMessage::new("label".to_string(), "payload".as_bytes().to_vec());

    let message_certificate = Certificate::prepare_bytes(keypair, &raw_ephemera_message.encode());
    let messages = vec![EphemeraMessage::new(raw_ephemera_message, message_certificate)];

    let raw_block_header = RawBlockHeader::new(peer_id, 0);
    let raw_block = RawBlock::new(raw_block_header, messages);

    let block_hash = raw_block.hash_with_default_hasher();

    Block::new(raw_block, block_hash)
}

#[test]
fn test_sign_verify_block_ok() {
    let mut signer = BlockSigner::new(Keypair::generate());

    let message_signing_keypair = Keypair::generate();

    let block = new_block(&message_signing_keypair);
    let certificate = block.sign(&message_signing_keypair);

    assert!(signer.verify_block(&block, &certificate).is_ok());
}

#[test]
fn test_sign_verify_block_fail() {
    let mut signer = BlockSigner::new(Keypair::generate());
    let message_signing_keypair = Keypair::generate();

    let block = new_block(&message_signing_keypair);
    let certificate = block.sign(&message_signing_keypair);

    // Blocks are stamped in whole seconds: let the clock move on so that the second
    // block differs from the first.
    let stamped = block.header.timestamp;
    while ephemera::utilities::EphemeraTime::now() == stamped {}
    let modified_block = new_block(&message_signing_keypair);

    assert!(signer.verify_block(&modified_block, &certificate).is_err());
}

#[test]
fn verified_certificates_are_remembered() {
    let mut signer = BlockSigner::new(Keypair::generate());
    let keypair = Keypair::generate();
    let block = new_block(&keypair);
    assert!(signer.get_block_signatures(&block.header.hash).is_none());
    let certificate = block.sign(&keypair);
    assert_eq!(signer.verify_block(&block, &certificate), Ok(()));
    assert_eq!(signer.verify_block(&block, &certificate), Ok(()));
    let known = signer.get_block_signatures(&block.header.hash).unwrap();
    assert_eq!(known, vec![certificate]);

    let own = signer.sign_block(&block, &block.header.hash);
    let known = signer.get_block_signatures(&block.header.hash).unwrap();
    assert_eq!(known.len(), 2);
    assert!(known.contains(&own));
}

#[test]
fn invalid_certificate_is_refused_and_not_remembered() {
    let mut signer = BlockSigner::new(Keypair::generate());
    let keypair = Keypair::generate();
    let block = new_block(&keypair);
    let mut certificate = block.sign(&keypair);
    certificate.signature.0[0] ^= 1;
    assert_eq!(
        signer.verify_block(&block, &certificate),
        Err(BlockSignatureError::InvalidSignature)
    );
    assert!(signer.get_block_signatures(&block.header.hash).is_none());
}

#[test]
fn stored_certificate_does_not_vouch_for_another_body() {
    let mut signer = BlockSigner::new(Keypair::generate());
    let keypair = Keypair::generate();
    let block = new_block(&keypair);
    let certificate = block.sign(&keypair);
    assert_eq!(signer.verify_block(&block, &certificate), Ok(()));
    // Same stated hash, one message more: the certificate does not sign this body.
    let mut changed = new_block(&keypair);
    changed.header = block.header.clone();
    let extra = UnsignedEphemeraMessage::new("extra".to_string(), vec![1]);
    let extra_certificate = Certificate::prepare_bytes(&keypair, &extra.encode());
    changed.messages.push(EphemeraMessage::new(extra, extra_certificate));
    assert_eq!(
        signer.verify_block(&changed, &certificate),
        Err(BlockSignatureError::InvalidSignature)
    );
}
