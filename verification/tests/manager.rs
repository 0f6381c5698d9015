use ephemera::api::application::RemoveMessages;
use ephemera::api::types::{ApiEphemeraMessage, RawApiEphemeraMessage};
use ephemera::block::manager::{BlockManager, BlockManagerError};
use ephemera::block::producer::BlockProducer;
use ephemera::block::types::block::Block;
use ephemera::block::types::message::EphemeraMessage;
use ephemera::config::BlockConfig;
use ephemera::crypto::{HashType, Keypair, PeerId};

fn block_manager_with_config(config: BlockConfig) -> (BlockManager, PeerId) {
    let keypair = Keypair::generate();
    let peer_id = keypair.public_key().peer_id().unwrap();
    let genesis_block = Block::new_genesis_block(peer_id.clone());
    (BlockManager::new(config, keypair, genesis_block), peer_id)
}

fn block_manager_with_defaults() -> (BlockManager, PeerId) {
    let config = BlockConfig::new(true, 0, true);
    block_manager_with_config(config)
}

fn block() -> Block {
    let keypair = Keypair::generate();
    let peer_id = keypair.public_key().peer_id().unwrap();
    let mut producer = BlockProducer::new(peer_id);
    producer.produce_block(1, vec![])
}

fn message(label: &str) -> EphemeraMessage {
    let message1 = RawApiEphemeraMessage::new(label.into(), vec![1, 2, 3]);
    let keypair = Keypair::generate();
    let signed_message1 = message1.sign(&keypair);
    signed_message1.into_message()
}

#[test]
fn test_add_message() {
    let (mut manager, _) = block_manager_with_defaults();

    let signed_message = message("test");
    let hash = signed_message.hash_with_default_hasher();

    manager.on_new_message(signed_message).unwrap();

    assert!(manager.message_pool.contains(&hash));
}

#[test]
fn test_add_duplicate_message() {
    let (mut manager, _) = block_manager_with_defaults();

    let signed_message = message("test");

    manager.on_new_message(signed_message.clone()).unwrap();

    assert!(matches!(
        manager.on_new_message(signed_message),
        Err(BlockManagerError::DuplicateMessage(_))
    ));
}

#[test]
fn test_accept_valid_block() {
    let (mut manager, peer_id) = block_manager_with_defaults();

    let block = block();
    let certificate = manager.sign_block(&block);

    let result = manager.on_block(&peer_id, &block, &certificate);

    assert!(result.is_ok());
}

#[test]
fn test_reject_invalid_sender() {
    let (mut manager, _) = block_manager_with_defaults();

    let block = block();
    let certificate = manager.sign_block(&block);

    let invalid_peer_id = Keypair::generate().public_key().peer_id().unwrap();
    let result = manager.on_block(&invalid_peer_id, &block, &certificate);

    assert!(result.is_err());
}

#[test]
fn test_reject_invalid_hash() {
    let (mut manager, peer_id) = block_manager_with_defaults();

    let mut block = block();
    let certificate = manager.sign_block(&block);

    block.header.hash = HashType::new([0; 32]);
    let result = manager.on_block(&peer_id, &block, &certificate);

    assert!(result.is_err());
}

#[test]
fn test_reject_invalid_signature() {
    let (mut manager, peer_id) = block_manager_with_defaults();

    let correct_block = block();
    let fake_block = block();

    let fake_certificate = manager.sign_block(&fake_block);
    let correct_certificate = manager.sign_block(&correct_block);

    let result = manager.on_block(&peer_id, &correct_block, &fake_certificate);
    assert!(result.is_err());

    let result = manager.on_block(&peer_id, &fake_block, &correct_certificate);
    assert!(result.is_err());
}

#[test]
fn test_next_block_empty() {
    let (mut manager, _) = block_manager_with_defaults();

    let (block, _) = manager.next_block().unwrap();
    assert_eq!(block.header.height, 1);
    assert!(block.messages.is_empty());
}

#[test]
fn test_next_block_with_message() {
    let (mut manager, _) = block_manager_with_defaults();

    let signed_message = message("test");
    manager.on_new_message(signed_message).unwrap();

    match manager.next_block() {
        Some((block, _)) => {
            assert_eq!(block.header.height, 1);
            assert_eq!(block.messages.len(), 1);
        }
        None => {
            panic!("No block produced");
        }
    }
}

#[test]
fn test_next_block_previous_not_committed_repeat() {
    let (mut manager, _) = block_manager_with_defaults();

    let signed_message = message("test");
    manager.on_new_message(signed_message).unwrap();

    let (block1, _) = manager.next_block().unwrap();

    let signed_message = message("test");
    manager.on_new_message(signed_message).unwrap();

    let (block2, _) = manager.next_block().unwrap();

    assert_eq!(block1.messages.len(), block2.messages.len());
    assert_eq!(block1.header.height, block2.header.height);
}

#[test]
fn test_next_block_previous_not_committed_repeat_false() {
    let config = BlockConfig::new(true, 0, false);
    let (mut manager, _) = block_manager_with_config(config);

    let signed_message = message("test");
    manager.on_new_message(signed_message).unwrap();

    let (block1, _) = manager.next_block().unwrap();

    let signed_message = message("test");
    manager.on_new_message(signed_message).unwrap();

    let (block2, _) = manager.next_block().unwrap();

    assert_eq!(block1.messages.len(), 1);
    assert_eq!(block2.messages.len(), 2);
    //We create new block but don't leave gap
    assert_eq!(block1.header.height, block2.header.height);
}

#[test]
fn test_on_committed_with_correct_pending_block() {
    let (mut manager, _) = block_manager_with_defaults();

    let signed_message = message("test");
    manager.on_new_message(signed_message).unwrap();

    let (block, _) = manager.next_block().unwrap();

    let result = manager.on_block_committed(&block);

    assert!(result.is_ok());
    assert!(manager.message_pool.get_messages().is_empty());
}

#[test]
fn test_on_committed_with_invalid_pending_block() {
    let (mut manager, _) = block_manager_with_defaults();

    let signed_message = message("test");
    manager.on_new_message(signed_message).unwrap();

    let _ = manager.next_block().unwrap();

    //Create invalid block
    let wrong_block = block();

    //This shouldn't remove messages from the pool
    let result = manager.on_block_committed(&wrong_block);
    assert!(result.is_err());
    assert_eq!(manager.message_pool.get_messages().len(), 1);
}

#[test]
fn application_rejected_messages_all() {
    let (mut manager, _) = block_manager_with_defaults();

    //Add messages to pool
    let signed_message = message("test");
    manager.on_new_message(signed_message).unwrap();

    let signed_message = message("test");
    manager.on_new_message(signed_message).unwrap();

    //Produce new block
    let _ = manager.next_block().unwrap();

    //Application Rejects the block with ALL messages
    manager.on_application_rejected_block(RemoveMessages::All);

    assert!(manager.message_pool.get_messages().is_empty());
}

#[test]
fn application_rejected_messages_selected() {
    let (mut manager, _) = block_manager_with_defaults();

    //Add messages to pool
    let signed_message1 = message("test");
    manager.on_new_message(signed_message1.clone()).unwrap();

    let signed_message2 = message("test");
    manager.on_new_message(signed_message2.clone()).unwrap();

    //Produce new block
    let _ = manager.next_block().unwrap();

    //Application Rejects the block with ALL messages
    manager.on_application_rejected_block(RemoveMessages::Selected(vec![
        ApiEphemeraMessage::from_message(signed_message2),
    ]));

    assert_eq!(manager.message_pool.get_messages().len(), 1);
    let message = manager.message_pool.get_messages().into_iter().next().unwrap();
    assert_eq!(message, signed_message1);
}

#[test]
fn committed_block_becomes_the_base_of_the_next_height() {
    let (mut manager, _) = block_manager_with_defaults();
    let (block1, _) = manager.next_block().unwrap();
    manager.on_block_committed(&block1).unwrap();
    let (block2, _) = manager.next_block().unwrap();
    assert_eq!(block1.header.height, 1);
    assert_eq!(block2.header.height, 2);
}

#[test]
fn non_producer_makes_no_blocks() {
    let (mut manager, _) = block_manager_with_config(BlockConfig::new(false, 0, true));
    assert!(manager.next_block().is_none());
}

#[test]
fn proposed_block_is_remembered_and_signed() {
    let (mut manager, _) = block_manager_with_defaults();
    let (block, certificate) = manager.next_block().unwrap();
    assert_eq!(manager.get_block_by_hash(&block.header.hash), Some(block.clone()));
    assert!(block.verify(&certificate));
    let certificates = manager.get_block_certificates(&block.header.hash).unwrap();
    assert_eq!(certificates, vec![certificate]);
    assert!(manager.get_block_by_hash(&HashType::new([7; 32])).is_none());
}

#[test]
fn known_block_is_accepted_without_checks() {
    let (mut manager, peer_id) = block_manager_with_defaults();
    let block = block();
    let certificate = manager.sign_block(&block);
    manager.on_block(&peer_id, &block, &certificate).unwrap();
    let stranger = PeerId::random();
    assert!(manager.on_block(&stranger, &block, &certificate).is_ok());
}
