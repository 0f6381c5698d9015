use ephemera::block::producer::BlockProducer;
use ephemera::block::types::block::{Block, RawBlock, RawBlockHeader};
use ephemera::block::types::message::EphemeraMessage;
use ephemera::crypto::{Keypair, PeerId};

#[test]
fn test_produce_block() {
    let peer_id = PeerId::random();

    let mut block_producer = BlockProducer::new(peer_id.clone());

    let message1 = EphemeraMessage::signed("label1".to_string(), vec![0], &Keypair::generate());
    let message2 = EphemeraMessage::signed("label2".to_string(), vec![1], &Keypair::generate());
    let messages = vec![message1.clone(), message2.clone()];

    let block = block_producer.produce_block(1, messages);

    assert_eq!(block.header.height, 1);
    assert_eq!(block.header.creator, peer_id);
    assert_eq!(block.messages.len(), 2);

    //Nondeterministic because of timestamp
    match message1.cmp(&message2) {
        std::cmp::Ordering::Less => {
            assert_eq!(block.messages[0], message1);
            assert_eq!(block.messages[1], message2);
        }
        std::cmp::Ordering::Greater => {
            assert_eq!(block.messages[0], message2);
            assert_eq!(block.messages[1], message1);
        }
        _ => panic!("Messages are equal"),
    }
}

#[test]
fn produced_block_states_its_own_hash() {
    let keypair = Keypair::generate();
    let m = EphemeraMessage::signed("x".to_string(), vec![], &keypair);
    let mut producer = BlockProducer::new(PeerId::random());
    let block = producer.produce_block(3, vec![m]);
    assert_eq!(block.hash_with_default_hasher(), block.get_hash());
    assert_eq!(block.get_height(), 3);
}

#[test]
fn raw_block_hash_follows_header_and_messages() {
    let creator = PeerId::random();
    let header = RawBlockHeader::new(creator.clone(), 0);
    let raw = RawBlock::new(header.clone(), vec![]);
    let hash = raw.hash_with_default_hasher();
    let block = Block::new(raw, hash);
    assert_eq!(block.hash_with_default_hasher(), hash);
    let other = RawBlock::new(RawBlockHeader { height: 1, ..header }, vec![]);
    assert_ne!(other.hash_with_default_hasher(), hash);
}

#[test]
fn genesis_block() {
    let creator = PeerId::random();
    let genesis = Block::new_genesis_block(creator.clone());
    assert_eq!(genesis.header.height, 0);
    assert_eq!(genesis.header.hash.0, [0u8; 32]);
    assert!(genesis.messages.is_empty());
    assert_eq!(genesis.header.creator, creator);
}
