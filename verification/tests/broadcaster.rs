use ephemera::block::types::block::{Block, RawBlock, RawBlockHeader};
use ephemera::broadcast::bracha::broadcaster::{Broadcaster, ProtocolResponse};
use ephemera::broadcast::{Command, MessageType, RawRbMsg, Status};
use ephemera::crypto::{HashType, PeerId};

fn create_block(block_creator_peer_id: PeerId) -> (HashType, Block) {
    let header = RawBlockHeader::new(block_creator_peer_id, 0);
    let raw_block = RawBlock::new(header.clone(), vec![]);
    let block_hash = raw_block.hash_with_default_hasher();
    let block = Block::new(raw_block, block_hash);
    (block_hash, block)
}

//make sure that duplicate messages doesn't have impact
fn handle_double(broadcaster: &mut Broadcaster, rb_msg: RawRbMsg) -> ProtocolResponse {
    let response = broadcaster.handle(rb_msg.clone());
    broadcaster.handle(rb_msg);
    response
}

fn receive_echo_first_message(broadcaster: &mut Broadcaster, block: &Block, block_creator: PeerId) {
    let rb_msg = RawRbMsg::new(block.clone(), block_creator);
    let response = handle_double(broadcaster, rb_msg);

    assert_eq!(response.status, Status::Pending);
    assert_eq!(response.command, Command::Broadcast);
    assert!(matches!(
        response.protocol_reply,
        Some(RawRbMsg { message_type: MessageType::Echo(_), .. })
    ));
}

fn receive_nr_of_echo_messages_below_vote_threshold(
    broadcaster: &mut Broadcaster,
    block: &Block,
    peers: &[PeerId],
) {
    for peer_id in peers {
        let rb_msg = RawRbMsg::new(block.clone(), peer_id.clone());

        let response = handle_double(broadcaster, rb_msg);

        assert_eq!(response.status, Status::Pending);
        assert_eq!(response.command, Command::Drop);
        assert!(response.protocol_reply.is_none());
    }
}

fn receive_echo_threshold_message(broadcaster: &mut Broadcaster, block: &Block, peer_id: PeerId) {
    let rb_msg = RawRbMsg::new(block.clone(), peer_id);

    let response = handle_double(broadcaster, rb_msg);
    assert_eq!(response.status, Status::Pending);
    assert_eq!(response.command, Command::Broadcast);
    assert!(matches!(
        response.protocol_reply,
        Some(RawRbMsg { message_type: MessageType::Vote(_), .. })
    ));
}

fn receive_nr_of_vote_messages_below_deliver_threshold(
    broadcaster: &mut Broadcaster,
    block: &Block,
    peers: &[PeerId],
) {
    for peer_id in peers {
        let rb_msg = RawRbMsg::new(block.clone(), PeerId::random());
        let rb_msg = rb_msg.vote_reply(peer_id.clone(), block.clone());

        let response = handle_double(broadcaster, rb_msg);
        assert_eq!(response.status, Status::Pending);
        assert_eq!(response.command, Command::Drop);
        assert!(response.protocol_reply.is_none());
    }
}

fn receive_threshold_vote_message_for_deliver(
    broadcaster: &mut Broadcaster,
    block: &Block,
    peer_id: PeerId,
) {
    let rb_msg = RawRbMsg::new(block.clone(), PeerId::random());
    let rb_msg = rb_msg.vote_reply(peer_id, block.clone());

    let response = handle_double(broadcaster, rb_msg);

    assert_eq!(response.status, Status::Completed);
    assert_eq!(response.command, Command::Drop);
    assert!(response.protocol_reply.is_none());
}

#[test]
fn test_state_transitions_from_start_to_end() {
    let peers: Vec<PeerId> = std::iter::repeat_with(PeerId::random).take(10).collect();
    let local_peer_id = peers[0].clone();
    let block_creator_peer_id = peers[1].clone();

    let mut broadcaster = Broadcaster::new(local_peer_id);
    broadcaster.topology_updated(peers.len());

    let (block_hash, block) = create_block(block_creator_peer_id.clone());

    //After this echo set contains local and block creator(msg sender)
    receive_echo_first_message(&mut broadcaster, &block, block_creator_peer_id);

    let ctx = broadcaster.context(&block_hash).unwrap();
    assert_eq!(ctx.echo.len(), 2);
    assert!(ctx.echoed());
    assert!(!ctx.voted());

    receive_nr_of_echo_messages_below_vote_threshold(&mut broadcaster, &block, &peers[2..7]);

    let ctx = broadcaster.context(&block_hash).unwrap();
    assert_eq!(ctx.echo.len(), 7);
    assert!(ctx.echoed());
    assert!(!ctx.voted());

    receive_echo_threshold_message(&mut broadcaster, &block, peers[7].clone());

    let ctx = broadcaster.context(&block_hash).unwrap();
    assert_eq!(ctx.echo.len(), 8);
    assert_eq!(ctx.vote.len(), 1);
    assert!(ctx.echoed());
    assert!(ctx.voted());

    receive_nr_of_vote_messages_below_deliver_threshold(&mut broadcaster, &block, &peers[2..8]);

    let ctx = broadcaster.context(&block_hash).unwrap();
    assert_eq!(ctx.echo.len(), 8);
    assert_eq!(ctx.vote.len(), 7);
    assert!(ctx.echoed());
    assert!(ctx.voted());

    receive_threshold_vote_message_for_deliver(&mut broadcaster, &block, peers[8].clone());
}

#[test]
fn new_broadcast_echoes_own_block() {
    let local = PeerId::random();
    let mut broadcaster = Broadcaster::new(local.clone());
    broadcaster.topology_updated(4);
    let (hash, block) = create_block(local.clone());
    let response = broadcaster.new_broadcast(block);
    assert_eq!(response.command, Command::Broadcast);
    let reply = response.protocol_reply.unwrap();
    assert_eq!(reply.original_sender, local);
    assert!(matches!(reply.message_type, MessageType::Echo(_)));
    let ctx = broadcaster.context(&hash).unwrap();
    assert_eq!(ctx.echo, vec![local]);
    assert!(ctx.vote.is_empty());
}

#[test]
fn vote_from_more_than_f_peers_makes_a_node_vote() {
    let peers: Vec<PeerId> = std::iter::repeat_with(PeerId::random).take(4).collect();
    let mut broadcaster = Broadcaster::new(peers[0].clone());
    broadcaster.topology_updated(4);
    let (hash, block) = create_block(peers[1].clone());
    // f = 1: a vote of a single peer is not enough, a second one is.
    let first = RawRbMsg::new(block.clone(), PeerId::random()).vote_reply(peers[1].clone(), block.clone());
    assert_eq!(broadcaster.handle(first).command, Command::Drop);
    let second = RawRbMsg::new(block.clone(), PeerId::random()).vote_reply(peers[2].clone(), block.clone());
    let response = broadcaster.handle(second);
    assert_eq!(response.command, Command::Broadcast);
    assert!(matches!(response.protocol_reply.unwrap().message_type, MessageType::Vote(_)));
    assert!(broadcaster.context(&hash).unwrap().voted());
}
