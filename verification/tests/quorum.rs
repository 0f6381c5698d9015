use ephemera::block::types::block::{Block, RawBlock, RawBlockHeader};
use ephemera::broadcast::basic::BasicQuorum as EchoVoteQuorum;
use ephemera::broadcast::bracha::quorum::{BrachaAction, BrachaMessageType, BrachaQuorum};
use ephemera::broadcast::quorum::{BasicQuorum, Quorum};
use ephemera::broadcast::{MessageType, ProtocolContext};
use ephemera::config::{BroadcastConfig, BroadcastProtocolSettings};
use ephemera::crypto::{HashType, PeerId};

fn ctx_with_nr_echoes(n: usize) -> ProtocolContext {
    let mut ctx = ProtocolContext {
        local_peer_id: PeerId::random(),
        hash: HashType::new([0; 32]),
        echo: vec![],
        vote: vec![],
    };
    for _ in 0..n {
        ctx.echo.push(PeerId::random());
    }
    ctx
}

fn ctx_with_nr_votes(n: usize, local_peer_id: Option<PeerId>) -> ProtocolContext {
    let mut ctx = ProtocolContext {
        local_peer_id: local_peer_id.clone().unwrap_or(PeerId::random()),
        hash: HashType::new([0; 32]),
        echo: vec![],
        vote: vec![],
    };
    for _ in 0..n {
        ctx.vote.push(PeerId::random());
    }
    if let Some(id) = local_peer_id {
        ctx.vote.push(id);
    }
    ctx
}

#[test]
fn test_max_faulty_nodes() {
    let mut quorum = BrachaQuorum::new();
    quorum.update_group_size(10);
    assert_eq!(quorum.max_faulty_nodes, 3);
}

#[test]
fn test_vote_threshold_from_n_minus_f_peers() {
    let mut quorum = BrachaQuorum::new();
    quorum.update_group_size(10);

    let ctx = ctx_with_nr_echoes(0);
    assert_eq!(
        quorum.check_threshold(&ctx, BrachaMessageType::Echo),
        BrachaAction::Ignore
    );

    let ctx = ctx_with_nr_echoes(3);
    assert_eq!(
        quorum.check_threshold(&ctx, BrachaMessageType::Echo),
        BrachaAction::Ignore
    );

    let ctx = ctx_with_nr_echoes(8);
    assert_eq!(
        quorum.check_threshold(&ctx, BrachaMessageType::Echo),
        BrachaAction::Vote
    );
}

#[test]
fn test_vote_threshold_from_f_plus_one_peers() {
    let mut quorum = BrachaQuorum::new();
    quorum.update_group_size(10);

    let ctx = ctx_with_nr_votes(0, None);
    assert_eq!(
        quorum.check_threshold(&ctx, BrachaMessageType::Vote),
        BrachaAction::Ignore
    );

    let ctx = ctx_with_nr_votes(2, None);
    assert_eq!(
        quorum.check_threshold(&ctx, BrachaMessageType::Vote),
        BrachaAction::Ignore
    );

    let ctx = ctx_with_nr_votes(5, None);
    assert_eq!(
        quorum.check_threshold(&ctx, BrachaMessageType::Vote),
        BrachaAction::Vote
    );
}

#[test]
fn test_deliver_threshold_from_n_minus_f_peers() {
    let mut quorum = BrachaQuorum::new();
    quorum.update_group_size(10);

    let local_peer_id = PeerId::random();
    let ctx = ctx_with_nr_votes(0, Some(local_peer_id.clone()));
    assert_eq!(
        quorum.check_threshold(&ctx, BrachaMessageType::Vote),
        BrachaAction::Ignore
    );

    let ctx = ctx_with_nr_votes(3, Some(local_peer_id.clone()));
    assert_eq!(
        quorum.check_threshold(&ctx, BrachaMessageType::Vote),
        BrachaAction::Ignore
    );

    let ctx = ctx_with_nr_votes(7, Some(local_peer_id));
    assert_eq!(
        quorum.check_threshold(&ctx, BrachaMessageType::Vote),
        BrachaAction::Deliver
    );
}

#[test]
fn test_change_group() {
    let mut quorum = BrachaQuorum::new();
    quorum.update_group_size(10);
    assert_eq!(quorum.max_faulty_nodes, 3);

    quorum.update_group_size(13);
    assert_eq!(quorum.max_faulty_nodes, 4);
}

#[test]
fn empty_group_never_acts() {
    let quorum = BrachaQuorum::new();
    assert_eq!(quorum.check_threshold(&ctx_with_nr_echoes(5), BrachaMessageType::Echo), BrachaAction::Ignore);
    assert_eq!(
        quorum.check_threshold(&ctx_with_nr_votes(5, Some(PeerId::random())), BrachaMessageType::Vote),
        BrachaAction::Ignore
    );
}

#[test]
fn exact_thresholds_of_a_group_of_ten() {
    let mut quorum = BrachaQuorum::new();
    quorum.update_group_size(10);
    // n - f = 7 echoes are not enough, 8 are.
    assert_eq!(quorum.check_threshold(&ctx_with_nr_echoes(7), BrachaMessageType::Echo), BrachaAction::Ignore);
    // f = 3 votes are not enough to join, 4 are.
    assert_eq!(quorum.check_threshold(&ctx_with_nr_votes(3, None), BrachaMessageType::Vote), BrachaAction::Ignore);
    assert_eq!(quorum.check_threshold(&ctx_with_nr_votes(4, None), BrachaMessageType::Vote), BrachaAction::Vote);
    // With its own vote, 7 votes do not deliver, 8 do.
    let local = PeerId::random();
    assert_eq!(
        quorum.check_threshold(&ctx_with_nr_votes(6, Some(local.clone())), BrachaMessageType::Vote),
        BrachaAction::Ignore
    );
    assert_eq!(
        quorum.check_threshold(&ctx_with_nr_votes(7, Some(local)), BrachaMessageType::Vote),
        BrachaAction::Deliver
    );
}

#[test]
fn basic_quorum_needs_the_whole_cluster() {
    let quorum = BasicQuorum::new(BroadcastProtocolSettings { cluster_size: 3, quorum_threshold_size: 2 });
    assert_eq!(quorum.size, 3);
    assert_eq!(quorum.threshold, 2);
    assert!(!quorum.prepare_threshold(2));
    assert!(quorum.prepare_threshold(3));
    assert!(!quorum.commit_threshold(4));
    assert!(quorum.commit_threshold(3));
}

#[test]
fn echo_vote_quorum_counts_the_phase() {
    let quorum = EchoVoteQuorum::new(BroadcastConfig { cluster_size: 2 });
    assert_eq!(quorum.threshold, 2);
    let header = RawBlockHeader::new(PeerId::random(), 0);
    let raw = RawBlock::new(header, vec![]);
    let hash = raw.hash_with_default_hasher();
    let block = Block::new(raw, hash);
    let ctx = ctx_with_nr_echoes(2);
    assert!(quorum.check_threshold(&ctx, &MessageType::Echo(block.clone())));
    assert!(!quorum.check_threshold(&ctx, &MessageType::Vote(block)));
}
