use ephemera::broadcast::bracha::topology::BroadcastTopology;
use ephemera::broadcast::group::{peer_set, BroadcastGroup};
use ephemera::crypto::{HashType, PeerId};

#[test]
fn new_block_needs_members_in_the_current_group() {
    let mut group = BroadcastGroup::new();
    let a = PeerId::random();
    let b = PeerId::random();
    let hash = HashType::new([1; 32]);
    // The current group is empty: a new block is refused.
    assert!(group.is_empty());
    assert!(!group.check_membership(hash, &a, &a));

    group.add_snapshot(vec![a.clone(), b.clone(), a.clone()]);
    assert_eq!(group.current().len(), 2);
    assert!(group.is_member(1, &a));
    assert!(!group.is_member(0, &a));
    assert!(group.check_membership(hash, &a, &b));
    assert!(!group.check_membership(HashType::new([2; 32]), &a, &PeerId::random()));
}

#[test]
fn known_block_is_checked_against_its_first_group() {
    let mut group = BroadcastGroup::new();
    let a = PeerId::random();
    let b = PeerId::random();
    let c = PeerId::random();
    let hash = HashType::new([3; 32]);
    group.add_snapshot(vec![a.clone(), b.clone()]);
    assert!(group.check_membership(hash, &a, &b));
    // b leaves the group; the block keeps the group it was first seen in.
    group.add_snapshot(vec![a.clone(), c.clone()]);
    assert!(group.check_membership(hash, &a, &b));
    assert!(!group.check_membership(hash, &a, &c));
    // A new block is checked against the current group.
    let fresh = HashType::new([4; 32]);
    assert!(!group.check_membership(fresh, &a, &b));
    assert!(group.check_membership(fresh, &a, &c));
}

#[test]
fn peer_set_drops_repetitions() {
    let a = PeerId::random();
    let b = PeerId::random();
    let set = peer_set(vec![a.clone(), b.clone(), a.clone(), b.clone()]);
    assert_eq!(set, vec![a, b]);
}

#[test]
fn topology_snapshots() {
    let mut topology = BroadcastTopology::new();
    let a = PeerId::random();
    assert!(topology.is_empty());
    topology.add_snapshot(vec![a.clone()]);
    assert!(!topology.is_empty());
    assert!(topology.is_member(1, &a));
    assert!(!topology.is_member(1, &PeerId::random()));
    topology.add_snapshot(vec![]);
    assert!(topology.is_empty());
    assert!(topology.is_member(1, &a));
}
