//! The broadcast group: snapshots of the cluster's membership, and which snapshot each
//! block is broadcast in.

use vstd::prelude::*;
use std::collections::hash_map::RandomState;
use lru::LruCache;
use crate::broadcast::{clone_peers, contains_peer, insert_peer, peer_views, with_peer};
use crate::cache::{lemma_put_outcome, put_outcome};
use crate::crypto::{HashBytes, HashType, PeerId};

verus! {

// ---------------------------------------------------------------------------
// Caches (`lru::LruCache`).
// ---------------------------------------------------------------------------

/// Membership snapshots, by snapshot id.
pub type SnapshotCache = LruCache<u64, Vec<PeerId>, RandomState>;

/// The snapshots held by a snapshot cache.
pub uninterp spec fn snapshot_cache_entries(c: SnapshotCache) -> Map<u64, Vec<PeerId>>;

/// The capacity that a snapshot cache was made with.
pub uninterp spec fn snapshot_cache_capacity(c: SnapshotCache) -> nat;

/// No snapshots at all.
pub open spec fn no_snapshots() -> Map<u64, Vec<PeerId>> {
    Map::empty()
}

/// `LruCache::with_hasher` with capacity `cap` and std's `RandomState`: an empty cache.
#[verifier::external_body]
pub(crate) fn snapshot_cache_new(cap: usize) -> (r: SnapshotCache)
    requires
        cap > 0,
    ensures
        snapshot_cache_entries(r) == no_snapshots(),
        snapshot_cache_capacity(r) == cap,
        snapshot_cache_entries(r).dom().finite(),
{
    match std::num::NonZeroUsize::new(cap) {
        Some(c) => LruCache::with_hasher(c, RandomState::new()),
        None => LruCache::with_hasher(std::num::NonZeroUsize::MIN, RandomState::new()),
    }
}

/// `LruCache::put`: replaces the value of a present key (returning the old value), or
/// inserts a new key, dropping one present entry when the cache is full.
#[verifier::external_body]
pub(crate) fn snapshot_cache_put(c: &mut SnapshotCache, k: u64, v: Vec<PeerId>) -> (r: Option<
    Vec<PeerId>,
>)
    ensures
        put_outcome(
            snapshot_cache_entries(*old(c)),
            snapshot_cache_entries(*final(c)),
            snapshot_cache_capacity(*old(c)),
            k,
            v,
        ),
        snapshot_cache_capacity(*final(c)) == snapshot_cache_capacity(*old(c)),
        snapshot_cache_entries(*final(c)).dom().finite(),
        snapshot_cache_entries(*final(c)).len() <= snapshot_cache_capacity(*final(c)),
        snapshot_cache_entries(*old(c)).contains_key(k) ==> r == Some(
            snapshot_cache_entries(*old(c))[k],
        ),
        !snapshot_cache_entries(*old(c)).contains_key(k) ==> r is None,
{
    c.put(k, v)
}

/// `LruCache::pop`: removes the key and returns its value.
#[verifier::external_body]
pub(crate) fn snapshot_cache_pop(c: &mut SnapshotCache, k: u64) -> (r: Option<Vec<PeerId>>)
    ensures
        snapshot_cache_entries(*final(c)) == snapshot_cache_entries(*old(c)).remove(k),
        snapshot_cache_capacity(*final(c)) == snapshot_cache_capacity(*old(c)),
        snapshot_cache_entries(*final(c)).dom().finite(),
        snapshot_cache_entries(*final(c)).len() <= snapshot_cache_capacity(*final(c)),
        snapshot_cache_entries(*old(c)).contains_key(k) ==> r == Some(
            snapshot_cache_entries(*old(c))[k],
        ),
        !snapshot_cache_entries(*old(c)).contains_key(k) ==> r is None,
{
    c.pop(&k)
}

/// Snapshot ids of blocks, by block hash.
pub type BlockGroupCache = LruCache<HashBytes, u64, RandomState>;

/// The snapshot ids held by a block group cache, by block hash.
pub uninterp spec fn block_group_cache_entries(c: BlockGroupCache) -> Map<Seq<u8>, u64>;

/// The capacity that a block group cache was made with.
pub uninterp spec fn block_group_cache_capacity(c: BlockGroupCache) -> nat;

/// No block groups at all.
pub open spec fn no_block_groups() -> Map<Seq<u8>, u64> {
    Map::empty()
}

/// `LruCache::with_hasher` with capacity `cap` and std's `RandomState`: an empty cache.
#[verifier::external_body]
fn block_group_cache_new(cap: usize) -> (r: BlockGroupCache)
    requires
        cap > 0,
    ensures
        block_group_cache_entries(r) == no_block_groups(),
        block_group_cache_capacity(r) == cap,
        block_group_cache_entries(r).dom().finite(),
{
    match std::num::NonZeroUsize::new(cap) {
        Some(c) => LruCache::with_hasher(c, RandomState::new()),
        None => LruCache::with_hasher(std::num::NonZeroUsize::MIN, RandomState::new()),
    }
}

/// `LruCache::put`: replaces the value of a present key (returning the old value), or
/// inserts a new key, dropping one present entry when the cache is full.
#[verifier::external_body]
fn block_group_cache_put(c: &mut BlockGroupCache, k: HashBytes, v: u64) -> (r: Option<u64>)
    ensures
        put_outcome(
            block_group_cache_entries(*old(c)),
            block_group_cache_entries(*final(c)),
            block_group_cache_capacity(*old(c)),
            k@,
            v,
        ),
        block_group_cache_capacity(*final(c)) == block_group_cache_capacity(*old(c)),
        block_group_cache_entries(*final(c)).dom().finite(),
        block_group_cache_entries(*final(c)).len() <= block_group_cache_capacity(*final(c)),
        block_group_cache_entries(*old(c)).contains_key(k@) ==> r == Some(
            block_group_cache_entries(*old(c))[k@],
        ),
        !block_group_cache_entries(*old(c)).contains_key(k@) ==> r is None,
{
    c.put(k, v)
}

/// `LruCache::pop`: removes the key and returns its value.
#[verifier::external_body]
fn block_group_cache_pop(c: &mut BlockGroupCache, k: &HashBytes) -> (r: Option<u64>)
    ensures
        block_group_cache_entries(*final(c)) == block_group_cache_entries(*old(c)).remove(k@),
        block_group_cache_capacity(*final(c)) == block_group_cache_capacity(*old(c)),
        block_group_cache_entries(*final(c)).dom().finite(),
        block_group_cache_entries(*final(c)).len() <= block_group_cache_capacity(*final(c)),
        block_group_cache_entries(*old(c)).contains_key(k@) ==> r == Some(
            block_group_cache_entries(*old(c))[k@],
        ),
        !block_group_cache_entries(*old(c)).contains_key(k@) ==> r is None,
{
    c.pop(k)
}

/// `LruCache::contains`: whether the key is present (the cache is not changed).
#[verifier::external_body]
fn block_group_cache_contains(c: &BlockGroupCache, k: &HashBytes) -> (r: bool)
    ensures
        r == block_group_cache_entries(*c).contains_key(k@),
{
    c.contains(k)
}

/// How many snapshots and block groups a broadcast group keeps.
pub const GROUP_CACHE_CAPACITY: usize = 100;

// ---------------------------------------------------------------------------
// Sets of peers.
// ---------------------------------------------------------------------------

/// The peers of a list, each once, in order of first appearance.
pub open spec fn dedup_peers(s: Seq<Seq<u8>>) -> Seq<Seq<u8>>
    decreases s.len(),
{
    if s.len() == 0 {
        Seq::empty()
    } else {
        with_peer(dedup_peers(s.drop_last()), s.last())
    }
}

/// A list of peers without repetitions, as a set of peers.
pub fn peer_set(peers: Vec<PeerId>) -> (r: Vec<PeerId>)
    ensures
        peer_views(r@) == dedup_peers(peer_views(peers@)),
        peer_views(r@).no_duplicates(),
        forall|p: Seq<u8>| peer_views(r@).contains(p) <==> peer_views(peers@).contains(p),
{
    let ghost pv = peer_views(peers@);
    let mut out: Vec<PeerId> = Vec::new();
    let mut i: usize = 0;
    while i < peers.len()
        invariant
            i <= peers@.len(),
            pv == peer_views(peers@),
            peer_views(out@) == dedup_peers(pv.take(i as int)),
            peer_views(out@).no_duplicates(),
            forall|p: Seq<u8>| peer_views(out@).contains(p) <==> pv.take(i as int).contains(p),
        decreases peers@.len() - i,
    {
        proof {
            crate::broadcast::lemma_with_peer_no_duplicates(peer_views(out@), pv[i as int]);
            assert(pv.take(i + 1).drop_last() =~= pv.take(i as int));
            assert(pv.take(i + 1).last() == pv[i as int]);
            assert forall|p: Seq<u8>| pv.take(i + 1).contains(p) <==> (pv.take(i as int).contains(p)
                || p == pv[i as int]) by {
                if pv.take(i + 1).contains(p) {
                    let j = choose|j: int| 0 <= j < i + 1 && #[trigger] pv.take(i + 1)[j] == p;
                    if j < i {
                        assert(pv.take(i as int)[j] == p);
                    }
                }
                if pv.take(i as int).contains(p) {
                    let j = choose|j: int| 0 <= j < i && #[trigger] pv.take(i as int)[j] == p;
                    assert(pv.take(i + 1)[j] == p);
                }
                if p == pv[i as int] {
                    assert(pv.take(i + 1)[i as int] == p);
                }
            }
        }
        let ghost out_before = peer_views(out@);
        assert(pv[i as int] == peers@[i as int]@);
        insert_peer(&mut out, peers[i].clone());
        proof {
            assert(peer_views(out@) == with_peer(out_before, pv[i as int]));
            assert forall|p: Seq<u8>| peer_views(out@).contains(p) <==> pv.take(i + 1).contains(p) by {
                assert(out_before.contains(p) <==> pv.take(i as int).contains(p));
            }
        }
        i = i + 1;
    }
    assert(pv.take(peers@.len() as int) =~= pv);
    out
}

// ---------------------------------------------------------------------------
// The broadcast group.
// ---------------------------------------------------------------------------

/// Membership snapshots of the cluster and the snapshot of each block.
pub struct BroadcastGroup {
    /// The id of the current snapshot; incremented with each new snapshot.
    current_id: u64,
    /// Recent snapshots.
    snapshots: SnapshotCache,
    /// The snapshot that each recent block is broadcast in.
    block_groups: BlockGroupCache,
}

impl BroadcastGroup {
    /// The id of the current snapshot; incremented with each new snapshot.
    pub closed spec fn current_snapshot_id(&self) -> u64 {
        self.current_id
    }

    /// The kept snapshots, as lists of peers without repetitions.
    pub closed spec fn snapshots(&self) -> Map<u64, Seq<Seq<u8>>> {
        snapshot_cache_entries(self.snapshots).map_values(|v: Vec<PeerId>| peer_views(v@))
    }

    /// The snapshot of each recent block, by block hash.
    pub closed spec fn block_groups(&self) -> Map<Seq<u8>, u64> {
        block_group_cache_entries(self.block_groups)
    }

    /// The current snapshot is kept; snapshots are sets; the caches hold at most their
    /// capacity.
    pub closed spec fn wf(&self) -> bool {
        &&& snapshot_cache_capacity(self.snapshots) == GROUP_CACHE_CAPACITY
        &&& snapshot_cache_entries(self.snapshots).dom().finite()
        &&& snapshot_cache_entries(self.snapshots).len() <= GROUP_CACHE_CAPACITY
        &&& block_group_cache_capacity(self.block_groups) == GROUP_CACHE_CAPACITY
        &&& block_group_cache_entries(self.block_groups).dom().finite()
        &&& block_group_cache_entries(self.block_groups).len() <= GROUP_CACHE_CAPACITY
        &&& self.snapshots().contains_key(self.current_id)
        &&& forall|k: u64| #[trigger] self.snapshots().contains_key(k) ==> self.snapshots()[k].no_duplicates()
    }

    /// Whether `peer` is in the kept snapshot `id`.
    pub open spec fn member(&self, id: u64, peer: Seq<u8>) -> bool {
        self.snapshots().contains_key(id) && self.snapshots()[id].contains(peer)
    }

    /// A group whose current snapshot (id 0) is empty.
    pub fn new() -> (r: BroadcastGroup)
        ensures
            r.wf(),
            r.current_snapshot_id() == 0,
            r.snapshots() == Map::<u64, Seq<Seq<u8>>>::empty().insert(0, Seq::empty()),
            r.block_groups() == Map::<Seq<u8>, u64>::empty(),
    {
        let mut snapshots = snapshot_cache_new(GROUP_CACHE_CAPACITY);
        let empty: Vec<PeerId> = Vec::new();
        let ghost ev = empty;
        let _ = snapshot_cache_put(&mut snapshots, 0, empty);
        let r = BroadcastGroup {
            current_id: 0,
            snapshots,
            block_groups: block_group_cache_new(GROUP_CACHE_CAPACITY),
        };
        proof {
            assert(snapshot_cache_entries(r.snapshots) == no_snapshots().insert(0, ev));
            assert(peer_views(ev@) =~= Seq::<Seq<u8>>::empty());
            assert(r.snapshots() =~= Map::<u64, Seq<Seq<u8>>>::empty().insert(0, Seq::empty()));
            assert(Seq::<Seq<u8>>::empty().no_duplicates());
        }
        r
    }

    /// Adds a snapshot, which becomes the current one.
    pub fn add_snapshot(&mut self, snapshot: Vec<PeerId>)
        requires
            old(self).wf(),
            old(self).current_snapshot_id() < u64::MAX,
        ensures
            final(self).wf(),
            final(self).current_snapshot_id() == old(self).current_snapshot_id() + 1,
            put_outcome(
                old(self).snapshots(),
                final(self).snapshots(),
                GROUP_CACHE_CAPACITY as nat,
                final(self).current_snapshot_id(),
                dedup_peers(peer_views(snapshot@)),
            ),
            final(self).block_groups() == old(self).block_groups(),
    {
        self.current_id = self.current_id + 1;
        let set = peer_set(snapshot);
        let ghost before = snapshot_cache_entries(self.snapshots);
        let ghost sv = set;
        let _ = snapshot_cache_put(&mut self.snapshots, self.current_id, set);
        proof {
            let after = snapshot_cache_entries(self.snapshots);
            lemma_put_outcome(before, after, GROUP_CACHE_CAPACITY as nat, self.current_id, sv);
            let views_before = before.map_values(|v: Vec<PeerId>| peer_views(v@));
            assert(views_before.dom() =~= before.dom());
            if before.contains_key(self.current_id) || before.len() < GROUP_CACHE_CAPACITY {
                assert(self.snapshots() =~= views_before.insert(self.current_id, peer_views(sv@)));
            } else {
                let e = choose|e: u64| #[trigger] before.contains_key(e) && after == before.remove(e).insert(self.current_id, sv);
                assert(self.snapshots() =~= views_before.remove(e).insert(self.current_id, peer_views(sv@)));
                assert(views_before.contains_key(e));
            }
        }
    }

    /// A copy of the kept snapshot `id`, marking it recently used.
    fn snapshot(&mut self, id: u64) -> (r: Option<Vec<PeerId>>)
        requires
            old(self).wf(),
        ensures
            final(self).wf(),
            final(self).current_snapshot_id() == old(self).current_snapshot_id(),
            final(self).snapshots() == old(self).snapshots(),
            final(self).block_groups() == old(self).block_groups(),
            r matches Some(v) ==> old(self).snapshots().contains_key(id) && peer_views(v@) == old(
                self,
            ).snapshots()[id],
            r is None <==> !old(self).snapshots().contains_key(id),
    {
        let ghost before = snapshot_cache_entries(self.snapshots);
        match snapshot_cache_pop(&mut self.snapshots, id) {
            Some(v) => {
                let copy = clone_peers(&v);
                let _ = snapshot_cache_put(&mut self.snapshots, id, v);
                proof {
                    assert(snapshot_cache_entries(self.snapshots) =~= before);
                    assert(self.snapshots() =~= old(self).snapshots());
                }
                Some(copy)
            },
            None => {
                proof {
                    assert(snapshot_cache_entries(self.snapshots) =~= before);
                    assert(self.snapshots() =~= old(self).snapshots());
                }
                None
            },
        }
    }

    /// Whether `peer_id` is in the kept snapshot `id` (false when it is not kept).
    pub fn is_member(&mut self, id: u64, peer_id: &PeerId) -> (r: bool)
        requires
            old(self).wf(),
        ensures
            final(self).wf(),
            final(self).current_snapshot_id() == old(self).current_snapshot_id(),
            final(self).snapshots() == old(self).snapshots(),
            final(self).block_groups() == old(self).block_groups(),
            r == old(self).member(id, peer_id@),
    {
        match self.snapshot(id) {
            Some(s) => contains_peer(&s, peer_id),
            None => false,
        }
    }

    /// Whether the current snapshot is empty.
    pub fn is_empty(&mut self) -> (r: bool)
        requires
            old(self).wf(),
        ensures
            final(self).wf(),
            final(self).current_snapshot_id() == old(self).current_snapshot_id(),
            final(self).snapshots() == old(self).snapshots(),
            final(self).block_groups() == old(self).block_groups(),
            r == (old(self).snapshots()[old(self).current_snapshot_id()].len() == 0),
    {
        match self.snapshot(self.current_id) {
            Some(s) => s.len() == 0,
            None => true,
        }
    }

    /// A copy of the current snapshot.
    pub fn current(&mut self) -> (r: Vec<PeerId>)
        requires
            old(self).wf(),
        ensures
            final(self).wf(),
            final(self).current_snapshot_id() == old(self).current_snapshot_id(),
            final(self).snapshots() == old(self).snapshots(),
            final(self).block_groups() == old(self).block_groups(),
            peer_views(r@) == old(self).snapshots()[old(self).current_snapshot_id()],
    {
        match self.snapshot(self.current_id) {
            Some(s) => s,
            None => Vec::new(),
        }
    }

    /// The snapshot of the block `hash`, marking it recently used.
    fn block_group(&mut self, hash: &HashType) -> (r: Option<u64>)
        requires
            old(self).wf(),
        ensures
            final(self).wf(),
            final(self).current_snapshot_id() == old(self).current_snapshot_id(),
            final(self).snapshots() == old(self).snapshots(),
            final(self).block_groups() == old(self).block_groups(),
            r matches Some(v) ==> old(self).block_groups().contains_key(hash@) && v == old(
                self,
            ).block_groups()[hash@],
            r is None <==> !old(self).block_groups().contains_key(hash@),
    {
        let ghost before = block_group_cache_entries(self.block_groups);
        match block_group_cache_pop(&mut self.block_groups, &hash.0) {
            Some(v) => {
                let _ = block_group_cache_put(&mut self.block_groups, hash.0, v);
                proof {
                    assert(block_group_cache_entries(self.block_groups) =~= before);
                }
                Some(v)
            },
            None => {
                proof {
                    assert(block_group_cache_entries(self.block_groups) =~= before);
                }
                None
            },
        }
    }

    /// The snapshot that a message about the block `hash` is checked against: the one
    /// the block was first seen in, or the current one for a new block.
    pub open spec fn group_of(&self, hash: Seq<u8>) -> u64 {
        if self.block_groups().contains_key(hash) {
            self.block_groups()[hash]
        } else {
            self.current_snapshot_id()
        }
    }

    /// Whether the group admits a message about the block `hash`, made by `creator` and
    /// sent by `sender`: a new block needs a non-empty current snapshot, and both peers
    /// must be in the block's snapshot.
    pub open spec fn admits(&self, hash: Seq<u8>, creator: Seq<u8>, sender: Seq<u8>) -> bool {
        let group = self.group_of(hash);
        &&& self.block_groups().contains_key(hash) || self.snapshots()[self.current_snapshot_id()].len() > 0
        &&& self.member(group, sender)
        &&& self.member(group, creator)
    }

    /// Only members are admitted: a message that the group admits was made and sent by
    /// peers of the snapshot that the block is checked against, and a block seen for the
    /// first time is admitted only while that (current) snapshot has members.
    pub proof fn lemma_admitted_peers_are_members(
        &self,
        hash: Seq<u8>,
        creator: Seq<u8>,
        sender: Seq<u8>,
    )
        requires
            self.admits(hash, creator, sender),
        ensures
            self.snapshots().contains_key(self.group_of(hash)),
            self.snapshots()[self.group_of(hash)].contains(creator),
            self.snapshots()[self.group_of(hash)].contains(sender),
            !self.block_groups().contains_key(hash) ==> self.group_of(hash)
                == self.current_snapshot_id() && self.snapshots()[self.current_snapshot_id()].len()
                > 0,
    {
    }

    /// Whether a message about the block `hash`, made by `block_creator` and sent by
    /// `message_sender`, comes from the group.  A block seen for the first time is
    /// refused while the current snapshot is empty (for example while the node is
    /// catching up).  The sender and the creator must both be in the snapshot the block
    /// was first seen in (the current one for a new block), which the block keeps.
    pub fn check_membership(
        &mut self,
        hash: HashType,
        block_creator: &PeerId,
        message_sender: &PeerId,
    ) -> (r: bool)
        requires
            old(self).wf(),
        ensures
            final(self).wf(),
            final(self).current_snapshot_id() == old(self).current_snapshot_id(),
            final(self).snapshots() == old(self).snapshots(),
            ({
                let known = old(self).block_groups().contains_key(hash@);
                let group = if known {
                    old(self).block_groups()[hash@]
                } else {
                    old(self).current_snapshot_id()
                };
                let current = old(self).snapshots()[old(self).current_snapshot_id()];
                &&& r ==> old(self).member(group, block_creator@)
                &&& r ==> old(self).member(group, message_sender@)
                &&& r ==> known || current.len() > 0
                &&& old(self).member(group, block_creator@) && old(self).member(group, message_sender@)
                    && (known || current.len() > 0) ==> r
            }),
            ({
                let accepted = old(self).admits(hash@, block_creator@, message_sender@);
                &&& r == accepted
                &&& !accepted ==> final(self).block_groups() == old(self).block_groups()
                &&& accepted ==> put_outcome(
                    old(self).block_groups(),
                    final(self).block_groups(),
                    GROUP_CACHE_CAPACITY as nat,
                    hash@,
                    old(self).group_of(hash@),
                )
            }),
    {
        if !block_group_cache_contains(&self.block_groups, &hash.0) {
            if self.is_empty() {
                return false;
            }
        }
        let membership_id = match self.block_group(&hash) {
            Some(id) => id,
            None => self.current_id,
        };
        if !self.is_member(membership_id, message_sender) {
            return false;
        }
        if !self.is_member(membership_id, block_creator) {
            return false;
        }
        let _ = block_group_cache_put(&mut self.block_groups, hash.0, membership_id);
        true
    }
}

} // verus!
