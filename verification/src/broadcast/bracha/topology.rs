//! Membership snapshots of the cluster for Bracha's broadcast.

use vstd::prelude::*;
use crate::broadcast::group::{
    dedup_peers, peer_set, snapshot_cache_capacity, snapshot_cache_entries,
    snapshot_cache_new, snapshot_cache_pop, snapshot_cache_put, SnapshotCache,
};
use crate::broadcast::{clone_peers, contains_peer, peer_views};
use crate::cache::put_outcome;
use crate::crypto::PeerId;

verus! {

/// How many snapshots a topology keeps.
pub const TOPOLOGY_CACHE_CAPACITY: usize = 1000;

/// Numbered snapshots of the cluster's membership; the last one is current.
pub struct BroadcastTopology {
    current_id: u64,
    topology_snapshots: SnapshotCache,
}

impl BroadcastTopology {
    /// The id of the current snapshot; incremented with each new snapshot.
    pub closed spec fn current_snapshot_id(&self) -> u64 {
        self.current_id
    }

    /// The kept snapshots, as lists of peers without repetitions.
    pub closed spec fn snapshots(&self) -> Map<u64, Seq<Seq<u8>>> {
        snapshot_cache_entries(self.topology_snapshots).map_values(|v: Vec<PeerId>| peer_views(v@))
    }

    pub closed spec fn wf(&self) -> bool {
        &&& snapshot_cache_capacity(self.topology_snapshots) == TOPOLOGY_CACHE_CAPACITY
        &&& snapshot_cache_entries(self.topology_snapshots).dom().finite()
        &&& snapshot_cache_entries(self.topology_snapshots).len() <= TOPOLOGY_CACHE_CAPACITY
    }

    /// A topology without snapshots; the current id is 0.
    pub fn new() -> (r: BroadcastTopology)
        ensures
            r.wf(),
            r.current_snapshot_id() == 0,
            r.snapshots() == Map::<u64, Seq<Seq<u8>>>::empty(),
    {
        let r = BroadcastTopology {
            current_id: 0,
            topology_snapshots: snapshot_cache_new(TOPOLOGY_CACHE_CAPACITY),
        };
        assert(r.snapshots() =~= Map::<u64, Seq<Seq<u8>>>::empty());
        r
    }

    /// Adds a snapshot, which becomes the current one.
    pub fn add_snapshot(&mut self, snapshot: Vec<PeerId>)
        requires
            old(self).wf(),
            old(self).current_snapshot_id() < u64::MAX,
        ensures
            final(self).wf(),
            final(self).current_snapshot_id() == old(self).current_snapshot_id() + 1,
            put_outcome(
                old(self).snapshots(),
                final(self).snapshots(),
                TOPOLOGY_CACHE_CAPACITY as nat,
                final(self).current_snapshot_id(),
                dedup_peers(peer_views(snapshot@)),
            ),
    {
        self.current_id = self.current_id + 1;
        let set = peer_set(snapshot);
        let ghost before = snapshot_cache_entries(self.topology_snapshots);
        let ghost sv = set;
        let _ = snapshot_cache_put(&mut self.topology_snapshots, self.current_id, set);
        proof {
            let after = snapshot_cache_entries(self.topology_snapshots);
            let views_before = before.map_values(|v: Vec<PeerId>| peer_views(v@));
            assert(views_before.dom() =~= before.dom());
            if before.contains_key(self.current_id) || before.len() < TOPOLOGY_CACHE_CAPACITY {
                assert(self.snapshots() =~= views_before.insert(self.current_id, peer_views(sv@)));
            } else {
                let e = choose|e: u64| #[trigger] before.contains_key(e) && after == before.remove(e).insert(self.current_id, sv);
                assert(self.snapshots() =~= views_before.remove(e).insert(self.current_id, peer_views(sv@)));
                assert(views_before.contains_key(e));
            }
        }
    }

    /// A copy of the kept snapshot `id`, marking it recently used.
    fn snapshot(&mut self, id: u64) -> (r: Option<Vec<PeerId>>)
        requires
            old(self).wf(),
        ensures
            final(self).wf(),
            final(self).current_snapshot_id() == old(self).current_snapshot_id(),
            final(self).snapshots() == old(self).snapshots(),
            r matches Some(v) ==> old(self).snapshots().contains_key(id) && peer_views(v@) == old(
                self,
            ).snapshots()[id],
            r is None <==> !old(self).snapshots().contains_key(id),
    {
        let ghost before = snapshot_cache_entries(self.topology_snapshots);
        match snapshot_cache_pop(&mut self.topology_snapshots, id) {
            Some(v) => {
                let copy = clone_peers(&v);
                let _ = snapshot_cache_put(&mut self.topology_snapshots, id, v);
                proof {
                    assert(snapshot_cache_entries(self.topology_snapshots) =~= before);
                    assert(self.snapshots() =~= old(self).snapshots());
                }
                Some(copy)
            },
            None => {
                proof {
                    assert(snapshot_cache_entries(self.topology_snapshots) =~= before);
                    assert(self.snapshots() =~= old(self).snapshots());
                }
                None
            },
        }
    }

    /// Whether `peer_id` is in the kept snapshot `id` (false when it is not kept).
    pub fn is_member(&mut self, id: u64, peer_id: &PeerId) -> (r: bool)
        requires
            old(self).wf(),
        ensures
            final(self).wf(),
            final(self).current_snapshot_id() == old(self).current_snapshot_id(),
            final(self).snapshots() == old(self).snapshots(),
            r == (old(self).snapshots().contains_key(id) && old(self).snapshots()[id].contains(
                peer_id@,
            )),
    {
        match self.snapshot(id) {
            Some(s) => contains_peer(&s, peer_id),
            None => false,
        }
    }

    /// Whether the current snapshot is missing or empty.
    pub fn is_empty(&mut self) -> (r: bool)
        requires
            old(self).wf(),
        ensures
            final(self).wf(),
            final(self).current_snapshot_id() == old(self).current_snapshot_id(),
            final(self).snapshots() == old(self).snapshots(),
            r == (!old(self).snapshots().contains_key(old(self).current_snapshot_id()) || old(
                self,
            ).snapshots()[old(self).current_snapshot_id()].len() == 0),
    {
        match self.snapshot(self.current_id) {
            Some(s) => s.len() == 0,
            None => true,
        }
    }
}

} // verus!
