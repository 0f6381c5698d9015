//! The per-node state machine of the three phase broadcast.
//!
//! PRE-PREPARE: a node that receives a message from a client prepares it and sends a
//! PREPARE to all other nodes.
//! PREPARE: a node that receives a PREPARE adds the sender and itself to the nodes
//! that prepared the message and sends a PREPARE on.  When a quorum prepared, the
//! message is prepared; the node that received it from the client then sends a COMMIT.
//! COMMIT: a node that receives a COMMIT adds the sender and itself to the nodes that
//! committed; once the message is prepared and a quorum committed, it is committed.
//!
//! A node only makes progress when a message arrives; messages of different
//! broadcasts are independent; peers are not authenticated here.
//!
//! The hooks of a [`BroadcastCallBack`] are called on the way.  Each step that follows
//! a hook is a function of its own that takes the hook's result.

use vstd::prelude::*;
use vstd::string::StringExecFns;
use std::collections::hash_map::RandomState;
use lru::LruCache;
use crate::broadcast::quorum::Quorum;
use crate::broadcast_protocol::request::{
    timestamp_now, AckMsg, CommitMsg, PhaseView, PrePrepareMsg, PrepareMsg, RbMsg, RbMsgView,
    ReliableBroadcast,
};
use crate::broadcast_protocol::{BroadcastCallBack, EphemeraSigningRequest, Kind, ProtocolResponse};
use crate::bytes::clone_bytes;
use crate::cache::{lemma_put_outcome, lemma_put_outcome_view, put_outcome, view_values};

verus! {

// ---------------------------------------------------------------------------
// Sets of node names, held as lists without repetitions.
// ---------------------------------------------------------------------------

/// The texts of a list of names.
pub open spec fn names_view(v: Seq<String>) -> Seq<Seq<char>> {
    v.map_values(|s: String| s@)
}

/// `s` with `n` added, unless it is there.
pub open spec fn with_name(s: Seq<Seq<char>>, n: Seq<char>) -> Seq<Seq<char>> {
    if s.contains(n) {
        s
    } else {
        s.push(n)
    }
}

/// Adding a name keeps a list free of repetitions, and the name is then in it.
pub proof fn lemma_with_name(s: Seq<Seq<char>>, n: Seq<char>)
    requires
        s.no_duplicates(),
    ensures
        with_name(s, n).no_duplicates(),
        with_name(s, n).contains(n),
        forall|q: Seq<char>| s.contains(q) ==> with_name(s, n).contains(q),
{
    if !s.contains(n) {
        let t = s.push(n);
        assert(t[t.len() - 1] == n);
        assert forall|i: int, j: int| 0 <= i < t.len() && 0 <= j < t.len() && i != j implies t[i]
            != t[j] by {
            if i < s.len() && j < s.len() {
                assert(t[i] == s[i] && t[j] == s[j]);
            } else if i == s.len() {
                assert(t[j] == s[j]);
            } else {
                assert(t[i] == s[i]);
            }
        }
        assert forall|q: Seq<char>| s.contains(q) implies t.contains(q) by {
            let k = choose|k: int| 0 <= k < s.len() && s[k] == q;
            assert(t[k] == q);
        }
    }
}

/// Whether the list holds the name `n`.
pub fn contains_name(v: &Vec<String>, n: &String) -> (r: bool)
    ensures
        r == names_view(v@).contains(n@),
{
    let mut i: usize = 0;
    while i < v.len()
        invariant
            i <= v@.len(),
            forall|j: int| 0 <= j < i ==> v@[j]@ != n@,
        decreases v@.len() - i,
    {
        if v[i] == *n {
            assert(names_view(v@)[i as int] == n@);
            return true;
        }
        i = i + 1;
    }
    assert forall|k: int| 0 <= k < names_view(v@).len() implies names_view(v@)[k] != n@ by {
        assert(names_view(v@)[k] == v@[k]@);
    }
    false
}

/// Adds a name unless it is there.
pub fn insert_name(v: &mut Vec<String>, n: String)
    ensures
        names_view(final(v)@) == with_name(names_view(old(v)@), n@),
{
    if !contains_name(v, &n) {
        let ghost nv = n@;
        v.push(n);
        assert(names_view(v@) =~= names_view(old(v)@).push(nv));
    }
}

/// Copies a list of names.
pub fn clone_names(v: &Vec<String>) -> (r: Vec<String>)
    ensures
        names_view(r@) == names_view(v@),
{
    let mut out: Vec<String> = Vec::new();
    let mut i: usize = 0;
    while i < v.len()
        invariant
            i <= v@.len(),
            out@.len() == i,
            forall|j: int| 0 <= j < i ==> out@[j]@ == v@[j]@,
        decreases v@.len() - i,
    {
        out.push(v[i].clone());
        i = i + 1;
    }
    assert(names_view(out@) =~= names_view(v@));
    out
}

// ---------------------------------------------------------------------------
// The state of one broadcast.
// ---------------------------------------------------------------------------

/// A point in time of the monotonic clock (`std::time::Instant`).
#[verifier::external_type_specification]
#[verifier::external_body]
pub struct ExInstant(std::time::Instant);

/// `std::time::Instant::now`.  Nothing is claimed of the value.
#[verifier::external_body]
fn instant_now() -> (r: std::time::Instant) {
    std::time::Instant::now()
}

/// When a broadcast started on this node.
#[derive(Debug, Clone, Copy)]
pub struct ConsensusTimestamp(pub std::time::Instant);

impl ConsensusTimestamp {
    /// The current time.
    pub fn now() -> ConsensusTimestamp {
        ConsensusTimestamp(instant_now())
    }
}

/// The abstract state of one broadcast.
pub struct ContextView {
    pub id: Seq<char>,
    pub original_sender: bool,
    pub local: Seq<char>,
    pub prepare: Seq<Seq<char>>,
    pub commit: Seq<Seq<char>>,
    pub prepared: bool,
    pub committed: bool,
}

impl ContextView {
    /// The two node lists are sets, and only a prepared broadcast can be committed.
    pub open spec fn wf(self) -> bool {
        &&& self.prepare.no_duplicates()
        &&& self.commit.no_duplicates()
        &&& self.committed ==> self.prepared
    }

    pub open spec fn add_prepare(self, n: Seq<char>) -> ContextView {
        ContextView { prepare: with_name(self.prepare, n), ..self }
    }

    pub open spec fn add_commit(self, n: Seq<char>) -> ContextView {
        ContextView { commit: with_name(self.commit, n), ..self }
    }

    pub open spec fn set_prepared(self) -> ContextView {
        ContextView { prepared: true, ..self }
    }

    pub open spec fn set_committed(self) -> ContextView {
        ContextView { committed: true, ..self }
    }
}

/// `b` is `a` later: the same broadcast of the same node, with no node forgotten
/// and no flag cleared.
pub open spec fn grows(a: ContextView, b: ContextView) -> bool {
    &&& a.id == b.id
    &&& a.local == b.local
    &&& a.original_sender == b.original_sender
    &&& a.prepared ==> b.prepared
    &&& a.committed ==> b.committed
    &&& forall|n: Seq<char>| a.prepare.contains(n) ==> #[trigger] b.prepare.contains(n)
    &&& forall|n: Seq<char>| a.commit.contains(n) ==> #[trigger] b.commit.contains(n)
}

/// Adding a name keeps the names that were there.
pub proof fn lemma_with_name_keeps(s: Seq<Seq<char>>, n: Seq<char>)
    ensures
        forall|q: Seq<char>| s.contains(q) ==> #[trigger] with_name(s, n).contains(q),
        with_name(s, n).contains(n),
{
    if !s.contains(n) {
        assert forall|q: Seq<char>| s.contains(q) implies #[trigger] with_name(s, n).contains(q) by {
            let k = choose|k: int| 0 <= k < s.len() && s[k] == q;
            assert(s.push(n)[k] == q);
        }
        assert(s.push(n)[s.len() as int] == n);
    }
}

/// Each step of a broadcast's state only adds to it.
pub proof fn lemma_steps_grow(a: ContextView, n: Seq<char>)
    ensures
        grows(a, a),
        grows(a, a.add_prepare(n)),
        grows(a, a.add_commit(n)),
        grows(a, a.set_prepared()),
        grows(a, a.set_committed()),
{
    lemma_with_name_keeps(a.prepare, n);
    lemma_with_name_keeps(a.commit, n);
}

/// Growing is transitive.
pub proof fn lemma_grows_trans(a: ContextView, b: ContextView, c: ContextView)
    requires
        grows(a, b),
        grows(b, c),
    ensures
        grows(a, c),
{
    assert forall|n: Seq<char>| a.prepare.contains(n) implies #[trigger] c.prepare.contains(n) by {
        assert(b.prepare.contains(n));
    }
    assert forall|n: Seq<char>| a.commit.contains(n) implies #[trigger] c.commit.contains(n) by {
        assert(b.commit.contains(n));
    }
}

/// A broadcast that nobody prepared or committed yet.
pub open spec fn fresh_context(id: Seq<char>, original_sender: bool, local: Seq<char>) -> ContextView {
    ContextView {
        id,
        original_sender,
        local,
        prepare: Seq::empty(),
        commit: Seq::empty(),
        prepared: false,
        committed: false,
    }
}

/// The state of one broadcast on this node.
#[derive(Debug)]
pub struct ConsensusContext {
    /// The id of the broadcast.
    pub id: String,
    pub timestamp: ConsensusTimestamp,
    /// Whether this node received the message from the client.
    pub original_sender: bool,
    /// This node.
    pub local_address: String,
    /// The nodes that prepared the message.
    pub prepare: Vec<String>,
    /// The nodes that committed the message.
    pub commit: Vec<String>,
    /// A quorum prepared the message.
    pub prepared: bool,
    /// A quorum committed the message.
    pub committed: bool,
}

impl View for ConsensusContext {
    type V = ContextView;

    open spec fn view(&self) -> ContextView {
        ContextView {
            id: self.id@,
            original_sender: self.original_sender,
            local: self.local_address@,
            prepare: names_view(self.prepare@),
            commit: names_view(self.commit@),
            prepared: self.prepared,
            committed: self.committed,
        }
    }
}

impl Clone for ConsensusContext {
    fn clone(&self) -> (r: Self)
        ensures
            r@ == self@,
    {
        ConsensusContext {
            id: self.id.clone(),
            timestamp: self.timestamp,
            original_sender: self.original_sender,
            local_address: self.local_address.clone(),
            prepare: clone_names(&self.prepare),
            commit: clone_names(&self.commit),
            prepared: self.prepared,
            committed: self.committed,
        }
    }
}

impl ConsensusContext {
    pub fn new(id: String, original_sender: bool, local_address: String) -> (r: ConsensusContext)
        ensures
            r@ == fresh_context(id@, original_sender, local_address@),
    {
        let r = ConsensusContext {
            id,
            timestamp: ConsensusTimestamp::now(),
            original_sender,
            local_address,
            prepare: Vec::new(),
            commit: Vec::new(),
            prepared: false,
            committed: false,
        };
        assert(r@.prepare =~= Seq::<Seq<char>>::empty());
        assert(r@.commit =~= Seq::<Seq<char>>::empty());
        r
    }

    fn add_prepare(&mut self, peer: String)
        requires
            old(self)@.wf(),
        ensures
            final(self)@ == old(self)@.add_prepare(peer@),
            final(self)@.wf(),
    {
        proof {
            lemma_with_name(self@.prepare, peer@);
        }
        insert_name(&mut self.prepare, peer);
    }

    fn add_commit(&mut self, peer: String)
        requires
            old(self)@.wf(),
        ensures
            final(self)@ == old(self)@.add_commit(peer@),
            final(self)@.wf(),
    {
        proof {
            lemma_with_name(self@.commit, peer@);
        }
        insert_name(&mut self.commit, peer);
    }
}

// ---------------------------------------------------------------------------
// The cache of broadcasts (`lru::LruCache`).
// ---------------------------------------------------------------------------

/// The broadcasts that a node keeps, by id.
pub type ConsensusCache = LruCache<String, ConsensusContext, RandomState>;

/// The broadcasts held by a cache, by the text of their id.
pub uninterp spec fn consensus_cache_entries(c: ConsensusCache) -> Map<Seq<char>, ConsensusContext>;

/// The capacity that a cache of broadcasts was made with.
pub uninterp spec fn consensus_cache_capacity(c: ConsensusCache) -> nat;

/// No broadcasts at all.
pub open spec fn no_broadcasts() -> Map<Seq<char>, ConsensusContext> {
    Map::empty()
}

/// `LruCache::with_hasher` with capacity `cap` and std's `RandomState`: an empty cache.
#[verifier::external_body]
fn consensus_cache_new(cap: usize) -> (r: ConsensusCache)
    requires
        cap > 0,
    ensures
        consensus_cache_entries(r) == no_broadcasts(),
        consensus_cache_capacity(r) == cap,
        consensus_cache_entries(r).dom().finite(),
{
    match std::num::NonZeroUsize::new(cap) {
        Some(c) => LruCache::with_hasher(c, RandomState::new()),
        None => LruCache::with_hasher(std::num::NonZeroUsize::MIN, RandomState::new()),
    }
}

/// `LruCache::contains`: whether a key with the same text is present.
#[verifier::external_body]
fn consensus_cache_contains(c: &ConsensusCache, k: &String) -> (r: bool)
    ensures
        r == consensus_cache_entries(*c).contains_key(k@),
{
    c.contains(k)
}

/// `LruCache::put`: replaces the value of a present key (returning the old value), or
/// inserts a new key, dropping one present entry when the cache is full.
#[verifier::external_body]
fn consensus_cache_put(c: &mut ConsensusCache, k: String, v: ConsensusContext) -> (r: Option<
    ConsensusContext,
>)
    ensures
        put_outcome(
            consensus_cache_entries(*old(c)),
            consensus_cache_entries(*final(c)),
            consensus_cache_capacity(*old(c)),
            k@,
            v,
        ),
        consensus_cache_capacity(*final(c)) == consensus_cache_capacity(*old(c)),
        consensus_cache_entries(*final(c)).dom().finite(),
        consensus_cache_entries(*final(c)).len() <= consensus_cache_capacity(*final(c)),
        consensus_cache_entries(*old(c)).contains_key(k@) ==> r == Some(
            consensus_cache_entries(*old(c))[k@],
        ),
        !consensus_cache_entries(*old(c)).contains_key(k@) ==> r is None,
{
    c.put(k, v)
}

/// `LruCache::pop`: removes the key and returns its value.
#[verifier::external_body]
fn consensus_cache_pop(c: &mut ConsensusCache, k: &String) -> (r: Option<ConsensusContext>)
    ensures
        consensus_cache_entries(*final(c)) == consensus_cache_entries(*old(c)).remove(k@),
        consensus_cache_capacity(*final(c)) == consensus_cache_capacity(*old(c)),
        consensus_cache_entries(*final(c)).dom().finite(),
        consensus_cache_entries(*final(c)).len() <= consensus_cache_capacity(*final(c)),
        consensus_cache_entries(*old(c)).contains_key(k@) ==> r == Some(
            consensus_cache_entries(*old(c))[k@],
        ),
        !consensus_cache_entries(*old(c)).contains_key(k@) ==> r is None,
{
    c.pop(k)
}

/// How many broadcasts a node keeps state for.
pub const CONSENSUS_CACHE_CAPACITY: usize = 1000;

// ---------------------------------------------------------------------------
// Errors and replies.
// ---------------------------------------------------------------------------

/// Why a message could not be handled.
#[derive(Debug)]
pub enum BroadcastError {
    /// The message has no phase, or is a commit of a broadcast this node does not know.
    UnknownBroadcast(String),
    /// A second pre-prepare of a broadcast.
    DuplicateMessage(String),
    /// A hook failed.
    CallbackError(anyhow::Error),
}

/// The result of handling a message.
pub type ProtocolResult = Result<ProtocolResponse, BroadcastError>;

/// A reply of this node in a broadcast.
pub open spec fn reply_view(
    id: Seq<char>,
    custom_message_id: Seq<char>,
    node_id: Seq<char>,
    phase: PhaseView,
    kind: Kind,
) -> (Kind, RbMsgView) {
    (kind, RbMsgView { id, node_id, custom_message_id, reliable_broadcast: Some(phase) })
}

/// A reply stamped with the current time.
pub fn broadcast_reply(
    id: String,
    custom_message_id: String,
    node_id: String,
    msg: ReliableBroadcast,
    kind: Kind,
) -> (r: ProtocolResult)
    ensures
        r matches Ok(resp) && resp@ == reply_view(id@, custom_message_id@, node_id@, msg@, kind)
            && resp.protocol_reply.timestamp is Some,
{
    let timestamp = Some(timestamp_now());
    Ok(ProtocolResponse {
        kind,
        protocol_reply: RbMsg {
            id,
            node_id,
            timestamp,
            custom_message_id,
            reliable_broadcast: Some(msg),
        },
    })
}

/// A PREPARE with `payload`, to all peers.
pub fn prepare_reply(id: String, custom_message_id: String, node_id: String, payload: Vec<u8>) -> (r:
    ProtocolResult)
    ensures
        r matches Ok(resp) && resp@ == reply_view(
            id@,
            custom_message_id@,
            node_id@,
            PhaseView::Prepare(payload@),
            Kind::Broadcast,
        ),
{
    let msg = ReliableBroadcast::Prepare(PrepareMsg { payload });
    broadcast_reply(id, custom_message_id, node_id, msg, Kind::Broadcast)
}

/// A COMMIT, to all peers.
pub fn commit_reply(id: String, custom_message_id: String, node_id: String) -> (r: ProtocolResult)
    ensures
        r matches Ok(resp) && resp@ == reply_view(
            id@,
            custom_message_id@,
            node_id@,
            PhaseView::Commit,
            Kind::Broadcast,
        ),
{
    let msg = ReliableBroadcast::Commit(CommitMsg {});
    broadcast_reply(id, custom_message_id, node_id, msg, Kind::Broadcast)
}

/// An ACK, sent nowhere.
pub fn ack(id: String, custom_message_id: String, node_id: String) -> (r: ProtocolResult)
    ensures
        r matches Ok(resp) && resp@ == reply_view(
            id@,
            custom_message_id@,
            node_id@,
            PhaseView::Ack,
            Kind::Drop,
        ),
{
    let msg = ReliableBroadcast::Ack(AckMsg {});
    broadcast_reply(id, custom_message_id, node_id, msg, Kind::Drop)
}

/// Where the handling of a PREPARE stands after the `prepare` hook.
pub enum PrepareProgress {
    /// Handled.
    Done(ProtocolResult),
    /// A quorum prepared the message: the `prepared` hook is next, then the reply with
    /// this payload.
    Prepared(ConsensusContext, Vec<u8>),
}

/// Where the handling of a COMMIT stands after the `commit` hook.
pub enum CommitProgress {
    /// Handled.
    Done(ProtocolResult),
    /// A quorum committed the message: the `committed` hook is next.
    Committed(ConsensusContext),
}

// ---------------------------------------------------------------------------
// The protocol.
// ---------------------------------------------------------------------------

/// The broadcast protocol on one node.
pub struct BroadcastProtocol<C: BroadcastCallBack, Q: Quorum> {
    contexts: ConsensusCache,
    quorum: Q,
    callback: C,
    node_id: String,
}

impl<C: BroadcastCallBack, Q: Quorum> BroadcastProtocol<C, Q> {
    /// The broadcasts that this node keeps, by id.
    pub closed spec fn contexts(&self) -> Map<Seq<char>, ContextView> {
        view_values(consensus_cache_entries(self.contexts))
    }

    /// This node.
    pub closed spec fn node(&self) -> Seq<char> {
        self.node_id@
    }

    /// The quorum.
    pub closed spec fn quorum(&self) -> Q {
        self.quorum
    }

    /// Each kept broadcast is stored under its id, belongs to this node, and its node
    /// lists are sets; the cache keeps at most its capacity.
    pub closed spec fn wf(&self) -> bool {
        &&& consensus_cache_capacity(self.contexts) == CONSENSUS_CACHE_CAPACITY
        &&& consensus_cache_entries(self.contexts).dom().finite()
        &&& consensus_cache_entries(self.contexts).len() <= CONSENSUS_CACHE_CAPACITY
        &&& forall|k: Seq<char>| #[trigger]
            self.contexts().contains_key(k) ==> self.contexts()[k].wf() && self.contexts()[k].id
                == k && self.contexts()[k].local == self.node()
    }

    /// The kept broadcasts are finitely many, at most the capacity of the cache.
    proof fn lemma_contexts_len(&self)
        requires
            self.wf(),
        ensures
            self.contexts().dom().finite(),
            self.contexts().len() <= CONSENSUS_CACHE_CAPACITY,
    {
        assert(self.contexts().dom() =~= consensus_cache_entries(self.contexts).dom());
    }

    /// A node called `node_id` that keeps no broadcasts yet.
    pub fn new(quorum: Q, callback: C, node_id: String) -> (r: Self)
        ensures
            r.wf(),
            r.contexts() == Map::<Seq<char>, ContextView>::empty(),
            r.node() == node_id@,
            r.quorum() == quorum,
    {
        let r = BroadcastProtocol {
            contexts: consensus_cache_new(CONSENSUS_CACHE_CAPACITY),
            quorum,
            callback,
            node_id,
        };
        assert(r.contexts() =~= Map::<Seq<char>, ContextView>::empty());
        r
    }

    /// A copy of the state of the broadcast `id`, if this node keeps it.
    pub fn context(&mut self, id: &String) -> (r: Option<ConsensusContext>)
        requires
            old(self).wf(),
        ensures
            final(self).wf(),
            final(self).contexts() == old(self).contexts(),
            final(self).node() == old(self).node(),
            final(self).quorum() == old(self).quorum(),
            r matches Some(c) ==> old(self).contexts().contains_key(id@) && c@ == old(
                self,
            ).contexts()[id@],
            r is None <==> !old(self).contexts().contains_key(id@),
    {
        let ghost before = consensus_cache_entries(self.contexts);
        match consensus_cache_pop(&mut self.contexts, id) {
            Some(ctx) => {
                let copy = ctx.clone();
                let _ = consensus_cache_put(&mut self.contexts, id.clone(), ctx);
                proof {
                    assert(consensus_cache_entries(self.contexts) =~= before);
                    assert(self.contexts() =~= old(self).contexts());
                }
                Some(copy)
            },
            None => {
                proof {
                    assert(consensus_cache_entries(self.contexts) =~= before);
                    assert(self.contexts() =~= old(self).contexts());
                }
                None
            },
        }
    }

    /// Removes the broadcast `id` from the cache and hands it out.
    fn take_context(&mut self, id: &String) -> (r: Option<ConsensusContext>)
        requires
            old(self).wf(),
        ensures
            final(self).wf(),
            final(self).contexts() == old(self).contexts().remove(id@),
            final(self).node() == old(self).node(),
            final(self).quorum() == old(self).quorum(),
            r matches Some(c) ==> old(self).contexts().contains_key(id@) && c@ == old(
                self,
            ).contexts()[id@],
            r is None <==> !old(self).contexts().contains_key(id@),
    {
        let ghost before = consensus_cache_entries(self.contexts);
        let r = consensus_cache_pop(&mut self.contexts, id);
        proof {
            assert(self.contexts() =~= old(self).contexts().remove(id@));
        }
        r
    }

    /// Stores a broadcast under its id (the cache may drop another one to make room).
    fn put_context(&mut self, ctx: ConsensusContext)
        requires
            old(self).wf(),
            ctx@.wf(),
            ctx@.local == old(self).node(),
        ensures
            final(self).wf(),
            put_outcome(
                old(self).contexts(),
                final(self).contexts(),
                CONSENSUS_CACHE_CAPACITY as nat,
                ctx@.id,
                ctx@,
            ),
            final(self).node() == old(self).node(),
            final(self).quorum() == old(self).quorum(),
    {
        let ghost before = consensus_cache_entries(self.contexts);
        let ghost cv = ctx;
        let key = ctx.id.clone();
        let _ = consensus_cache_put(&mut self.contexts, key, ctx);
        proof {
            let after = consensus_cache_entries(self.contexts);
            lemma_put_outcome(before, after, CONSENSUS_CACHE_CAPACITY as nat, cv.id@, cv);
            lemma_put_outcome_view(before, after, CONSENSUS_CACHE_CAPACITY as nat, cv.id@, cv);
            assert forall|k: Seq<char>| #[trigger] self.contexts().contains_key(k) implies self.contexts()[k].wf()
                && self.contexts()[k].id == k && self.contexts()[k].local == self.node() by {
                if k != cv.id@ {
                    assert(old(self).contexts().contains_key(k));
                    assert(self.contexts()[k] == old(self).contexts()[k]);
                }
            }
        }
    }

    // -- PRE-PREPARE ---------------------------------------------------------

    /// The state of a new broadcast `msg_id` received from a client, prepared by this
    /// node; `None` when this node already keeps a broadcast of that id.
    pub fn pre_prepare_context(&self, msg_id: &String) -> (r: Option<ConsensusContext>)
        requires
            self.wf(),
        ensures
            r is None <==> self.contexts().contains_key(msg_id@),
            r matches Some(c) ==> c@ == fresh_context(msg_id@, true, self.node()).add_prepare(
                self.node(),
            ) && c@.wf(),
    {
        if consensus_cache_contains(&self.contexts, msg_id) {
            return None;
        }
        let mut ctx = ConsensusContext::new(msg_id.clone(), true, self.node_id.clone());
        ctx.add_prepare(self.node_id.clone());
        Some(ctx)
    }

    /// Finishes a pre-prepare after the `pre_prepare` hook: on success the broadcast is
    /// kept and a PREPARE goes out with the hook's payload, or the client's when the
    /// hook gives none; a failed hook fails the message and nothing is kept.
    pub fn complete_pre_prepare(
        &mut self,
        msg_id: String,
        custom_message_id: String,
        ctx: ConsensusContext,
        payload: Vec<u8>,
        callback_result: Result<Option<Vec<u8>>, anyhow::Error>,
    ) -> (r: ProtocolResult)
        requires
            old(self).wf(),
            ctx@.wf(),
            ctx@.id == msg_id@,
            ctx@.local == old(self).node(),
        ensures
            final(self).wf(),
            final(self).node() == old(self).node(),
            final(self).quorum() == old(self).quorum(),
            callback_result is Err ==> (r matches Err(BroadcastError::CallbackError(_))
                && final(self).contexts() == old(self).contexts()),
            callback_result matches Ok(o) ==> (r matches Ok(resp) && resp@ == reply_view(
                msg_id@,
                custom_message_id@,
                old(self).node(),
                PhaseView::Prepare(
                    match o {
                        Some(p) => p@,
                        None => payload@,
                    },
                ),
                Kind::Broadcast,
            ) && put_outcome(
                old(self).contexts(),
                final(self).contexts(),
                CONSENSUS_CACHE_CAPACITY as nat,
                msg_id@,
                ctx@,
            )),
    {
        match callback_result {
            Err(e) => Err(BroadcastError::CallbackError(e)),
            Ok(o) => {
                let payload = match o {
                    Some(p) => p,
                    None => payload,
                };
                self.put_context(ctx);
                prepare_reply(msg_id, custom_message_id, self.node_id.clone(), payload)
            },
        }
    }

    // -- PREPARE -------------------------------------------------------------

    /// Takes the broadcast `msg_id` out of the cache (a new one when this node does
    /// not keep it) and adds `sender` to the nodes that prepared it.  `None`, with the
    /// cache unchanged, when the broadcast is already prepared.
    pub fn prepare_context(&mut self, msg_id: &String, sender: String) -> (r: Option<
        ConsensusContext,
    >)
        requires
            old(self).wf(),
        ensures
            final(self).wf(),
            final(self).node() == old(self).node(),
            final(self).quorum() == old(self).quorum(),
            ({
                let c0 = if old(self).contexts().contains_key(msg_id@) {
                    old(self).contexts()[msg_id@]
                } else {
                    fresh_context(msg_id@, false, old(self).node())
                };
                &&& c0.prepared ==> r is None && final(self).contexts() == old(self).contexts()
                &&& !c0.prepared ==> (r matches Some(c) && c@ == c0.add_prepare(sender@) && c@.wf()
                    && final(self).contexts() == old(self).contexts().remove(msg_id@))
            }),
    {
        let ctx = self.take_context(msg_id);
        let mut ctx = match ctx {
            Some(c) => c,
            None => ConsensusContext::new(msg_id.clone(), false, self.node_id.clone()),
        };
        if ctx.prepared {
            proof {
                old(self).lemma_contexts_len();
            }
            self.put_context(ctx);
            proof {
                assert(self.contexts() =~= old(self).contexts());
            }
            return None;
        }
        ctx.add_prepare(sender);
        Some(ctx)
    }

    /// Continues a prepare after the `prepare` hook.  A failed hook puts the broadcast
    /// back and fails the message.  Otherwise this node counts itself among the nodes
    /// that prepared; if they make a quorum the broadcast is marked prepared and handed
    /// back for the `prepared` hook, else it is put back and a PREPARE goes out with the
    /// hook's payload (or the received one).
    pub fn continue_prepare(
        &mut self,
        msg_id: String,
        custom_message_id: String,
        ctx: ConsensusContext,
        payload: Vec<u8>,
        callback_result: Result<Option<Vec<u8>>, anyhow::Error>,
    ) -> (r: PrepareProgress)
        requires
            old(self).wf(),
            ctx@.wf(),
            ctx@.id == msg_id@,
            ctx@.local == old(self).node(),
        ensures
            final(self).wf(),
            final(self).node() == old(self).node(),
            final(self).quorum() == old(self).quorum(),
            callback_result is Err ==> (r matches PrepareProgress::Done(
                Err(BroadcastError::CallbackError(_)),
            ) && put_outcome(
                old(self).contexts(),
                final(self).contexts(),
                CONSENSUS_CACHE_CAPACITY as nat,
                msg_id@,
                ctx@,
            )),
            callback_result matches Ok(o) ==> ({
                let p = match o {
                    Some(p) => p@,
                    None => payload@,
                };
                let c1 = ctx@.add_prepare(old(self).node());
                if old(self).quorum().prepare_reached(c1.prepare.len()) {
                    &&& final(self).contexts() == old(self).contexts()
                    &&& (r matches PrepareProgress::Prepared(c, q) && c@ == c1.set_prepared() && q@
                        == p && c@.wf())
                } else {
                    &&& put_outcome(
                        old(self).contexts(),
                        final(self).contexts(),
                        CONSENSUS_CACHE_CAPACITY as nat,
                        msg_id@,
                        c1,
                    )
                    &&& (r matches PrepareProgress::Done(Ok(resp)) && resp@ == reply_view(
                        msg_id@,
                        custom_message_id@,
                        old(self).node(),
                        PhaseView::Prepare(p),
                        Kind::Broadcast,
                    ))
                }
            }),
    {
        let mut ctx = ctx;
        match callback_result {
            Err(e) => {
                self.put_context(ctx);
                PrepareProgress::Done(Err(BroadcastError::CallbackError(e)))
            },
            Ok(o) => {
                let payload = match o {
                    Some(p) => p,
                    None => payload,
                };
                if !contains_name(&ctx.prepare, &self.node_id) {
                    ctx.add_prepare(self.node_id.clone());
                }
                proof {
                    lemma_with_name(ctx@.prepare, self.node_id@);
                }
                if self.quorum.prepare_threshold(ctx.prepare.len()) {
                    ctx.prepared = true;
                    PrepareProgress::Prepared(ctx, payload)
                } else {
                    self.put_context(ctx);
                    PrepareProgress::Done(
                        prepare_reply(msg_id, custom_message_id, self.node_id.clone(), payload),
                    )
                }
            },
        }
    }

    /// Finishes a prepare that reached a quorum, after the `prepared` hook: the
    /// broadcast is put back; a failed hook fails the message.  Otherwise the node that
    /// received the message from the client commits it and sends a COMMIT; any other
    /// node sends a PREPARE with `payload`.
    pub fn complete_prepared(
        &mut self,
        msg_id: String,
        custom_message_id: String,
        ctx: ConsensusContext,
        payload: Vec<u8>,
        callback_result: Result<(), anyhow::Error>,
    ) -> (r: ProtocolResult)
        requires
            old(self).wf(),
            ctx@.wf(),
            ctx@.id == msg_id@,
            ctx@.local == old(self).node(),
        ensures
            final(self).wf(),
            final(self).node() == old(self).node(),
            final(self).quorum() == old(self).quorum(),
            callback_result is Err ==> (r matches Err(BroadcastError::CallbackError(_))
                && put_outcome(
                old(self).contexts(),
                final(self).contexts(),
                CONSENSUS_CACHE_CAPACITY as nat,
                msg_id@,
                ctx@,
            )),
            callback_result is Ok && ctx@.original_sender ==> (r matches Ok(resp) && resp@
                == reply_view(
                msg_id@,
                custom_message_id@,
                old(self).node(),
                PhaseView::Commit,
                Kind::Broadcast,
            ) && put_outcome(
                old(self).contexts(),
                final(self).contexts(),
                CONSENSUS_CACHE_CAPACITY as nat,
                msg_id@,
                ctx@.add_commit(old(self).node()),
            )),
            callback_result is Ok && !ctx@.original_sender ==> (r matches Ok(resp) && resp@
                == reply_view(
                msg_id@,
                custom_message_id@,
                old(self).node(),
                PhaseView::Prepare(payload@),
                Kind::Broadcast,
            ) && put_outcome(
                old(self).contexts(),
                final(self).contexts(),
                CONSENSUS_CACHE_CAPACITY as nat,
                msg_id@,
                ctx@,
            )),
    {
        let mut ctx = ctx;
        match callback_result {
            Err(e) => {
                self.put_context(ctx);
                Err(BroadcastError::CallbackError(e))
            },
            Ok(()) => {
                if ctx.original_sender {
                    ctx.add_commit(self.node_id.clone());
                    self.put_context(ctx);
                    commit_reply(msg_id, custom_message_id, self.node_id.clone())
                } else {
                    self.put_context(ctx);
                    prepare_reply(msg_id, custom_message_id, self.node_id.clone(), payload)
                }
            },
        }
    }

    // -- COMMIT --------------------------------------------------------------

    /// Takes the broadcast `msg_id` out of the cache and adds `origin` and this node to
    /// the nodes that committed it.  Fails, with the cache unchanged, when this node
    /// does not keep the broadcast; `None`, with the cache unchanged, when the broadcast
    /// is already committed.
    pub fn commit_context(&mut self, msg_id: &String, origin: String) -> (r: Result<
        Option<ConsensusContext>,
        BroadcastError,
    >)
        requires
            old(self).wf(),
        ensures
            final(self).wf(),
            final(self).node() == old(self).node(),
            final(self).quorum() == old(self).quorum(),
            !old(self).contexts().contains_key(msg_id@) ==> (r matches Err(
                BroadcastError::UnknownBroadcast(id),
            ) && id@ == msg_id@ && final(self).contexts() == old(self).contexts()),
            old(self).contexts().contains_key(msg_id@) && old(self).contexts()[msg_id@].committed
                ==> (r matches Ok(None) && final(self).contexts() == old(self).contexts()),
            old(self).contexts().contains_key(msg_id@) && !old(self).contexts()[msg_id@].committed
                ==> (r matches Ok(Some(c)) && c@ == old(self).contexts()[msg_id@].add_commit(
                origin@,
            ).add_commit(old(self).node()) && c@.wf() && final(self).contexts() == old(
                self,
            ).contexts().remove(msg_id@)),
    {
        let mut ctx = match self.take_context(msg_id) {
            Some(c) => c,
            None => {
                return Err(BroadcastError::UnknownBroadcast(msg_id.clone()));
            },
        };
        if ctx.committed {
            proof {
                old(self).lemma_contexts_len();
            }
            self.put_context(ctx);
            proof {
                assert(self.contexts() =~= old(self).contexts());
            }
            return Ok(None);
        }
        ctx.add_commit(origin);
        ctx.add_commit(self.node_id.clone());
        Ok(Some(ctx))
    }

    /// Continues a commit after the `commit` hook.  A failed hook puts the broadcast
    /// back and fails the message.  Otherwise, if the broadcast is prepared and the
    /// nodes that committed make a quorum, it is marked committed and handed back for
    /// the `committed` hook; else it is put back and a COMMIT goes out.
    pub fn continue_commit(
        &mut self,
        msg_id: String,
        custom_message_id: String,
        ctx: ConsensusContext,
        callback_result: Result<(), anyhow::Error>,
    ) -> (r: CommitProgress)
        requires
            old(self).wf(),
            ctx@.wf(),
            ctx@.id == msg_id@,
            ctx@.local == old(self).node(),
        ensures
            final(self).wf(),
            final(self).node() == old(self).node(),
            final(self).quorum() == old(self).quorum(),
            callback_result is Err ==> (r matches CommitProgress::Done(
                Err(BroadcastError::CallbackError(_)),
            ) && put_outcome(
                old(self).contexts(),
                final(self).contexts(),
                CONSENSUS_CACHE_CAPACITY as nat,
                msg_id@,
                ctx@,
            )),
            callback_result is Ok && ctx@.prepared && old(self).quorum().commit_reached(
                ctx@.commit.len(),
            ) ==> (r matches CommitProgress::Committed(c) && c@ == ctx@.set_committed() && c@.wf()
                && final(self).contexts() == old(self).contexts()),
            callback_result is Ok && !(ctx@.prepared && old(self).quorum().commit_reached(
                ctx@.commit.len(),
            )) ==> (r matches CommitProgress::Done(Ok(resp)) && resp@ == reply_view(
                msg_id@,
                custom_message_id@,
                old(self).node(),
                PhaseView::Commit,
                Kind::Broadcast,
            ) && put_outcome(
                old(self).contexts(),
                final(self).contexts(),
                CONSENSUS_CACHE_CAPACITY as nat,
                msg_id@,
                ctx@,
            )),
    {
        let mut ctx = ctx;
        match callback_result {
            Err(e) => {
                self.put_context(ctx);
                CommitProgress::Done(Err(BroadcastError::CallbackError(e)))
            },
            Ok(()) => {
                if ctx.prepared && self.quorum.commit_threshold(ctx.commit.len()) {
                    ctx.committed = true;
                    CommitProgress::Committed(ctx)
                } else {
                    self.put_context(ctx);
                    CommitProgress::Done(
                        commit_reply(msg_id, custom_message_id, self.node_id.clone()),
                    )
                }
            },
        }
    }

    /// Finishes a commit that reached a quorum, after the `committed` hook: the
    /// broadcast is put back; a failed hook fails the message, else a COMMIT goes out.
    pub fn complete_committed(
        &mut self,
        msg_id: String,
        custom_message_id: String,
        ctx: ConsensusContext,
        callback_result: Result<(), anyhow::Error>,
    ) -> (r: ProtocolResult)
        requires
            old(self).wf(),
            ctx@.wf(),
            ctx@.id == msg_id@,
            ctx@.local == old(self).node(),
        ensures
            final(self).wf(),
            final(self).node() == old(self).node(),
            final(self).quorum() == old(self).quorum(),
            put_outcome(
                old(self).contexts(),
                final(self).contexts(),
                CONSENSUS_CACHE_CAPACITY as nat,
                msg_id@,
                ctx@,
            ),
            callback_result is Err ==> r matches Err(BroadcastError::CallbackError(_)),
            callback_result is Ok ==> (r matches Ok(resp) && resp@ == reply_view(
                msg_id@,
                custom_message_id@,
                old(self).node(),
                PhaseView::Commit,
                Kind::Broadcast,
            )),
    {
        self.put_context(ctx);
        match callback_result {
            Err(e) => Err(BroadcastError::CallbackError(e)),
            Ok(()) => commit_reply(msg_id, custom_message_id, self.node_id.clone()),
        }
    }
}

/// Where a PREPARE from `sender` leaves the broadcast `id` that was `before[id]` (or
/// a fresh one) on node `node` when it was not prepared yet: the sender and then the
/// node itself count as prepared, and the broadcast becomes prepared exactly when they
/// make a quorum (`ok` says whether the reply succeeded; a failed hook may stop
/// earlier).
pub open spec fn prepare_outcome<Q: Quorum>(
    quorum: Q,
    node: Seq<char>,
    before: Map<Seq<char>, ContextView>,
    after: Map<Seq<char>, ContextView>,
    id: Seq<char>,
    sender: Seq<char>,
    ok: bool,
) -> bool {
    let c0 = if before.contains_key(id) {
        before[id]
    } else {
        fresh_context(id, false, node)
    };
    let c1 = c0.add_prepare(sender);
    let c2 = c1.add_prepare(node);
    let reached = quorum.prepare_reached(c2.prepare.len());
    !c0.prepared ==> {
        &&& after.contains_key(id)
        &&& after[id] == c1 || after[id] == c2 || (reached && (after[id] == c2.set_prepared()
            || after[id] == c2.set_prepared().add_commit(node)))
        &&& after[id].prepared ==> reached
        &&& ok ==> (after[id].prepared <==> reached)
    }
}

/// What node `node` answers to a PREPARE of the broadcast `id` that was `before[id]`
/// (or a fresh one) and not prepared yet, when the answer succeeds: the node that
/// received the message from the client commits once the broadcast becomes prepared
/// and sends a COMMIT; otherwise the node sends a PREPARE on, to all peers.
pub open spec fn prepare_answer(
    node: Seq<char>,
    before: Map<Seq<char>, ContextView>,
    after: Map<Seq<char>, ContextView>,
    id: Seq<char>,
    custom_message_id: Seq<char>,
    r: ProtocolResult,
) -> bool {
    let c0 = if before.contains_key(id) {
        before[id]
    } else {
        fresh_context(id, false, node)
    };
    !c0.prepared && r is Ok ==> {
        let resp = r->Ok_0@;
        &&& after[id].prepared && c0.original_sender ==> resp == reply_view(
            id,
            custom_message_id,
            node,
            PhaseView::Commit,
            Kind::Broadcast,
        )
        &&& !(after[id].prepared && c0.original_sender) ==> exists|p: Seq<u8>|
            resp == reply_view(id, custom_message_id, node, PhaseView::Prepare(p), Kind::Broadcast)
    }
}

/// What node `node` answers to a COMMIT of the kept broadcast `id` that was not
/// committed yet, when the answer succeeds: its own COMMIT, to all peers.
pub open spec fn commit_answer(
    node: Seq<char>,
    before: Map<Seq<char>, ContextView>,
    id: Seq<char>,
    custom_message_id: Seq<char>,
    r: ProtocolResult,
) -> bool {
    before.contains_key(id) && !before[id].committed && r is Ok ==> r->Ok_0@ == reply_view(
        id,
        custom_message_id,
        node,
        PhaseView::Commit,
        Kind::Broadcast,
    )
}

/// Where a COMMIT from `origin` leaves the kept broadcast `id` on node `node` when it
/// was not committed yet: the origin and the node itself count as committed, and the
/// broadcast becomes committed exactly when it is prepared and they make a quorum
/// (`ok` says whether the reply succeeded; a failed hook may stop earlier).
pub open spec fn commit_outcome<Q: Quorum>(
    quorum: Q,
    node: Seq<char>,
    before: Map<Seq<char>, ContextView>,
    after: Map<Seq<char>, ContextView>,
    id: Seq<char>,
    origin: Seq<char>,
    ok: bool,
) -> bool {
    let c1 = before[id].add_commit(origin).add_commit(node);
    let reached = c1.prepared && quorum.commit_reached(c1.commit.len());
    before.contains_key(id) && !before[id].committed ==> {
        &&& after.contains_key(id)
        &&& after[id] == c1 || (reached && after[id] == c1.set_committed())
        &&& after[id].committed ==> reached
        &&& ok ==> (after[id].committed <==> reached)
    }
}

/// Only the broadcast `id` changed: every other kept broadcast was there before, as
/// it was.  (Others may have been dropped to make room.)
pub open spec fn only_touches(
    before: Map<Seq<char>, ContextView>,
    after: Map<Seq<char>, ContextView>,
    id: Seq<char>,
) -> bool {
    forall|k: Seq<char>| k != id && #[trigger] after.contains_key(k) ==> before.contains_key(k)
        && after[k] == before[k]
}

/// Every broadcast kept before and after only grew.
pub open spec fn all_grow(before: Map<Seq<char>, ContextView>, after: Map<Seq<char>, ContextView>) -> bool {
    forall|k: Seq<char>| before.contains_key(k) && #[trigger] after.contains_key(k) ==> grows(
        before[k],
        after[k],
    )
}

/// Nothing changed: everything grew.
pub proof fn lemma_all_grow_refl(m: Map<Seq<char>, ContextView>)
    ensures
        all_grow(m, m),
{
    assert forall|k: Seq<char>| m.contains_key(k) && #[trigger] m.contains_key(k) implies grows(m[k], m[k]) by {
        lemma_steps_grow(m[k], Seq::empty());
    }
}

/// Taking the broadcast `id` out and storing `v` under `id`, where `v` grew from what
/// was there, makes everything grow.
pub proof fn lemma_put_grows(
    before: Map<Seq<char>, ContextView>,
    after: Map<Seq<char>, ContextView>,
    cap: nat,
    id: Seq<char>,
    v: ContextView,
)
    requires
        put_outcome(before.remove(id), after, cap, id, v),
        before.contains_key(id) ==> grows(before[id], v),
    ensures
        all_grow(before, after),
        only_touches(before, after, id),
{
    lemma_put_outcome(before.remove(id), after, cap, id, v);
    assert forall|k: Seq<char>| before.contains_key(k) && #[trigger] after.contains_key(k) implies grows(
        before[k],
        after[k],
    ) by {
        if k != id {
            lemma_steps_grow(before[k], Seq::empty());
        }
    }
}

impl<C: BroadcastCallBack, Q: Quorum> BroadcastProtocol<C, Q> {
    /// Only a prepared broadcast is ever committed.
    pub proof fn lemma_committed_only_if_prepared(&self, id: Seq<char>)
        requires
            self.wf(),
        ensures
            self.contexts().contains_key(id) && self.contexts()[id].committed ==> self.contexts()[id].prepared,
    {
    }

    /// Handles a message of the protocol and gives this node's reply.
    ///
    /// A message without a phase, a second pre-prepare, and a commit of an unknown
    /// broadcast fail without changing anything; an ack is answered with an ack; a
    /// prepare of a prepared broadcast and a commit of a committed broadcast are
    /// answered with this node's ack.  A reply is about the message's broadcast, and
    /// only that broadcast's state changes.  A prepare counts its sender and this node
    /// as prepared, and the broadcast becomes prepared when they make a quorum; a
    /// commit counts its sender and this node as committed, and a prepared broadcast
    /// becomes committed when they make a quorum.
    pub fn handle(&mut self, pr_msg: EphemeraSigningRequest) -> (r: ProtocolResult)
        requires
            old(self).wf(),
        ensures
            final(self).wf(),
            final(self).node() == old(self).node(),
            final(self).quorum() == old(self).quorum(),
            only_touches(old(self).contexts(), final(self).contexts(), pr_msg.message.id@),
            all_grow(old(self).contexts(), final(self).contexts()),
            r matches Ok(resp) ==> resp@.1.id == pr_msg.message.id@
                && resp@.1.custom_message_id == pr_msg.message.custom_message_id@,
            pr_msg.message.reliable_broadcast is None ==> (r matches Err(
                BroadcastError::UnknownBroadcast(_),
            ) && final(self).contexts() == old(self).contexts()),
            (pr_msg.message@.reliable_broadcast matches Some(PhaseView::PrePrepare(_))) && old(
                self,
            ).contexts().contains_key(pr_msg.message.id@) ==> (r matches Err(
                BroadcastError::DuplicateMessage(i),
            ) && i@ == pr_msg.message.id@ && final(self).contexts() == old(self).contexts()),
            (pr_msg.message@.reliable_broadcast matches Some(PhaseView::Commit)) && !old(
                self,
            ).contexts().contains_key(pr_msg.message.id@) ==> (r matches Err(
                BroadcastError::UnknownBroadcast(i),
            ) && i@ == pr_msg.message.id@ && final(self).contexts() == old(self).contexts()),
            (pr_msg.message@.reliable_broadcast matches Some(PhaseView::Ack)) ==> (r matches Ok(resp)
                && resp@ == reply_view(
                pr_msg.message.id@,
                pr_msg.message.custom_message_id@,
                pr_msg.message.node_id@,
                PhaseView::Ack,
                Kind::Drop,
            ) && final(self).contexts() == old(self).contexts()),
            (pr_msg.message@.reliable_broadcast matches Some(PhaseView::Prepare(_))) && old(
                self,
            ).contexts().contains_key(pr_msg.message.id@) && old(self).contexts()[pr_msg.message.id@].prepared
                ==> (r matches Ok(resp) && resp@ == reply_view(
                pr_msg.message.id@,
                pr_msg.message.custom_message_id@,
                old(self).node(),
                PhaseView::Ack,
                Kind::Drop,
            ) && final(self).contexts() == old(self).contexts()),
            (pr_msg.message@.reliable_broadcast matches Some(PhaseView::Commit)) && old(
                self,
            ).contexts().contains_key(pr_msg.message.id@) && old(self).contexts()[pr_msg.message.id@].committed
                ==> (r matches Ok(resp) && resp@ == reply_view(
                pr_msg.message.id@,
                pr_msg.message.custom_message_id@,
                old(self).node(),
                PhaseView::Ack,
                Kind::Drop,
            ) && final(self).contexts() == old(self).contexts()),
            (pr_msg.message@.reliable_broadcast matches Some(PhaseView::Prepare(_))) ==> prepare_outcome(
                old(self).quorum(),
                old(self).node(),
                old(self).contexts(),
                final(self).contexts(),
                pr_msg.message.id@,
                pr_msg.message.node_id@,
                r is Ok,
            ),
            (pr_msg.message@.reliable_broadcast matches Some(PhaseView::Prepare(_))) ==> prepare_answer(
                old(self).node(),
                old(self).contexts(),
                final(self).contexts(),
                pr_msg.message.id@,
                pr_msg.message.custom_message_id@,
                r,
            ),
            (pr_msg.message@.reliable_broadcast matches Some(PhaseView::Commit)) ==> commit_answer(
                old(self).node(),
                old(self).contexts(),
                pr_msg.message.id@,
                pr_msg.message.custom_message_id@,
                r,
            ),
            (pr_msg.message@.reliable_broadcast matches Some(PhaseView::Commit)) ==> commit_outcome(
                old(self).quorum(),
                old(self).node(),
                old(self).contexts(),
                final(self).contexts(),
                pr_msg.message.id@,
                pr_msg.message.node_id@,
                r is Ok,
            ),
    {
        let message = pr_msg.message;
        let rb_msg = match message.reliable_broadcast {
            Some(m) => m,
            None => {
                return Err(
                    BroadcastError::UnknownBroadcast(String::from_str("Unknown broadcast_protocol")),
                );
            },
        };
        let rb_id = message.id;
        let node_id = message.node_id;
        let custom_message_id = message.custom_message_id;
        match rb_msg {
            ReliableBroadcast::PrePrepare(PrePrepareMsg { payload }) => {
                self.process_pre_prepare(rb_id, custom_message_id, node_id, payload)
            },
            ReliableBroadcast::Prepare(PrepareMsg { payload }) => {
                self.process_prepare(rb_id, custom_message_id, node_id, payload)
            },
            ReliableBroadcast::Commit(_) => {
                self.process_commit(rb_id, custom_message_id, node_id)
            },
            ReliableBroadcast::Ack(_) => ack(rb_id, custom_message_id, node_id),
        }
    }

    fn process_pre_prepare(
        &mut self,
        msg_id: String,
        custom_message_id: String,
        sender: String,
        payload: Vec<u8>,
    ) -> (r: ProtocolResult)
        requires
            old(self).wf(),
        ensures
            final(self).wf(),
            final(self).node() == old(self).node(),
            final(self).quorum() == old(self).quorum(),
            only_touches(old(self).contexts(), final(self).contexts(), msg_id@),
            all_grow(old(self).contexts(), final(self).contexts()),
            r matches Ok(resp) ==> resp@.1.id == msg_id@ && resp@.1.custom_message_id
                == custom_message_id@,
            old(self).contexts().contains_key(msg_id@) ==> (r matches Err(
                BroadcastError::DuplicateMessage(i),
            ) && i@ == msg_id@ && final(self).contexts() == old(self).contexts()),
    {
        let ctx = match self.pre_prepare_context(&msg_id) {
            Some(c) => c,
            None => {
                proof {
                    lemma_all_grow_refl(self.contexts());
                }
                return Err(BroadcastError::DuplicateMessage(msg_id));
            },
        };
        let result = self.callback.pre_prepare(
            msg_id.clone(),
            custom_message_id.clone(),
            sender,
            clone_bytes(&payload),
            &ctx,
        );
        let ghost before = self.contexts();
        let ghost cv = ctx@;
        let r = self.complete_pre_prepare(msg_id, custom_message_id, ctx, payload, result);
        proof {
            if self.contexts() != before {
                assert(before.remove(msg_id@) =~= before);
                lemma_put_grows(before, self.contexts(), CONSENSUS_CACHE_CAPACITY as nat, cv.id, cv);
            } else {
                lemma_all_grow_refl(before);
            }
        }
        r
    }

    fn process_prepare(
        &mut self,
        msg_id: String,
        custom_message_id: String,
        sender: String,
        payload: Vec<u8>,
    ) -> (r: ProtocolResult)
        requires
            old(self).wf(),
        ensures
            final(self).wf(),
            final(self).node() == old(self).node(),
            final(self).quorum() == old(self).quorum(),
            only_touches(old(self).contexts(), final(self).contexts(), msg_id@),
            all_grow(old(self).contexts(), final(self).contexts()),
            r matches Ok(resp) ==> resp@.1.id == msg_id@ && resp@.1.custom_message_id
                == custom_message_id@,
            old(self).contexts().contains_key(msg_id@) && old(self).contexts()[msg_id@].prepared ==> (
            r matches Ok(resp) && resp@ == reply_view(
                msg_id@,
                custom_message_id@,
                old(self).node(),
                PhaseView::Ack,
                Kind::Drop,
            ) && final(self).contexts() == old(self).contexts()),
            prepare_outcome(
                old(self).quorum(),
                old(self).node(),
                old(self).contexts(),
                final(self).contexts(),
                msg_id@,
                sender@,
                r is Ok,
            ),
            prepare_answer(
                old(self).node(),
                old(self).contexts(),
                final(self).contexts(),
                msg_id@,
                custom_message_id@,
                r,
            ),
    {
        let ghost sender_g = sender@;
        let ctx = match self.prepare_context(&msg_id, sender.clone()) {
            Some(c) => c,
            None => {
                proof {
                    lemma_all_grow_refl(self.contexts());
                }
                return ack(msg_id, custom_message_id, self.node_id.clone());
            },
        };
        let ghost taken = self.contexts();
        let ghost c0 = if old(self).contexts().contains_key(msg_id@) {
            old(self).contexts()[msg_id@]
        } else {
            fresh_context(msg_id@, false, old(self).node())
        };
        proof {
            assert(only_touches(old(self).contexts(), taken, msg_id@));
            lemma_steps_grow(c0, sender@);
        }
        let result = self.callback.prepare(
            msg_id.clone(),
            custom_message_id.clone(),
            sender,
            clone_bytes(&payload),
            &ctx,
        );
        let ghost cv = ctx@;
        match self.continue_prepare(msg_id.clone(), custom_message_id.clone(), ctx, payload, result) {
            PrepareProgress::Done(r) => {
                proof {
                    let c1 = if result is Err { cv } else { cv.add_prepare(self.node()) };
                    lemma_steps_grow(cv, self.node());
                    lemma_grows_trans(c0, cv, c1);
                    lemma_put_grows(old(self).contexts(), self.contexts(), CONSENSUS_CACHE_CAPACITY as nat, msg_id@, c1);
                    lemma_put_outcome(taken, self.contexts(), CONSENSUS_CACHE_CAPACITY as nat, msg_id@, c1);
                }
                r
            },
            PrepareProgress::Prepared(ctx, payload) => {
                let result = self.callback.prepared(&ctx);
                let ghost cp = ctx@;
                let r = self.complete_prepared(msg_id, custom_message_id, ctx, payload, result);
                proof {
                    let c1 = cv.add_prepare(self.node());
                    let c2 = if result is Ok && cp.original_sender { cp.add_commit(self.node()) } else { cp };
                    lemma_steps_grow(cv, self.node());
                    lemma_steps_grow(c1, self.node());
                    lemma_steps_grow(cp, self.node());
                    lemma_grows_trans(c0, cv, c1);
                    lemma_grows_trans(c0, c1, cp);
                    lemma_grows_trans(c0, cp, c2);
                    lemma_put_grows(old(self).contexts(), self.contexts(), CONSENSUS_CACHE_CAPACITY as nat, msg_id@, c2);
                    lemma_put_outcome(taken, self.contexts(), CONSENSUS_CACHE_CAPACITY as nat, msg_id@, c2);
                }
                r
            },
        }
    }

    fn process_commit(&mut self, msg_id: String, custom_message_id: String, origin: String) -> (r:
        ProtocolResult)
        requires
            old(self).wf(),
        ensures
            final(self).wf(),
            final(self).node() == old(self).node(),
            final(self).quorum() == old(self).quorum(),
            only_touches(old(self).contexts(), final(self).contexts(), msg_id@),
            all_grow(old(self).contexts(), final(self).contexts()),
            r matches Ok(resp) ==> resp@.1.id == msg_id@ && resp@.1.custom_message_id
                == custom_message_id@,
            !old(self).contexts().contains_key(msg_id@) ==> (r matches Err(
                BroadcastError::UnknownBroadcast(i),
            ) && i@ == msg_id@ && final(self).contexts() == old(self).contexts()),
            old(self).contexts().contains_key(msg_id@) && old(self).contexts()[msg_id@].committed ==> (
            r matches Ok(resp) && resp@ == reply_view(
                msg_id@,
                custom_message_id@,
                old(self).node(),
                PhaseView::Ack,
                Kind::Drop,
            ) && final(self).contexts() == old(self).contexts()),
            commit_outcome(
                old(self).quorum(),
                old(self).node(),
                old(self).contexts(),
                final(self).contexts(),
                msg_id@,
                origin@,
                r is Ok,
            ),
            commit_answer(old(self).node(), old(self).contexts(), msg_id@, custom_message_id@, r),
    {
        let ctx = match self.commit_context(&msg_id, origin.clone()) {
            Err(e) => {
                proof {
                    lemma_all_grow_refl(self.contexts());
                }
                return Err(e);
            },
            Ok(None) => {
                proof {
                    lemma_all_grow_refl(self.contexts());
                }
                return ack(msg_id, custom_message_id, self.node_id.clone());
            },
            Ok(Some(c)) => c,
        };
        let ghost taken = self.contexts();
        let ghost c0 = old(self).contexts()[msg_id@];
        proof {
            assert(only_touches(old(self).contexts(), taken, msg_id@));
            lemma_steps_grow(c0, origin@);
            lemma_steps_grow(c0.add_commit(origin@), self.node());
            lemma_grows_trans(c0, c0.add_commit(origin@), ctx@);
        }
        let result = self.callback.commit(msg_id.clone(), custom_message_id.clone(), origin, &ctx);
        let ghost cv = ctx@;
        match self.continue_commit(msg_id.clone(), custom_message_id.clone(), ctx, result) {
            CommitProgress::Done(r) => {
                proof {
                    lemma_put_grows(old(self).contexts(), self.contexts(), CONSENSUS_CACHE_CAPACITY as nat, msg_id@, cv);
                    lemma_put_outcome(taken, self.contexts(), CONSENSUS_CACHE_CAPACITY as nat, msg_id@, cv);
                }
                r
            },
            CommitProgress::Committed(ctx) => {
                let result = self.callback.committed(&ctx);
                let ghost cc = ctx@;
                let r = self.complete_committed(msg_id, custom_message_id, ctx, result);
                proof {
                    lemma_steps_grow(cv, self.node());
                    lemma_grows_trans(c0, cv, cc);
                    lemma_put_grows(old(self).contexts(), self.contexts(), CONSENSUS_CACHE_CAPACITY as nat, msg_id@, cc);
                    lemma_put_outcome(taken, self.contexts(), CONSENSUS_CACHE_CAPACITY as nat, msg_id@, cc);
                }
                r
            },
        }
    }
}

} // verus!
