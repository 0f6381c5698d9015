//! The per-node state machine of Bracha's reliable broadcast.

use vstd::prelude::*;
use crate::block::types::block::{raw_block_hash, Block, BlockView};
use crate::broadcast::bracha::quorum::{
    bracha_action, BrachaMessageType, BrachaQuorum,
};
use crate::broadcast::{
    lemma_with_peer_no_duplicates, Command, ContextView, MessageType, ProtocolContext, RawRbMsg,
    Status,
};
use crate::cache::{lemma_put_outcome, put_outcome};
use crate::crypto::{HashBytes, HashType, PeerId};
use lru::LruCache;
use std::collections::hash_map::RandomState;

verus! {

/// The cache of broadcast contexts, by block hash.
pub type ContextCache = LruCache<HashBytes, ProtocolContext, RandomState>;

/// The contexts held by a broadcaster, by block hash.
pub uninterp spec fn context_cache_entries(
    c: ContextCache,
) -> Map<Seq<u8>, ProtocolContext>;

/// The capacity that a context cache was made with.
pub uninterp spec fn context_cache_capacity(c: ContextCache) -> nat;

/// No contexts at all.
pub open spec fn no_contexts() -> Map<Seq<u8>, ProtocolContext> {
    Map::empty()
}

/// `LruCache::with_hasher` with capacity `cap` and std's `RandomState`: an empty cache.
#[verifier::external_body]
fn context_cache_new(cap: usize) -> (r: ContextCache)
    requires
        cap > 0,
    ensures
        context_cache_entries(r) == no_contexts(),
        context_cache_capacity(r) == cap,
        context_cache_entries(r).dom().finite(),
{
    match std::num::NonZeroUsize::new(cap) {
        Some(c) => LruCache::with_hasher(c, RandomState::new()),
        None => LruCache::with_hasher(std::num::NonZeroUsize::MIN, RandomState::new()),
    }
}

/// `LruCache::contains`: whether the key is present (the cache is not changed).
#[verifier::external_body]
fn context_cache_contains(c: &ContextCache, k: &HashBytes) -> (r: bool)
    ensures
        r == context_cache_entries(*c).contains_key(k@),
{
    c.contains(k)
}

/// `LruCache::put`: replaces the value of a present key (returning the old value), or
/// inserts a new key, dropping one present entry when the cache is full.
#[verifier::external_body]
fn context_cache_put(
    c: &mut ContextCache,
    k: HashBytes,
    v: ProtocolContext,
) -> (r: Option<ProtocolContext>)
    ensures
        put_outcome(
            context_cache_entries(*old(c)),
            context_cache_entries(*final(c)),
            context_cache_capacity(*old(c)),
            k@,
            v,
        ),
        context_cache_capacity(*final(c)) == context_cache_capacity(*old(c)),
        context_cache_entries(*final(c)).dom().finite(),
        context_cache_entries(*final(c)).len() <= context_cache_capacity(*final(c)),
        context_cache_entries(*old(c)).contains_key(k@) ==> r == Some(
            context_cache_entries(*old(c))[k@],
        ),
        !context_cache_entries(*old(c)).contains_key(k@) ==> r is None,
{
    c.put(k, v)
}

/// `LruCache::pop`: removes the key and returns its value.
#[verifier::external_body]
fn context_cache_pop(c: &mut ContextCache, k: &HashBytes) -> (r: Option<
    ProtocolContext,
>)
    ensures
        context_cache_entries(*final(c)) == context_cache_entries(*old(c)).remove(k@),
        context_cache_capacity(*final(c)) == context_cache_capacity(*old(c)),
        context_cache_entries(*final(c)).dom().finite(),
        context_cache_entries(*final(c)).len() <= context_cache_capacity(*final(c)),
        context_cache_entries(*old(c)).contains_key(k@) ==> r == Some(
            context_cache_entries(*old(c))[k@],
        ),
        !context_cache_entries(*old(c)).contains_key(k@) ==> r is None,
{
    c.pop(k)
}

/// How many blocks a broadcaster keeps state for.
pub const CONTEXT_CACHE_CAPACITY: usize = 1000;

/// What a broadcaster answers to a message.
#[derive(Debug, Clone, Copy, PartialEq, Eq, Structural)]
pub enum Outcome {
    /// Echo the block to all peers.
    BroadcastEcho,
    /// Vote for the block to all peers.
    BroadcastVote,
    /// The block is delivered.
    Deliver,
    /// Nothing to send.
    Drop,
}

/// A context in which nobody echoed or voted yet.
pub open spec fn fresh_context(local: Seq<u8>, hash: Seq<u8>) -> ContextView {
    ContextView { local, hash, echo: Seq::empty(), vote: Seq::empty() }
}

/// An echo from `sender`: record it; echo the block if this node has not yet; otherwise
/// vote once more than `n - f` peers echoed.
pub open spec fn echo_step(n: nat, f: nat, c: ContextView, sender: Seq<u8>) -> (
    ContextView,
    Outcome,
) {
    let c1 = if sender != c.local {
        c.add_echo(sender)
    } else {
        c
    };
    if !c1.echoed() {
        (c1.add_echo(c1.local), Outcome::BroadcastEcho)
    } else if !c1.voted() && bracha_action(n, f, c1, BrachaMessageType::Echo) is Vote {
        (c1.add_vote(c1.local), Outcome::BroadcastVote)
    } else {
        (c1, Outcome::Drop)
    }
}

/// A vote from `sender`: record it; vote if more than `f` others voted and this node has
/// not; deliver once this node voted and more than `n - f` peers voted.
pub open spec fn vote_step(n: nat, f: nat, c: ContextView, sender: Seq<u8>) -> (
    ContextView,
    Outcome,
) {
    let c1 = if sender != c.local {
        c.add_vote(sender)
    } else {
        c
    };
    let a = bracha_action(n, f, c1, BrachaMessageType::Vote);
    if a is Vote {
        (c1.add_vote(c1.local), Outcome::BroadcastVote)
    } else if a is Deliver {
        (c1, Outcome::Deliver)
    } else {
        (c1, Outcome::Drop)
    }
}

/// A node delivers a block only once it has voted for it itself and more than `n - f`
/// peers voted.
pub proof fn lemma_deliver_needs_vote_quorum(n: nat, f: nat, c: ContextView, sender: Seq<u8>)
    ensures
        vote_step(n, f, c, sender).1 is Deliver ==> vote_step(n, f, c, sender).0.voted() && vote_step(
            n,
            f,
            c,
            sender,
        ).0.vote.len() > n - f && n > 0,
{
}

/// A node votes for a block only once, and only after more than `n - f` echoes or more
/// than `f` votes.
pub proof fn lemma_vote_reasons(n: nat, f: nat, c: ContextView, sender: Seq<u8>)
    ensures
        echo_step(n, f, c, sender).1 is BroadcastVote ==> ({
            let c1 = if sender != c.local { c.add_echo(sender) } else { c };
            !c1.voted() && c1.echo.len() > n - f && n > 0
        }),
        vote_step(n, f, c, sender).1 is BroadcastVote ==> ({
            let c1 = if sender != c.local { c.add_vote(sender) } else { c };
            !c1.voted() && c1.vote.len() > f && n > 0
        }),
{
}

/// The echo and vote steps only add peers to the echoes and votes of a block, each at
/// most once, and keep the block and the node.
pub proof fn lemma_steps_only_add(n: nat, f: nat, c: ContextView, sender: Seq<u8>)
    requires
        c.wf(),
    ensures
        echo_step(n, f, c, sender).0.wf(),
        vote_step(n, f, c, sender).0.wf(),
        echo_step(n, f, c, sender).0.local == c.local && echo_step(n, f, c, sender).0.hash == c.hash,
        vote_step(n, f, c, sender).0.local == c.local && vote_step(n, f, c, sender).0.hash == c.hash,
        forall|p: Seq<u8>| c.echo.contains(p) ==> #[trigger] echo_step(n, f, c, sender).0.echo.contains(p),
        forall|p: Seq<u8>| c.vote.contains(p) ==> #[trigger] echo_step(n, f, c, sender).0.vote.contains(p),
        forall|p: Seq<u8>| c.echo.contains(p) ==> #[trigger] vote_step(n, f, c, sender).0.echo.contains(p),
        forall|p: Seq<u8>| c.vote.contains(p) ==> #[trigger] vote_step(n, f, c, sender).0.vote.contains(p),
{
    let e1 = if sender != c.local { c.add_echo(sender) } else { c };
    if sender != c.local {
        lemma_with_peer_no_duplicates(c.echo, sender);
    }
    lemma_with_peer_no_duplicates(e1.echo, e1.local);
    lemma_with_peer_no_duplicates(e1.vote, e1.local);
    let v1 = if sender != c.local { c.add_vote(sender) } else { c };
    if sender != c.local {
        lemma_with_peer_no_duplicates(c.vote, sender);
    }
    lemma_with_peer_no_duplicates(v1.vote, v1.local);
}

/// The answer of a broadcaster: the status of the broadcast, whether to send, and what.
#[derive(Debug)]
pub struct ProtocolResponse {
    pub status: Status,
    pub command: Command,
    pub protocol_reply: Option<RawRbMsg>,
}

/// `r` sends to all peers a reply of node `local` about `block`: an echo if `echo`, a
/// vote otherwise.
pub open spec fn broadcasts(r: ProtocolResponse, echo: bool, local: Seq<u8>, block: BlockView) -> bool {
    &&& r.status == Status::Pending
    &&& r.command == Command::Broadcast
    &&& r.protocol_reply matches Some(m) && m.message_type.is_echo() == echo && m.original_sender@
        == local && m.message_type.block()@ == block
}

/// `r` is the answer for `outcome` about `block` on node `local`.
pub open spec fn response_kind(
    r: ProtocolResponse,
    outcome: Outcome,
    local: Seq<u8>,
    block: BlockView,
) -> bool {
    match outcome {
        Outcome::BroadcastEcho => broadcasts(r, true, local, block),
        Outcome::BroadcastVote => broadcasts(r, false, local, block),
        Outcome::Deliver => {
            &&& r.status == Status::Completed
            &&& r.command == Command::Drop
            &&& r.protocol_reply is None
        },
        Outcome::Drop => {
            &&& r.status == Status::Pending
            &&& r.command == Command::Drop
            &&& r.protocol_reply is None
        },
    }
}

/// `r` is the answer for `outcome` in broadcast `id` about `block` on node `local`; a
/// reply stays in the broadcast it answers.
pub open spec fn response_for(
    r: ProtocolResponse,
    outcome: Outcome,
    id: Seq<char>,
    local: Seq<u8>,
    block: BlockView,
) -> bool {
    &&& response_kind(r, outcome, local, block)
    &&& r.protocol_reply matches Some(m) ==> m.id@ == id
}

impl ProtocolResponse {
    /// Send `msg` to all peers; the broadcast goes on.
    pub fn broadcast(msg: RawRbMsg) -> (r: ProtocolResponse)
        ensures
            r.status == Status::Pending,
            r.command == Command::Broadcast,
            r.protocol_reply == Some(msg),
    {
        ProtocolResponse {
            status: Status::Pending,
            command: Command::Broadcast,
            protocol_reply: Some(msg),
        }
    }

    /// The block is delivered; nothing to send.
    pub fn deliver() -> (r: ProtocolResponse)
        ensures
            r.status == Status::Completed,
            r.command == Command::Drop,
            r.protocol_reply is None,
    {
        ProtocolResponse { status: Status::Completed, command: Command::Drop, protocol_reply: None }
    }

    /// Nothing to send; the broadcast goes on.
    pub fn drop() -> (r: ProtocolResponse)
        ensures
            r.status == Status::Pending,
            r.command == Command::Drop,
            r.protocol_reply is None,
    {
        ProtocolResponse { status: Status::Pending, command: Command::Drop, protocol_reply: None }
    }
}

/// The reliable broadcast state of one node: a context per block and the quorum.
pub struct Broadcaster {
    contexts: ContextCache,
    quorum: BrachaQuorum,
    local_peer_id: PeerId,
}

impl Broadcaster {
    /// The contexts of the blocks this node keeps state for.
    pub closed spec fn contexts(&self) -> Map<Seq<u8>, ContextView> {
        context_cache_entries(self.contexts).map_values(|c: ProtocolContext| c@)
    }

    pub closed spec fn local(&self) -> Seq<u8> {
        self.local_peer_id@
    }

    pub closed spec fn group_size(&self) -> nat {
        self.quorum.cluster_size as nat
    }

    pub closed spec fn faulty(&self) -> nat {
        self.quorum.max_faulty_nodes as nat
    }

    /// Every context belongs to this node and to the block it is stored under, and holds
    /// no peer twice; the tolerated faults are a third of the group.
    pub closed spec fn wf(&self) -> bool {
        &&& self.quorum.wf()
        &&& context_cache_capacity(self.contexts) == CONTEXT_CACHE_CAPACITY
        &&& context_cache_entries(self.contexts).dom().finite()
        &&& context_cache_entries(self.contexts).len() <= CONTEXT_CACHE_CAPACITY
        &&& forall|k: Seq<u8>| #[trigger]
            context_cache_entries(self.contexts).contains_key(k) ==> {
                let c = context_cache_entries(self.contexts)[k];
                c@.wf() && c@.local == self.local_peer_id@ && c@.hash == k
            }
    }

    /// A broadcaster for node `peer_id` with an empty group.
    pub fn new(peer_id: PeerId) -> (r: Broadcaster)
        ensures
            r.wf(),
            r.local() == peer_id@,
            r.group_size() == 0,
            r.contexts() == Map::<Seq<u8>, ContextView>::empty(),
    {
        let r = Broadcaster {
            contexts: context_cache_new(CONTEXT_CACHE_CAPACITY),
            quorum: BrachaQuorum::new(),
            local_peer_id: peer_id,
        };
        assert(r.contexts() =~= Map::<Seq<u8>, ContextView>::empty());
        r
    }

    /// The group changed to `size` peers.
    pub fn topology_updated(&mut self, size: usize)
        requires
            old(self).wf(),
        ensures
            final(self).wf(),
            final(self).group_size() == size,
            final(self).faulty() == size / 3,
            final(self).local() == old(self).local(),
            final(self).contexts() == old(self).contexts(),
    {
        self.quorum.update_group_size(size);
    }

    /// A copy of the context of the block with hash `hash`, if this node keeps one.
    pub fn context(&mut self, hash: &HashType) -> (r: Option<ProtocolContext>)
        requires
            old(self).wf(),
        ensures
            final(self).wf(),
            final(self).contexts() == old(self).contexts(),
            final(self).local() == old(self).local(),
            final(self).group_size() == old(self).group_size(),
            final(self).faulty() == old(self).faulty(),
            r matches Some(c) ==> old(self).contexts().contains_key(hash@) && c@ == old(
                self,
            ).contexts()[hash@],
            r is None ==> !old(self).contexts().contains_key(hash@),
    {
        let ghost before = context_cache_entries(self.contexts);
        match context_cache_pop(&mut self.contexts, &hash.0) {
            Some(ctx) => {
                let copy = ctx.clone();
                let _ = context_cache_put(&mut self.contexts, hash.0, ctx);
                proof {
                    let after = context_cache_entries(self.contexts);
                    assert(after =~= before);
                    assert(self.contexts() =~= old(self).contexts());
                }
                Some(copy)
            },
            None => {
                proof {
                    assert(context_cache_entries(self.contexts) =~= before);
                }
                None
            },
        }
    }

    /// Starts the broadcast of a new block of this node: handles the first echo of it.
    pub fn new_broadcast(&mut self, block: Block) -> (r: ProtocolResponse)
        requires
            old(self).wf(),
        ensures
            final(self).wf(),
            final(self).local() == old(self).local(),
            final(self).group_size() == old(self).group_size(),
            final(self).faulty() == old(self).faulty(),
            ({
                let key = raw_block_hash(block@.header, block@.messages);
                let before = if old(self).contexts().contains_key(key) {
                    old(self).contexts()[key]
                } else {
                    fresh_context(old(self).local(), key)
                };
                let step = echo_step(
                    old(self).group_size(),
                    old(self).faulty(),
                    before,
                    old(self).local(),
                );
                &&& final(self).contexts().contains_key(key)
                &&& final(self).contexts()[key] == step.0
                &&& response_kind(r, step.1, old(self).local(), block@)
            }),
    {
        let rb_msg = RawRbMsg::new(block, self.local_peer_id.clone());
        let r = self.handle(rb_msg);
        proof {
            let key = raw_block_hash(block@.header, block@.messages);
            let before = if old(self).contexts().contains_key(key) {
                old(self).contexts()[key]
            } else {
                fresh_context(old(self).local(), key)
            };
            let step = echo_step(old(self).group_size(), old(self).faulty(), before, old(self).local());
            assert(self.contexts()[key] == step.0);
        }
        r
    }

    /// Handles a broadcast message: updates the context of its block and answers.
    pub fn handle(&mut self, rb_msg: RawRbMsg) -> (r: ProtocolResponse)
        requires
            old(self).wf(),
        ensures
            final(self).wf(),
            final(self).local() == old(self).local(),
            final(self).group_size() == old(self).group_size(),
            final(self).faulty() == old(self).faulty(),
            ({
                let block = rb_msg.message_type.block();
                let key = raw_block_hash(block@.header, block@.messages);
                let before = if old(self).contexts().contains_key(key) {
                    old(self).contexts()[key]
                } else {
                    fresh_context(old(self).local(), key)
                };
                let step = if rb_msg.message_type.is_echo() {
                    echo_step(
                        old(self).group_size(),
                        old(self).faulty(),
                        before,
                        rb_msg.original_sender@,
                    )
                } else {
                    vote_step(
                        old(self).group_size(),
                        old(self).faulty(),
                        before,
                        rb_msg.original_sender@,
                    )
                };
                &&& final(self).contexts().contains_key(key)
                &&& final(self).contexts()[key] == step.0
                &&& forall|j: Seq<u8>| #[trigger]
                    final(self).contexts().contains_key(j) && j != key ==> old(
                        self,
                    ).contexts().contains_key(j) && final(self).contexts()[j] == old(
                        self,
                    ).contexts()[j]
                &&& response_for(r, step.1, rb_msg.id@, old(self).local(), block@)
            }),
            r.protocol_reply matches Some(m) ==> m.id@ == rb_msg.id@ && m.original_sender@ == old(
                self,
            ).local(),
            r.command == Command::Broadcast ==> r.protocol_reply is Some,
    {
        let hash = rb_msg.block_ref().hash_with_default_hasher();
        let ghost cap = context_cache_capacity(self.contexts);
        let ghost entries0 = context_cache_entries(self.contexts);
        if !context_cache_contains(&self.contexts, &hash.0) {
            let fresh = ProtocolContext::new(hash, self.local_peer_id.clone());
            let ghost fresh_g = fresh;
            let _ = context_cache_put(&mut self.contexts, hash.0, fresh);
            proof {
                lemma_put_outcome(entries0, context_cache_entries(self.contexts), cap, hash@, fresh_g);
            }
        }
        let ghost entries1 = context_cache_entries(self.contexts);
        proof {
            assert(entries1.contains_key(hash@));
            assert forall|j: Seq<u8>| #[trigger] entries1.contains_key(j) && j != hash@ implies
                entries0.contains_key(j) && entries1[j] == entries0[j] by {}
            if entries0.contains_key(hash@) {
                assert(entries1[hash@] == entries0[hash@]);
            } else {
                assert(entries1[hash@]@ == fresh_context(self.local_peer_id@, hash@));
            }
        }
        let popped = context_cache_pop(&mut self.contexts, &hash.0);
        let mut ctx = match popped {
            Some(c) => c,
            None => ProtocolContext::new(hash, self.local_peer_id.clone()),
        };
        let ghost entries2 = context_cache_entries(self.contexts);
        let is_echo = match &rb_msg.message_type {
            MessageType::Echo(_) => true,
            MessageType::Vote(_) => false,
        };
        let response = if is_echo {
            self.process_echo(&mut ctx, &rb_msg)
        } else {
            self.process_vote(&mut ctx, &rb_msg)
        };
        let ghost ctx_g = ctx;
        let _ = context_cache_put(&mut self.contexts, hash.0, ctx);
        proof {
            let entries3 = context_cache_entries(self.contexts);
            lemma_put_outcome(entries2, entries3, cap, hash@, ctx_g);
            assert forall|k: Seq<u8>| #[trigger] entries3.contains_key(k) implies {
                let c = entries3[k];
                c@.wf() && c@.local == self.local_peer_id@ && c@.hash == k
            } by {
                if k != hash@ {
                    assert(entries2.contains_key(k));
                    assert(entries1.contains_key(k));
                }
            }
        }
        response
    }

    /// An echo: record the sender; echo once; vote after enough echoes.
    fn process_echo(&self, ctx: &mut ProtocolContext, rb_msg: &RawRbMsg) -> (r: ProtocolResponse)
        requires
            self.quorum.wf(),
            old(ctx)@.wf(),
            old(ctx)@.local == self.local_peer_id@,
            rb_msg.message_type.is_echo(),
        ensures
            final(ctx)@.wf(),
            final(ctx)@.local == old(ctx)@.local,
            final(ctx)@.hash == old(ctx)@.hash,
            ({
                let step = echo_step(
                    self.quorum.cluster_size as nat,
                    self.quorum.max_faulty_nodes as nat,
                    old(ctx)@,
                    rb_msg.original_sender@,
                );
                final(ctx)@ == step.0 && response_for(
                    r,
                    step.1,
                    rb_msg.id@,
                    self.local_peer_id@,
                    rb_msg.message_type.block()@,
                )
            }),
    {
        if !self.local_peer_id.same(&rb_msg.original_sender) {
            ctx.add_echo(rb_msg.original_sender.clone());
        }
        if !ctx.echoed() {
            ctx.add_echo(self.local_peer_id.clone());
            let reply = rb_msg.echo_reply(self.local_peer_id.clone(), rb_msg.block());
            return ProtocolResponse::broadcast(reply);
        }
        if !ctx.voted() && self.quorum.check_threshold(ctx, BrachaMessageType::Echo).is_vote() {
            ctx.add_vote(self.local_peer_id.clone());
            let reply = rb_msg.vote_reply(self.local_peer_id.clone(), rb_msg.block());
            return ProtocolResponse::broadcast(reply);
        }
        ProtocolResponse::drop()
    }

    /// A vote: record the sender; vote after enough votes; deliver after enough votes
    /// once voted.
    fn process_vote(&self, ctx: &mut ProtocolContext, rb_msg: &RawRbMsg) -> (r: ProtocolResponse)
        requires
            self.quorum.wf(),
            old(ctx)@.wf(),
            old(ctx)@.local == self.local_peer_id@,
            !rb_msg.message_type.is_echo(),
        ensures
            final(ctx)@.wf(),
            final(ctx)@.local == old(ctx)@.local,
            final(ctx)@.hash == old(ctx)@.hash,
            ({
                let step = vote_step(
                    self.quorum.cluster_size as nat,
                    self.quorum.max_faulty_nodes as nat,
                    old(ctx)@,
                    rb_msg.original_sender@,
                );
                final(ctx)@ == step.0 && response_for(
                    r,
                    step.1,
                    rb_msg.id@,
                    self.local_peer_id@,
                    rb_msg.message_type.block()@,
                )
            }),
    {
        if !self.local_peer_id.same(&rb_msg.original_sender) {
            ctx.add_vote(rb_msg.original_sender.clone());
        }
        let action = self.quorum.check_threshold(ctx, BrachaMessageType::Vote);
        if action.is_vote() {
            ctx.add_vote(self.local_peer_id.clone());
            let reply = rb_msg.vote_reply(self.local_peer_id.clone(), rb_msg.block());
            return ProtocolResponse::broadcast(reply);
        }
        if action.is_deliver() {
            return ProtocolResponse::deliver();
        }
        ProtocolResponse::drop()
    }
}

} // verus!
