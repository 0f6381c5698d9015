//! Reliable broadcast of blocks (Bracha's protocol).
//!
//! A node that receives a block for the first time echoes it to all peers.  After
//! enough echoes it votes for the block; after enough votes it delivers the block.
//! Every message names the block; the state kept per block is a [`ProtocolContext`]:
//! the peers that echoed and the peers that voted, this node included.

use vstd::prelude::*;
use crate::block::types::block::Block;
use crate::crypto::{Certificate, HashType, PeerId};
use crate::utilities::{EphemeraId, EphemeraTime};

pub mod basic;
pub mod bracha;
pub mod group;
pub mod quorum;
pub mod signing;

verus! {

/// The byte views of a list of peer ids.
pub open spec fn peer_views(v: Seq<PeerId>) -> Seq<Seq<u8>> {
    v.map_values(|p: PeerId| p@)
}

/// A set of peers held as a list without repetitions: `s` with `p` added.
pub open spec fn with_peer(s: Seq<Seq<u8>>, p: Seq<u8>) -> Seq<Seq<u8>> {
    if s.contains(p) {
        s
    } else {
        s.push(p)
    }
}

/// Adding a peer keeps a list free of repetitions.
pub proof fn lemma_with_peer_no_duplicates(s: Seq<Seq<u8>>, p: Seq<u8>)
    requires
        s.no_duplicates(),
    ensures
        with_peer(s, p).no_duplicates(),
        with_peer(s, p).contains(p),
        forall|q: Seq<u8>| s.contains(q) ==> with_peer(s, p).contains(q),
        forall|q: Seq<u8>| with_peer(s, p).contains(q) ==> (s.contains(q) || q == p),
        with_peer(s, p).len() == if s.contains(p) { s.len() } else { s.len() + 1 },
{
    if !s.contains(p) {
        let t = s.push(p);
        assert(t.last() == p);
        assert forall|i: int, j: int| 0 <= i < t.len() && 0 <= j < t.len() && i != j implies t[i]
            != t[j] by {
            if i < s.len() && j < s.len() {
                assert(t[i] == s[i] && t[j] == s[j]);
            } else if i == s.len() {
                assert(t[j] == s[j]);
            } else {
                assert(t[i] == s[i]);
            }
        }
        assert forall|q: Seq<u8>| s.contains(q) implies t.contains(q) by {
            let k = choose|k: int| 0 <= k < s.len() && s[k] == q;
            assert(t[k] == q);
        }
        assert forall|q: Seq<u8>| t.contains(q) implies (s.contains(q) || q == p) by {
            let k = choose|k: int| 0 <= k < t.len() && t[k] == q;
            if k < s.len() {
                assert(s[k] == q);
            }
        }
    }
}

/// Whether the list holds a peer with the same bytes as `p`.
pub fn contains_peer(v: &Vec<PeerId>, p: &PeerId) -> (r: bool)
    ensures
        r == peer_views(v@).contains(p@),
{
    let mut i: usize = 0;
    while i < v.len()
        invariant
            i <= v@.len(),
            forall|j: int| 0 <= j < i ==> v@[j]@ != p@,
        decreases v@.len() - i,
    {
        if v[i].same(p) {
            assert(peer_views(v@)[i as int] == p@);
            return true;
        }
        i = i + 1;
    }
    assert forall|k: int| 0 <= k < peer_views(v@).len() implies peer_views(v@)[k] != p@ by {
        assert(peer_views(v@)[k] == v@[k]@);
    }
    false
}

/// Adds a peer to a list unless a peer with the same bytes is there.
pub fn insert_peer(v: &mut Vec<PeerId>, p: PeerId)
    ensures
        peer_views(final(v)@) == with_peer(peer_views(old(v)@), p@),
{
    if !contains_peer(v, &p) {
        let ghost pv = p@;
        v.push(p);
        assert(peer_views(v@) =~= peer_views(old(v)@).push(pv));
    }
}

/// Clones a list of peer ids.
pub fn clone_peers(v: &Vec<PeerId>) -> (r: Vec<PeerId>)
    ensures
        peer_views(r@) == peer_views(v@),
{
    let mut out: Vec<PeerId> = Vec::new();
    let mut i: usize = 0;
    while i < v.len()
        invariant
            i <= v@.len(),
            out@.len() == i,
            forall|j: int| 0 <= j < i ==> out@[j]@ == v@[j]@,
        decreases v@.len() - i,
    {
        out.push(v[i].clone());
        i = i + 1;
    }
    assert(peer_views(out@) =~= peer_views(v@));
    out
}

/// The abstract state of the broadcast of one block.
pub struct ContextView {
    pub local: Seq<u8>,
    pub hash: Seq<u8>,
    pub echo: Seq<Seq<u8>>,
    pub vote: Seq<Seq<u8>>,
}

impl ContextView {
    /// Both peer lists are free of repetitions.
    pub open spec fn wf(self) -> bool {
        self.echo.no_duplicates() && self.vote.no_duplicates()
    }

    pub open spec fn echoed(self) -> bool {
        self.echo.contains(self.local)
    }

    pub open spec fn voted(self) -> bool {
        self.vote.contains(self.local)
    }

    pub open spec fn add_echo(self, p: Seq<u8>) -> ContextView {
        ContextView { echo: with_peer(self.echo, p), ..self }
    }

    pub open spec fn add_vote(self, p: Seq<u8>) -> ContextView {
        ContextView { vote: with_peer(self.vote, p), ..self }
    }
}

/// The state of the broadcast of one block on this node.
#[derive(Debug)]
pub struct ProtocolContext {
    pub local_peer_id: PeerId,
    /// Hash of the block.
    pub hash: HashType,
    /// Peers that echoed the block (this peer included).
    pub echo: Vec<PeerId>,
    /// Peers that voted for the block (this peer included).
    pub vote: Vec<PeerId>,
}

impl View for ProtocolContext {
    type V = ContextView;

    open spec fn view(&self) -> ContextView {
        ContextView {
            local: self.local_peer_id@,
            hash: self.hash@,
            echo: peer_views(self.echo@),
            vote: peer_views(self.vote@),
        }
    }
}

impl Clone for ProtocolContext {
    fn clone(&self) -> (r: Self)
        ensures
            r@ == self@,
    {
        ProtocolContext {
            local_peer_id: self.local_peer_id.clone(),
            hash: self.hash,
            echo: clone_peers(&self.echo),
            vote: clone_peers(&self.vote),
        }
    }
}

impl ProtocolContext {
    /// A context for the block with hash `hash` in which nobody echoed or voted yet.
    pub fn new(hash: HashType, local_peer_id: PeerId) -> (r: ProtocolContext)
        ensures
            r@ == (ContextView {
                local: local_peer_id@,
                hash: hash@,
                echo: Seq::empty(),
                vote: Seq::empty(),
            }),
    {
        let r = ProtocolContext { local_peer_id, hash, echo: Vec::new(), vote: Vec::new() };
        assert(r@.echo =~= Seq::<Seq<u8>>::empty());
        assert(r@.vote =~= Seq::<Seq<u8>>::empty());
        r
    }

    /// Records an echo of `peer`.
    pub fn add_echo(&mut self, peer: PeerId)
        requires
            old(self)@.wf(),
        ensures
            final(self)@ == old(self)@.add_echo(peer@),
            final(self)@.wf(),
    {
        proof {
            lemma_with_peer_no_duplicates(self@.echo, peer@);
        }
        insert_peer(&mut self.echo, peer);
    }

    /// Records a vote of `peer`.
    pub fn add_vote(&mut self, peer: PeerId)
        requires
            old(self)@.wf(),
        ensures
            final(self)@ == old(self)@.add_vote(peer@),
            final(self)@.wf(),
    {
        proof {
            lemma_with_peer_no_duplicates(self@.vote, peer@);
        }
        insert_peer(&mut self.vote, peer);
    }

    /// Whether this node echoed the block.
    pub fn echoed(&self) -> (r: bool)
        ensures
            r == self@.echoed(),
    {
        contains_peer(&self.echo, &self.local_peer_id)
    }

    /// Whether this node voted for the block.
    pub fn voted(&self) -> (r: bool)
        ensures
            r == self@.voted(),
    {
        contains_peer(&self.vote, &self.local_peer_id)
    }
}

/// The phase of a broadcast message, with the block it is about.
#[derive(Debug, PartialEq, Eq)]
pub enum MessageType {
    Echo(Block),
    Vote(Block),
}

impl MessageType {
    pub open spec fn is_echo(&self) -> bool {
        self is Echo
    }

    pub open spec fn block(&self) -> Block {
        match self {
            MessageType::Echo(b) => *b,
            MessageType::Vote(b) => *b,
        }
    }
}

impl Clone for MessageType {
    fn clone(&self) -> (r: Self)
        ensures
            r.is_echo() == self.is_echo(),
            r.block()@ == self.block()@,
    {
        match self {
            MessageType::Echo(b) => MessageType::Echo(b.clone()),
            MessageType::Vote(b) => MessageType::Vote(b.clone()),
        }
    }
}

/// A broadcast message before it is signed.
#[derive(Debug, PartialEq, Eq)]
pub struct RawRbMsg {
    /// Unique id of the broadcast, the same throughout the protocol.
    pub id: EphemeraId,
    /// Id of this particular message; new for every reply.
    pub request_id: EphemeraId,
    /// The peer that created this message.
    pub original_sender: PeerId,
    /// When the message was created.
    pub timestamp: u64,
    /// The phase and the block.
    pub message_type: MessageType,
}

impl Clone for RawRbMsg {
    fn clone(&self) -> (r: Self)
        ensures
            r.id@ == self.id@,
            r.request_id@ == self.request_id@,
            r.original_sender@ == self.original_sender@,
            r.timestamp == self.timestamp,
            r.message_type.is_echo() == self.message_type.is_echo(),
            r.message_type.block()@ == self.message_type.block()@,
    {
        RawRbMsg {
            id: self.id.clone(),
            request_id: self.request_id.clone(),
            original_sender: self.original_sender.clone(),
            timestamp: self.timestamp,
            message_type: self.message_type.clone(),
        }
    }
}

impl RawRbMsg {
    /// The first message of a new broadcast: an echo of `block` with fresh ids.
    pub fn new(block: Block, original_sender: PeerId) -> (r: RawRbMsg)
        ensures
            r.original_sender@ == original_sender@,
            r.message_type.is_echo(),
            r.message_type.block()@ == block@,
    {
        RawRbMsg {
            id: EphemeraId::generate(),
            request_id: EphemeraId::generate(),
            original_sender,
            timestamp: EphemeraTime::now(),
            message_type: MessageType::Echo(block),
        }
    }

    /// The block the message is about.
    pub fn block_ref(&self) -> (r: &Block)
        ensures
            *r == self.message_type.block(),
    {
        match &self.message_type {
            MessageType::Echo(block) => block,
            MessageType::Vote(block) => block,
        }
    }

    /// A copy of the block the message is about.
    pub fn block(&self) -> (r: Block)
        ensures
            r@ == self.message_type.block()@,
    {
        self.block_ref().clone()
    }

    /// A reply in the same broadcast, sent by `local_id`, with a fresh request id.
    pub fn reply(&self, local_id: PeerId, phase: MessageType) -> (r: Self)
        ensures
            r.id@ == self.id@,
            r.original_sender@ == local_id@,
            r.message_type == phase,
    {
        RawRbMsg {
            id: self.id.clone(),
            request_id: EphemeraId::generate(),
            original_sender: local_id,
            timestamp: EphemeraTime::now(),
            message_type: phase,
        }
    }

    /// An echo of `data` in the same broadcast.
    pub fn echo_reply(&self, local_id: PeerId, data: Block) -> (r: Self)
        ensures
            r.id@ == self.id@,
            r.original_sender@ == local_id@,
            r.message_type.is_echo(),
            r.message_type.block() == data,
    {
        self.reply(local_id, MessageType::Echo(data))
    }

    /// A vote for `data` in the same broadcast.
    pub fn vote_reply(&self, local_id: PeerId, data: Block) -> (r: Self)
        ensures
            r.id@ == self.id@,
            r.original_sender@ == local_id@,
            !r.message_type.is_echo(),
            r.message_type.block() == data,
    {
        self.reply(local_id, MessageType::Vote(data))
    }
}

/// A signed broadcast message, as it travels between nodes.
#[derive(Debug, PartialEq, Eq)]
pub struct RbMsg {
    pub id: EphemeraId,
    pub request_id: EphemeraId,
    pub original_sender: PeerId,
    pub timestamp: u64,
    pub phase: MessageType,
    /// Signature of the block by the sender.
    pub certificate: Certificate,
}

impl RbMsg {
    /// Attaches the sender's certificate to a raw message.
    pub fn new(raw: RawRbMsg, signature: Certificate) -> (r: RbMsg)
        ensures
            r.id == raw.id,
            r.request_id == raw.request_id,
            r.original_sender == raw.original_sender,
            r.timestamp == raw.timestamp,
            r.phase == raw.message_type,
            r.certificate == signature,
    {
        RbMsg {
            id: raw.id,
            request_id: raw.request_id,
            original_sender: raw.original_sender,
            timestamp: raw.timestamp,
            phase: raw.message_type,
            certificate: signature,
        }
    }

    /// The block the message is about.
    pub fn get_block(&self) -> (r: &Block)
        ensures
            *r == self.phase.block(),
    {
        match &self.phase {
            MessageType::Echo(block) => block,
            MessageType::Vote(block) => block,
        }
    }

    /// Drops the certificate.
    pub fn into_raw(self) -> (r: RawRbMsg)
        ensures
            r.id == self.id,
            r.request_id == self.request_id,
            r.original_sender == self.original_sender,
            r.timestamp == self.timestamp,
            r.message_type == self.phase,
    {
        RawRbMsg {
            id: self.id,
            request_id: self.request_id,
            original_sender: self.original_sender,
            timestamp: self.timestamp,
            message_type: self.phase,
        }
    }
}

/// Whether a broadcast is still going on for this node.
#[derive(Debug, PartialEq, Eq, Structural, Clone, Copy)]
pub enum Status {
    Pending,
    Completed,
}

/// Whether the reply should be sent to the other nodes.
#[derive(Debug, PartialEq, Eq, Structural, Clone, Copy)]
pub enum Command {
    Broadcast,
    Drop,
}

} // verus!
