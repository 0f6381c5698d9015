//! Thresholds of Bracha's reliable broadcast.
//!
//! For a group of `n` peers of which at most `f = ⌊n/3⌋` are faulty, a node
//! votes for a block after more than `n - f` echoes, or after more than `f` votes from
//! others (at least one of them from a correct peer), and delivers the block after more
//! than `n - f` votes, its own included.

use vstd::prelude::*;
use crate::broadcast::{ContextView, MessageType, ProtocolContext};

verus! {

/// The phase whose threshold is checked.
#[derive(Debug, Clone, Copy, PartialEq, Eq, Structural)]
pub enum BrachaMessageType {
    Echo,
    Vote,
}

/// What a node does once a threshold is checked.
#[derive(Debug, Clone, Copy, PartialEq, Eq, Structural)]
pub enum BrachaAction {
    Vote,
    Deliver,
    Ignore,
}

impl BrachaAction {
    pub fn is_vote(&self) -> (r: bool)
        ensures
            r == (*self is Vote),
    {
        match self {
            BrachaAction::Vote => true,
            _ => false,
        }
    }

    pub fn is_deliver(&self) -> (r: bool)
        ensures
            r == (*self is Deliver),
    {
        match self {
            BrachaAction::Deliver => true,
            _ => false,
        }
    }
}

impl BrachaMessageType {
    /// The phase of a broadcast message.
    pub fn from_message_type(message_type: &MessageType) -> (r: BrachaMessageType)
        ensures
            (r is Echo) == message_type.is_echo(),
    {
        match message_type {
            MessageType::Echo(_) => BrachaMessageType::Echo,
            MessageType::Vote(_) => BrachaMessageType::Vote,
        }
    }
}

/// The largest number of faulty peers that a group of `n` peers tolerates: `⌊n/3⌋`.
pub open spec fn max_faulty(n: nat) -> nat {
    n / 3
}

/// The action that the echo and vote counts call for.
pub open spec fn bracha_action(
    n: nat,
    f: nat,
    ctx: ContextView,
    phase: BrachaMessageType,
) -> BrachaAction {
    if n == 0 {
        BrachaAction::Ignore
    } else {
        match phase {
            BrachaMessageType::Echo => {
                if ctx.echo.len() > n - f {
                    BrachaAction::Vote
                } else {
                    BrachaAction::Ignore
                }
            },
            BrachaMessageType::Vote => {
                if !ctx.voted() && ctx.vote.len() > f {
                    BrachaAction::Vote
                } else if ctx.voted() && ctx.vote.len() > n - f {
                    BrachaAction::Deliver
                } else {
                    BrachaAction::Ignore
                }
            },
        }
    }
}

/// The size of the broadcast group and the number of faulty peers it tolerates.
#[derive(Debug)]
pub struct BrachaQuorum {
    pub cluster_size: usize,
    pub max_faulty_nodes: usize,
}

impl BrachaQuorum {
    /// `max_faulty_nodes` is `⌊cluster_size/3⌋`.
    pub open spec fn wf(&self) -> bool {
        self.max_faulty_nodes == max_faulty(self.cluster_size as nat)
    }

    /// A quorum for an empty group.
    pub fn new() -> (r: Self)
        ensures
            r.cluster_size == 0,
            r.max_faulty_nodes == 0,
            r.wf(),
    {
        BrachaQuorum { cluster_size: 0, max_faulty_nodes: 0 }
    }

    /// Sets the group size; the tolerated number of faulty peers follows it.
    pub fn update_group_size(&mut self, size: usize)
        ensures
            final(self).cluster_size == size,
            final(self).max_faulty_nodes == size / 3,
            final(self).wf(),
    {
        self.cluster_size = size;
        self.max_faulty_nodes = size / 3;
    }

    /// The action that the counts of `ctx` call for in `phase`.
    pub fn check_threshold(&self, ctx: &ProtocolContext, phase: BrachaMessageType) -> (r:
        BrachaAction)
        requires
            self.wf(),
        ensures
            r == bracha_action(
                self.cluster_size as nat,
                self.max_faulty_nodes as nat,
                ctx@,
                phase,
            ),
    {
        if self.cluster_size == 0 {
            return BrachaAction::Ignore;
        }
        let threshold = self.cluster_size - self.max_faulty_nodes;
        match phase {
            BrachaMessageType::Echo => {
                if ctx.echo.len() > threshold {
                    BrachaAction::Vote
                } else {
                    BrachaAction::Ignore
                }
            },
            BrachaMessageType::Vote => {
                let voted = ctx.voted();
                if !voted && ctx.vote.len() > self.max_faulty_nodes {
                    return BrachaAction::Vote;
                }
                if voted && ctx.vote.len() > threshold {
                    return BrachaAction::Deliver;
                }
                BrachaAction::Ignore
            },
        }
    }
}

/// The tolerated number of faulty peers is the largest `f` with `3f <= n`.
pub proof fn lemma_max_faulty_bound(n: nat)
    ensures
        3 * max_faulty(n) <= n,
        n < 3 * (max_faulty(n) + 1),
        n - max_faulty(n) >= 2 * max_faulty(n),
{
}

/// What the thresholds allow: nothing happens in an empty group; echoes never deliver,
/// and lead to a vote only when more than `n - f` peers echoed; a delivery needs this
/// node's own vote and more than `n - f` votes; a vote caused by votes needs more than
/// `f` of them.
pub proof fn lemma_threshold_laws(n: nat, ctx: ContextView, phase: BrachaMessageType)
    ensures
        n == 0 ==> bracha_action(n, max_faulty(n), ctx, phase) == BrachaAction::Ignore,
        bracha_action(n, max_faulty(n), ctx, BrachaMessageType::Echo) != BrachaAction::Deliver,
        bracha_action(n, max_faulty(n), ctx, BrachaMessageType::Echo) == BrachaAction::Vote
            ==> ctx.echo.len() > n - max_faulty(n),
        bracha_action(n, max_faulty(n), ctx, BrachaMessageType::Vote) == BrachaAction::Deliver
            ==> ctx.voted() && ctx.vote.len() > n - max_faulty(n),
        bracha_action(n, max_faulty(n), ctx, BrachaMessageType::Vote) == BrachaAction::Vote
            ==> !ctx.voted() && ctx.vote.len() > max_faulty(n),
{
}

/// Two sets of more than `n - f` peers of a group of `n` peers share more than `f`
/// peers: two quorums of votes always have a correct peer in common.
pub proof fn lemma_quorums_intersect(group: Set<Seq<u8>>, a: Set<Seq<u8>>, b: Set<Seq<u8>>)
    requires
        group.finite(),
        a.subset_of(group),
        b.subset_of(group),
        a.len() > group.len() - max_faulty(group.len()),
        b.len() > group.len() - max_faulty(group.len()),
    ensures
        a.intersect(b).len() > max_faulty(group.len()),
{
    let n = group.len();
    let f = max_faulty(n);
    vstd::set_lib::lemma_len_subset(a, group);
    vstd::set_lib::lemma_len_subset(b, group);
    vstd::set_lib::lemma_set_intersect_union_lens(a, b);
    vstd::set_lib::lemma_len_subset(a + b, group);
    lemma_max_faulty_bound(n);
}

/// More than `f` voters, of whom at most `f` are faulty, include a correct one: the
/// votes that make a node vote cannot all come from faulty peers.
pub proof fn lemma_votes_include_correct_peer(
    voters: Set<Seq<u8>>,
    faulty: Set<Seq<u8>>,
    f: nat,
)
    requires
        voters.finite(),
        faulty.finite(),
        faulty.len() <= f,
        voters.len() > f,
    ensures
        exists|p: Seq<u8>| voters.contains(p) && !faulty.contains(p),
{
    if forall|p: Seq<u8>| voters.contains(p) ==> faulty.contains(p) {
        assert(voters.subset_of(faulty));
        vstd::set_lib::lemma_len_subset(voters, faulty);
        assert(false);
    }
}

} // verus!
