//! A quorum of the echo/vote broadcast that asks for every peer of the cluster.

use vstd::prelude::*;
use crate::broadcast::{MessageType, ProtocolContext};
use crate::config::BroadcastConfig;

verus! {

/// Every peer of the cluster has to echo, and to vote.
#[derive(Debug, Clone, Copy, PartialEq, Eq)]
pub struct BasicQuorum {
    pub size: usize,
    pub threshold: usize,
}

impl BasicQuorum {
    pub fn new(settings: BroadcastConfig) -> (r: Self)
        ensures
            r.size == settings.cluster_size,
            r.threshold == settings.cluster_size,
    {
        BasicQuorum { size: settings.cluster_size, threshold: settings.cluster_size }
    }

    /// Whether the echoes (in the echo phase) or the votes (in the vote phase) of
    /// `ctx` reach the threshold.
    pub fn check_threshold(&self, ctx: &ProtocolContext, phase: &MessageType) -> (r: bool)
        ensures
            phase.is_echo() ==> r == (ctx@.echo.len() >= self.threshold),
            !phase.is_echo() ==> r == (ctx@.vote.len() >= self.threshold),
    {
        match phase {
            MessageType::Echo(_) => ctx.echo.len() >= self.threshold,
            MessageType::Vote(_) => ctx.vote.len() >= self.threshold,
        }
    }
}

} // verus!
