//! Quorums of the three phase broadcast protocol.

use vstd::prelude::*;
use crate::config::BroadcastProtocolSettings;

verus! {

/// When enough peers prepared or committed a message.
pub trait Quorum {
    /// Whether `ready` peers that prepared a message make a quorum.
    spec fn prepare_reached(&self, ready: nat) -> bool;

    /// Whether `ready` peers that committed a message make a quorum.
    spec fn commit_reached(&self, ready: nat) -> bool;

    fn prepare_threshold(&self, ready: usize) -> (r: bool)
        ensures
            r == self.prepare_reached(ready as nat),
    ;

    fn commit_threshold(&self, ready: usize) -> (r: bool)
        ensures
            r == self.commit_reached(ready as nat),
    ;
}

/// A quorum of the whole cluster: every peer has to take part.
#[derive(Debug, Clone, Copy, PartialEq, Eq)]
pub struct BasicQuorum {
    pub size: usize,
    pub threshold: usize,
}

impl BasicQuorum {
    pub fn new(settings: BroadcastProtocolSettings) -> (r: Self)
        ensures
            r.size == settings.cluster_size,
            r.threshold == settings.quorum_threshold_size,
    {
        BasicQuorum { size: settings.cluster_size, threshold: settings.quorum_threshold_size }
    }
}

impl Quorum for BasicQuorum {
    open spec fn prepare_reached(&self, ready: nat) -> bool {
        ready == self.size
    }

    open spec fn commit_reached(&self, ready: nat) -> bool {
        ready == self.size
    }

    fn prepare_threshold(&self, ready: usize) -> (r: bool)
        ensures
            r == (ready == self.size),
    {
        ready == self.size
    }

    fn commit_threshold(&self, ready: usize) -> (r: bool)
        ensures
            r == (ready == self.size),
    {
        ready == self.size
    }
}

} // verus!
