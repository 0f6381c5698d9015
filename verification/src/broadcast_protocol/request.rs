//! The messages of the three phase broadcast protocol.

use vstd::prelude::*;
use crate::bytes::clone_bytes;

verus! {

/// A time stamp of the protobuf well known types.
#[verifier::external_type_specification]
#[verifier::external_body]
pub struct ExTimestamp(prost_types::Timestamp);

/// `prost_types::Timestamp::from(std::time::SystemTime::now())`: the current time.
/// Nothing is claimed of the value.
#[verifier::external_body]
pub(crate) fn timestamp_now() -> (r: prost_types::Timestamp) {
    prost_types::Timestamp::from(std::time::SystemTime::now())
}

/// The first message of a broadcast, from the client to one node.
#[derive(Debug, PartialEq, Eq)]
pub struct PrePrepareMsg {
    pub payload: Vec<u8>,
}

/// A node prepared a message.
#[derive(Debug, PartialEq, Eq)]
pub struct PrepareMsg {
    pub payload: Vec<u8>,
}

/// A node committed a message.
#[derive(Debug, PartialEq, Eq)]
pub struct CommitMsg {}

/// A node already finished this phase.
#[derive(Debug, PartialEq, Eq)]
pub struct AckMsg {}

/// The phase of a broadcast message.
#[derive(Debug, PartialEq, Eq)]
pub enum ReliableBroadcast {
    PrePrepare(PrePrepareMsg),
    Prepare(PrepareMsg),
    Commit(CommitMsg),
    Ack(AckMsg),
}

/// The abstract value of a phase.
pub enum PhaseView {
    PrePrepare(Seq<u8>),
    Prepare(Seq<u8>),
    Commit,
    Ack,
}

impl View for ReliableBroadcast {
    type V = PhaseView;

    open spec fn view(&self) -> PhaseView {
        match self {
            ReliableBroadcast::PrePrepare(m) => PhaseView::PrePrepare(m.payload@),
            ReliableBroadcast::Prepare(m) => PhaseView::Prepare(m.payload@),
            ReliableBroadcast::Commit(_) => PhaseView::Commit,
            ReliableBroadcast::Ack(_) => PhaseView::Ack,
        }
    }
}

impl Clone for ReliableBroadcast {
    fn clone(&self) -> (r: Self)
        ensures
            r@ == self@,
    {
        match self {
            ReliableBroadcast::PrePrepare(m) => ReliableBroadcast::PrePrepare(
                PrePrepareMsg { payload: clone_bytes(&m.payload) },
            ),
            ReliableBroadcast::Prepare(m) => ReliableBroadcast::Prepare(
                PrepareMsg { payload: clone_bytes(&m.payload) },
            ),
            ReliableBroadcast::Commit(_) => ReliableBroadcast::Commit(CommitMsg {}),
            ReliableBroadcast::Ack(_) => ReliableBroadcast::Ack(AckMsg {}),
        }
    }
}

/// A message of the broadcast protocol.
#[derive(Debug, PartialEq, Eq)]
pub struct RbMsg {
    /// The id of the broadcast.
    pub id: String,
    /// The node that sent this message.
    pub node_id: String,
    pub timestamp: Option<prost_types::Timestamp>,
    /// An id that the client chose.
    pub custom_message_id: String,
    pub reliable_broadcast: Option<ReliableBroadcast>,
}

/// The abstract value of a message (its time stamp left out).
pub struct RbMsgView {
    pub id: Seq<char>,
    pub node_id: Seq<char>,
    pub custom_message_id: Seq<char>,
    pub reliable_broadcast: Option<PhaseView>,
}

impl View for RbMsg {
    type V = RbMsgView;

    open spec fn view(&self) -> RbMsgView {
        RbMsgView {
            id: self.id@,
            node_id: self.node_id@,
            custom_message_id: self.custom_message_id@,
            reliable_broadcast: match self.reliable_broadcast {
                Some(m) => Some(m@),
                None => None,
            },
        }
    }
}

impl Clone for RbMsg {
    fn clone(&self) -> (r: Self)
        ensures
            r@ == self@,
            r.timestamp == self.timestamp,
    {
        RbMsg {
            id: self.id.clone(),
            node_id: self.node_id.clone(),
            timestamp: self.timestamp,
            custom_message_id: self.custom_message_id.clone(),
            reliable_broadcast: match &self.reliable_broadcast {
                Some(m) => Some(m.clone()),
                None => None,
            },
        }
    }
}

} // verus!
