//! A three phase reliable broadcast of client messages among the nodes of a cluster:
//! a client sends a message to one node (pre-prepare); every node that learns of the
//! message tells all others that it prepared it; after a quorum of prepares, the node
//! that received the message first tells all others to commit; after a quorum of
//! commits, a node considers the message committed.

pub mod broadcast;
pub mod request;
pub mod signer;

use vstd::prelude::*;
use crate::broadcast_protocol::broadcast::{ConsensusContext};
use crate::broadcast_protocol::request::{
    timestamp_now, PhaseView, PrePrepareMsg, RbMsg, RbMsgView, ReliableBroadcast,
};
use crate::utilities::EphemeraId;

verus! {

/// A message of the protocol and the host it came from.
#[derive(Debug)]
pub struct EphemeraSigningRequest {
    pub origin: String,
    pub message: RbMsg,
}

impl Clone for EphemeraSigningRequest {
    fn clone(&self) -> (r: Self)
        ensures
            r.origin@ == self.origin@,
            r.message@ == self.message@,
    {
        EphemeraSigningRequest { origin: self.origin.clone(), message: self.message.clone() }
    }
}

impl EphemeraSigningRequest {
    pub fn new(origin_host: String, message: RbMsg) -> (r: EphemeraSigningRequest)
        ensures
            r.origin@ == origin_host@,
            r.message@ == message@,
    {
        EphemeraSigningRequest { origin: origin_host, message }
    }
}

/// Whether a reply goes to all peers or nowhere.
#[derive(Debug, Clone, Copy, PartialEq, Eq, Structural)]
pub enum Kind {
    Broadcast,
    Drop,
}

/// A node's reply to a message of the protocol.
#[derive(Debug)]
pub struct ProtocolResponse {
    pub kind: Kind,
    pub protocol_reply: RbMsg,
}

impl View for ProtocolResponse {
    type V = (Kind, RbMsgView);

    open spec fn view(&self) -> (Kind, RbMsgView) {
        (self.kind, self.protocol_reply@)
    }
}

/// Hooks that the protocol calls as a message goes through its phases.  A hook may
/// replace the payload that is sent on (by returning `Some`), or fail, which fails the
/// handling of the message.  Each hook does nothing by default.
pub trait BroadcastCallBack {
    /// A client's message arrived at this node.
    fn pre_prepare(
        &mut self,
        msg_id: String,
        custom_message_id: String,
        sender: String,
        payload: Vec<u8>,
        ctx: &ConsensusContext,
    ) -> (r: Result<Option<Vec<u8>>, anyhow::Error>)
        default_ensures
            r matches Ok(None),
    {
        Ok(None)
    }

    /// A prepare of a peer arrived.
    fn prepare(
        &mut self,
        msg_id: String,
        custom_message_id: String,
        sender: String,
        payload: Vec<u8>,
        ctx: &ConsensusContext,
    ) -> (r: Result<Option<Vec<u8>>, anyhow::Error>)
        default_ensures
            r matches Ok(None),
    {
        Ok(None)
    }

    /// A commit of a peer arrived.
    fn commit(
        &mut self,
        msg_id: String,
        custom_message_id: String,
        sender: String,
        ctx: &ConsensusContext,
    ) -> (r: Result<(), anyhow::Error>)
        default_ensures
            r is Ok,
    {
        Ok(())
    }

    /// The message reached a quorum of prepares.
    fn prepared(&mut self, ctx: &ConsensusContext) -> (r: Result<(), anyhow::Error>)
        default_ensures
            r is Ok,
    {
        Ok(())
    }

    /// The message reached a quorum of commits.
    fn committed(&mut self, ctx: &ConsensusContext) -> (r: Result<(), anyhow::Error>)
        default_ensures
            r is Ok,
    {
        Ok(())
    }
}

/// The first message of a broadcast of `payload`, as a client sends it: a fresh
/// random id, stamped with the current time.
pub fn pre_prepare_msg(sender_id: String, custom_message_id: String, payload: Vec<u8>) -> (r: RbMsg)
    ensures
        r@.node_id == sender_id@,
        r@.custom_message_id == custom_message_id@,
        r@.reliable_broadcast == Some(PhaseView::PrePrepare(payload@)),
        r.timestamp is Some,
{
    RbMsg {
        id: EphemeraId::generate().0,
        node_id: sender_id,
        timestamp: Some(timestamp_now()),
        custom_message_id,
        reliable_broadcast: Some(ReliableBroadcast::PrePrepare(PrePrepareMsg { payload })),
    }
}

} // verus!
