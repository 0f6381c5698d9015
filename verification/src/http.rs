//! What the HTTP API of the broadcast protocol turns a request into, and how a client
//! of the node's HTTP API reads the status of an answer.

use vstd::prelude::*;
use crate::broadcast_protocol::request::PhaseView;
use crate::broadcast_protocol::{pre_prepare_msg, EphemeraSigningRequest};

verus! {

/// A client asks the cluster to sign `message`.
#[derive(Debug, PartialEq, Eq)]
pub struct MessageSigningRequest {
    pub request_id: String,
    pub custom_message_id: String,
    pub message: Vec<u8>,
}

/// The signing request that a client at `origin` starts: a fresh broadcast of the
/// message, from `origin`, with the client's own id.
pub fn signing_request(origin: String, request: MessageSigningRequest) -> (r: EphemeraSigningRequest)
    ensures
        r.origin@ == origin@,
        r.message@.node_id == origin@,
        r.message@.custom_message_id == request.custom_message_id@,
        r.message@.reliable_broadcast == Some(PhaseView::PrePrepare(request.message@)),
{
    let rb_msg = pre_prepare_msg(origin.clone(), request.custom_message_id, request.message);
    EphemeraSigningRequest::new(origin, rb_msg)
}

/// How a client reads an answer to a query that may find nothing.
#[derive(Debug, Clone, Copy, PartialEq, Eq, Structural)]
pub enum QueryStatus {
    /// A success status (2xx): the body holds the value.
    Found,
    /// Not found (404): there is no such value.
    NotFound,
    /// Any other status: the query failed.
    Unexpected,
}

/// The reading of an HTTP status code for a query that may find nothing.
pub fn optional_query_status(status: u16) -> (r: QueryStatus)
    ensures
        200 <= status < 300 ==> r == QueryStatus::Found,
        status == 404 ==> r == QueryStatus::NotFound,
        !(200 <= status < 300) && status != 404 ==> r == QueryStatus::Unexpected,
{
    if 200 <= status && status < 300 {
        QueryStatus::Found
    } else if status == 404 {
        QueryStatus::NotFound
    } else {
        QueryStatus::Unexpected
    }
}

} // verus!
