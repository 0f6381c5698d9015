//! The application that runs on top of a node: it checks messages and blocks and
//! receives the blocks that the cluster delivered.

use vstd::prelude::*;
use crate::api::types::{ApiBlock, ApiEphemeraMessage};

verus! {

/// Which messages leave the pool when the application rejects a block.
#[derive(Debug)]
pub enum RemoveMessages {
    /// Remove all messages of the block from the pool.
    All,
    /// Remove only these messages from the pool.
    Selected(Vec<ApiEphemeraMessage>),
}

/// The application's verdict on a proposed block.
#[derive(Debug)]
pub enum CheckBlockResult {
    /// Accept the block.
    Accept,
    /// Reject the block.
    Reject,
    /// Reject the block and remove messages from the pool.
    RejectAndRemoveMessages(RemoveMessages),
}

/// A verdict with an optional reason.
#[derive(Debug, PartialEq, Eq)]
pub struct CheckBlockResponse {
    pub accept: bool,
    pub reason: Option<String>,
}

/// An error reported by the application.
#[derive(Debug)]
pub enum ApplicationError {
    GeneralError(anyhow::Error),
}

/// A result of an application hook.
pub type Result<T> = core::result::Result<T, ApplicationError>;

/// The hooks that the node calls on the application.
///
/// They are called from the main loop of the node, so they should be quick, should
/// not wait on a lock and should not panic.
pub trait Application {
    /// Called for each new message before it enters the pool: whether the message is
    /// valid for the application (for example, whether its signature checks).
    fn check_tx(&self, message: ApiEphemeraMessage) -> Result<bool>;

    /// Called for each block that this node proposes: whether to go ahead with it.
    fn check_block(&self, block: &ApiBlock) -> Result<CheckBlockResult>;

    /// Called after a block was delivered by the cluster and stored.
    fn deliver_block(&self, block: ApiBlock) -> Result<()>;
}

/// An application that accepts every message and every block.
#[derive(Debug, Default)]
pub struct DefaultApplication;

impl Application for DefaultApplication {
    fn check_tx(&self, tx: ApiEphemeraMessage) -> (r: Result<bool>)
        ensures
            r matches Ok(b) && b,
    {
        Ok(true)
    }

    fn check_block(&self, block: &ApiBlock) -> (r: Result<CheckBlockResult>)
        ensures
            r matches Ok(CheckBlockResult::Accept),
    {
        Ok(CheckBlockResult::Accept)
    }

    fn deliver_block(&self, block: ApiBlock) -> (r: Result<()>)
        ensures
            r is Ok,
    {
        Ok(())
    }
}

} // verus!
