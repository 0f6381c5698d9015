//! Messages, blocks, the pool of pending messages and block production.
//!
//! Ephemera uses blocks to agree on a set of messages: every node may propose a block
//! of its pending messages; a block that completes reliable broadcast is committed and
//! its messages leave the pool.

pub mod callback;
pub mod manager;
pub mod message_pool;
pub mod producer;
pub mod types;
