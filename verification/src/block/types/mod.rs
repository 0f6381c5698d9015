//! The block and message types.

pub mod block;
pub mod message;
pub mod order;
