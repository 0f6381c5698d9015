//! Bracha's reliable broadcast: thresholds and the per-node state machine.

pub mod broadcaster;
pub mod quorum;
pub mod topology;
