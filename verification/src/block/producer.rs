//! Block production: the pending messages in ascending order under a fresh header.

use vstd::prelude::*;
use crate::block::types::block::{messages_view, raw_block_hash, Block, RawBlock, RawBlockHeader};
use crate::block::types::message::EphemeraMessage;
use crate::block::types::order::{sort_messages, sorted};
use crate::crypto::PeerId;

verus! {

/// Makes the blocks of one node.
pub struct BlockProducer {
    pub peer_id: PeerId,
}

impl BlockProducer {
    pub fn new(peer_id: PeerId) -> (r: Self)
        ensures
            r.peer_id@ == peer_id@,
    {
        BlockProducer { peer_id }
    }

    /// A block at `height` holding `pending_messages`.
    pub fn produce_block(&mut self, height: u64, pending_messages: Vec<EphemeraMessage>) -> (r:
        Block)
        ensures
            final(self).peer_id@ == old(self).peer_id@,
            r@.header.creator == old(self).peer_id@,
            r@.header.height == height,
            sorted(r@.messages),
            r@.messages.to_multiset() == messages_view(pending_messages@).to_multiset(),
            r@.hash == raw_block_hash(r@.header, r@.messages),
    {
        self.new_block(height, pending_messages)
    }

    /// Sorts the messages, stamps a header with the current time and hashes the block.
    fn new_block(&self, height: u64, messages: Vec<EphemeraMessage>) -> (r: Block)
        ensures
            r@.header.creator == self.peer_id@,
            r@.header.height == height,
            sorted(r@.messages),
            r@.messages.to_multiset() == messages_view(messages@).to_multiset(),
            r@.hash == raw_block_hash(r@.header, r@.messages),
    {
        let messages = sort_messages(messages);
        let raw_header = RawBlockHeader::new(self.peer_id.clone(), height);
        let raw_block = RawBlock::new(raw_header, messages);
        let block_hash = raw_block.hash_with_default_hasher();
        Block::new(raw_block, block_hash)
    }
}

} // verus!
