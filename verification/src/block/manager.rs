//! The block manager of a node: the pool of pending messages, the blocks it proposes,
//! and the blocks it received.
//!
//! The node proposes a block every `creation_interval_sec` seconds (the caller runs
//! the timer and calls [`BlockManager::next_block`]).  A proposed block is pending
//! until the cluster commits it (its messages then leave the pool) or the application
//! rejects it.  While a proposed block is pending, the next proposal has the same
//! height, and repeats the pending block's messages when `repeat_last_block` is set.

use vstd::prelude::*;
use std::collections::hash_map::RandomState;
use lru::LruCache;
use crate::api::application::RemoveMessages;
use crate::api::types::ApiEphemeraMessage;
use crate::block::message_pool::MessagePool;
use crate::block::producer::BlockProducer;
use crate::block::types::block::{messages_view, raw_block_hash, raw_block_json, Block, BlockView};
use crate::block::types::message::{message_hash, EphemeraMessage, MessageView};
use crate::block::types::order::sorted;
use crate::broadcast::signing::{certificate_views, with_certificate, BlockSigner, SIGNATURE_CACHE_CAPACITY};
use crate::cache::{lemma_put_outcome_view, put_outcome, view_values};
use crate::config::BlockConfig;
use crate::crypto::{
    base58_text, ed25519_signature, ed25519_verifies, libp2p_peer_id_of, Certificate, HashBytes,
    HashType, Keypair, PeerId,
};
use crate::utilities::error_message;

verus! {

// ---------------------------------------------------------------------------
// The cache of recent blocks (`lru::LruCache`).
// ---------------------------------------------------------------------------

/// Recent blocks, by hash.
pub type BlockCache = LruCache<HashBytes, Block, RandomState>;

/// The blocks held by a block cache, by hash.
pub uninterp spec fn block_cache_entries(c: BlockCache) -> Map<Seq<u8>, Block>;

/// The capacity that a block cache was made with.
pub uninterp spec fn block_cache_capacity(c: BlockCache) -> nat;

/// No blocks at all.
pub open spec fn no_blocks() -> Map<Seq<u8>, Block> {
    Map::empty()
}

/// `LruCache::with_hasher` with capacity `cap` and std's `RandomState`: an empty cache.
#[verifier::external_body]
fn block_cache_new(cap: usize) -> (r: BlockCache)
    requires
        cap > 0,
    ensures
        block_cache_entries(r) == no_blocks(),
        block_cache_capacity(r) == cap,
        block_cache_entries(r).dom().finite(),
{
    match std::num::NonZeroUsize::new(cap) {
        Some(c) => LruCache::with_hasher(c, RandomState::new()),
        None => LruCache::with_hasher(std::num::NonZeroUsize::MIN, RandomState::new()),
    }
}

/// `LruCache::contains`: whether the key is present (the cache is not changed).
#[verifier::external_body]
fn block_cache_contains(c: &BlockCache, k: &HashBytes) -> (r: bool)
    ensures
        r == block_cache_entries(*c).contains_key(k@),
{
    c.contains(k)
}

/// `LruCache::put`: replaces the value of a present key (returning the old value), or
/// inserts a new key, dropping one present entry when the cache is full.
#[verifier::external_body]
fn block_cache_put(c: &mut BlockCache, k: HashBytes, v: Block) -> (r: Option<Block>)
    ensures
        put_outcome(
            block_cache_entries(*old(c)),
            block_cache_entries(*final(c)),
            block_cache_capacity(*old(c)),
            k@,
            v,
        ),
        block_cache_capacity(*final(c)) == block_cache_capacity(*old(c)),
        block_cache_entries(*final(c)).dom().finite(),
        block_cache_entries(*final(c)).len() <= block_cache_capacity(*final(c)),
        block_cache_entries(*old(c)).contains_key(k@) ==> r == Some(
            block_cache_entries(*old(c))[k@],
        ),
        !block_cache_entries(*old(c)).contains_key(k@) ==> r is None,
{
    c.put(k, v)
}

/// `LruCache::pop`: removes the key and returns its value.
#[verifier::external_body]
fn block_cache_pop(c: &mut BlockCache, k: &HashBytes) -> (r: Option<Block>)
    ensures
        block_cache_entries(*final(c)) == block_cache_entries(*old(c)).remove(k@),
        block_cache_capacity(*final(c)) == block_cache_capacity(*old(c)),
        block_cache_entries(*final(c)).dom().finite(),
        block_cache_entries(*final(c)).len() <= block_cache_capacity(*final(c)),
        block_cache_entries(*old(c)).contains_key(k@) ==> r == Some(
            block_cache_entries(*old(c))[k@],
        ),
        !block_cache_entries(*old(c)).contains_key(k@) ==> r is None,
{
    c.pop(k)
}

/// How many recent blocks a node keeps.
pub const BLOCK_CACHE_CAPACITY: usize = 1000;

// ---------------------------------------------------------------------------
// Errors.
// ---------------------------------------------------------------------------

/// Why the block manager refused something.
#[derive(Debug)]
pub enum BlockManagerError {
    /// The message (whose hash this is, in base58) is already in the pool.
    DuplicateMessage(String),
    /// Anything else.
    General(anyhow::Error),
}

// ---------------------------------------------------------------------------
// The chain state.
// ---------------------------------------------------------------------------

/// The blocks that the node keeps track of.
pub struct BlockChainState {
    /// Recent blocks: proposed by this node or received from the network.
    last_blocks: BlockCache,
    /// The block that this node proposed last, while it is pending.
    last_produced_block: Option<Block>,
    /// The block that was committed last.
    last_committed_block: Block,
}

impl BlockChainState {
    /// The recent blocks, by hash.
    pub closed spec fn blocks(&self) -> Map<Seq<u8>, BlockView> {
        view_values(block_cache_entries(self.last_blocks))
    }

    /// The pending block of this node, if any.
    pub closed spec fn last_produced(&self) -> Option<BlockView> {
        match self.last_produced_block {
            Some(b) => Some(b@),
            None => None,
        }
    }

    /// The last committed block.
    pub closed spec fn last_committed(&self) -> BlockView {
        self.last_committed_block@
    }

    pub closed spec fn wf(&self) -> bool {
        &&& block_cache_capacity(self.last_blocks) == BLOCK_CACHE_CAPACITY
        &&& block_cache_entries(self.last_blocks).dom().finite()
        &&& block_cache_entries(self.last_blocks).len() <= BLOCK_CACHE_CAPACITY
    }

    /// A state whose last committed block is `last_committed_block` and in which
    /// nothing is pending.
    pub fn new(last_committed_block: Block) -> (r: Self)
        ensures
            r.wf(),
            r.blocks() == Map::<Seq<u8>, BlockView>::empty(),
            r.last_produced() is None,
            r.last_committed() == last_committed_block@,
    {
        let r = BlockChainState {
            last_blocks: block_cache_new(BLOCK_CACHE_CAPACITY),
            last_produced_block: None,
            last_committed_block,
        };
        assert(r.blocks() =~= Map::<Seq<u8>, BlockView>::empty());
        r
    }

    /// The pending block becomes the last committed one.
    fn mark_last_produced_block_as_committed(&mut self)
        requires
            old(self).last_produced() is Some,
        ensures
            final(self).last_committed() == old(self).last_produced()->0,
            final(self).last_produced() is None,
            final(self).blocks() == old(self).blocks(),
            final(self).wf() == old(self).wf(),
    {
        match self.last_produced_block.take() {
            Some(b) => {
                self.last_committed_block = b;
            },
            None => {},
        }
    }

    /// Whether `hash` is the stated hash of the pending block.
    fn is_last_produced_block(&self, hash: &HashType) -> (r: bool)
        ensures
            r == (self.last_produced() matches Some(b) && b.hash == hash@),
    {
        match &self.last_produced_block {
            Some(block) => block.get_hash().same(hash),
            None => false,
        }
    }

    /// Whether a proposed block is pending.
    fn is_last_produced_block_is_pending(&self) -> (r: bool)
        ensures
            r == self.last_produced() is Some,
    {
        self.last_produced_block.is_some()
    }

    /// The height after the last committed block.
    fn next_block_height(&self) -> (r: u64)
        requires
            self.last_committed().header.height < u64::MAX,
        ensures
            r == self.last_committed().header.height + 1,
    {
        self.last_committed_block.get_height() + 1
    }

    /// Takes the pending block away.
    fn remove_last_produced_block(&mut self) -> (r: Block)
        requires
            old(self).last_produced() is Some,
        ensures
            Some(r@) == old(self).last_produced(),
            final(self).last_produced() is None,
            final(self).last_committed() == old(self).last_committed(),
            final(self).blocks() == old(self).blocks(),
            final(self).wf() == old(self).wf(),
    {
        match self.last_produced_block.take() {
            Some(b) => b,
            None => self.last_committed_block.clone(),
        }
    }

    /// Remembers a block under `hash`.
    fn remember_block(&mut self, hash: HashBytes, block: Block)
        requires
            old(self).wf(),
        ensures
            final(self).wf(),
            put_outcome(
                old(self).blocks(),
                final(self).blocks(),
                BLOCK_CACHE_CAPACITY as nat,
                hash@,
                block@,
            ),
            final(self).last_produced() == old(self).last_produced(),
            final(self).last_committed() == old(self).last_committed(),
    {
        let ghost before = block_cache_entries(self.last_blocks);
        let ghost bv = block;
        let _ = block_cache_put(&mut self.last_blocks, hash, block);
        proof {
            lemma_put_outcome_view(
                before,
                block_cache_entries(self.last_blocks),
                BLOCK_CACHE_CAPACITY as nat,
                hash@,
                bv,
            );
        }
    }

    /// Whether a block with hash `hash` is remembered.
    fn knows_block(&self, hash: &HashType) -> (r: bool)
        ensures
            r == self.blocks().contains_key(hash@),
    {
        block_cache_contains(&self.last_blocks, &hash.0)
    }

    /// A copy of the remembered block with hash `hash`.
    fn block(&mut self, hash: &HashType) -> (r: Option<Block>)
        requires
            old(self).wf(),
        ensures
            final(self).wf(),
            final(self).blocks() == old(self).blocks(),
            final(self).last_produced() == old(self).last_produced(),
            final(self).last_committed() == old(self).last_committed(),
            r matches Some(b) ==> old(self).blocks().contains_key(hash@) && b@ == old(
                self,
            ).blocks()[hash@],
            r is None <==> !old(self).blocks().contains_key(hash@),
    {
        let ghost before = block_cache_entries(self.last_blocks);
        match block_cache_pop(&mut self.last_blocks, &hash.0) {
            Some(b) => {
                let copy = b.clone();
                let _ = block_cache_put(&mut self.last_blocks, hash.0, b);
                proof {
                    assert(block_cache_entries(self.last_blocks) =~= before);
                    assert(self.blocks() =~= old(self).blocks());
                }
                Some(copy)
            },
            None => {
                proof {
                    assert(block_cache_entries(self.last_blocks) =~= before);
                    assert(self.blocks() =~= old(self).blocks());
                }
                None
            },
        }
    }
}

// ---------------------------------------------------------------------------
// The manager.
// ---------------------------------------------------------------------------

/// The hashes of a list of messages, as a set.
pub open spec fn message_hashes(ms: Seq<MessageView>) -> Set<Seq<u8>> {
    ms.map_values(|m: MessageView| message_hash(m)).to_set()
}

/// Pending messages, proposed blocks, received blocks and block signatures.
pub struct BlockManager {
    pub config: BlockConfig,
    /// Makes the blocks.
    pub block_producer: BlockProducer,
    /// The messages that are not in a committed block yet.
    pub message_pool: MessagePool,
    /// Signs and checks blocks.
    pub block_signer: BlockSigner,
    /// The blocks that the node keeps track of.
    pub block_chain_state: BlockChainState,
}

impl BlockManager {
    pub open spec fn wf(&self) -> bool {
        &&& self.message_pool.wf()
        &&& self.block_signer.wf()
        &&& self.block_chain_state.wf()
    }

    /// Whether the manager takes `block` from `sender` with `certificate`: it knows the
    /// block already, or the certificate's key is the sender's, the block's stated hash
    /// is its hash, and the certificate's signature of the block checks.
    pub open spec fn accepts_block(
        &self,
        sender: Seq<u8>,
        block: BlockView,
        certificate: (Seq<u8>, Seq<u8>),
    ) -> bool {
        let hash = raw_block_hash(block.header, block.messages);
        ||| self.block_chain_state.blocks().contains_key(hash)
        ||| libp2p_peer_id_of(certificate.1) == Some(sender) && block.hash == hash
            && ed25519_verifies(
            certificate.1,
            raw_block_json(block.header, block.messages),
            certificate.0,
        )
    }

    /// A node accepts a block that another node made and signed: when the block's stated
    /// hash is its hash and the certificate's signature of the block checks under the
    /// sender's own key, `on_block` takes the block from that sender, whatever blocks
    /// and signatures the manager holds.
    pub proof fn lemma_signed_block_accepted(
        &self,
        sender: Seq<u8>,
        block: BlockView,
        certificate: (Seq<u8>, Seq<u8>),
    )
        requires
            block.hash == raw_block_hash(block.header, block.messages),
            ed25519_verifies(
                certificate.1,
                raw_block_json(block.header, block.messages),
                certificate.0,
            ),
            libp2p_peer_id_of(certificate.1) == Some(sender),
        ensures
            self.accepts_block(sender, block, certificate),
    {
    }

    /// A manager with an empty pool whose last committed block is `last_committed_block`.
    pub fn new(config: BlockConfig, keypair: Keypair, last_committed_block: Block) -> (r: Self)
        requires
            keypair.wf(),
        ensures
            r.wf(),
            r.config == config,
            r.block_producer.peer_id@ == libp2p_peer_id_of(keypair.public_bytes())->0,
            r.message_pool.view() == Map::<Seq<u8>, MessageView>::empty(),
            r.block_signer.keypair() == keypair,
            r.block_signer.signatures() == Map::<Seq<u8>, Seq<(Seq<u8>, Seq<u8>)>>::empty(),
            r.block_chain_state.blocks() == Map::<Seq<u8>, BlockView>::empty(),
            r.block_chain_state.last_produced() is None,
            r.block_chain_state.last_committed() == last_committed_block@,
    {
        let peer_id = keypair.peer_id();
        BlockManager {
            config,
            block_producer: BlockProducer::new(peer_id),
            message_pool: MessagePool::new(),
            block_signer: BlockSigner::new(keypair),
            block_chain_state: BlockChainState::new(last_committed_block),
        }
    }

    /// Adds a new message to the pool; refuses a message that is already there.
    pub fn on_new_message(&mut self, msg: EphemeraMessage) -> (r: Result<(), BlockManagerError>)
        requires
            old(self).wf(),
        ensures
            final(self).wf(),
            final(self).config == old(self).config,
            final(self).block_signer == old(self).block_signer,
            final(self).block_chain_state == old(self).block_chain_state,
            old(self).message_pool.view().contains_key(message_hash(msg@)) ==> (r matches Err(
                BlockManagerError::DuplicateMessage(h),
            ) && h@ == base58_text(message_hash(msg@)) && final(self).message_pool.view() == old(
                self,
            ).message_pool.view()),
            !old(self).message_pool.view().contains_key(message_hash(msg@)) ==> (r is Ok && final(self).message_pool.view() == old(self).message_pool.view().insert(
                message_hash(msg@),
                msg@,
            )),
    {
        let message_hash = msg.hash_with_default_hasher();
        if self.message_pool.contains(&message_hash) {
            return Err(BlockManagerError::DuplicateMessage(message_hash.to_base58()));
        }
        self.message_pool.add_message(msg);
        Ok(())
    }

    /// Accepts a block from `sender` with the sender's certificate, and remembers it.
    /// A block that is already remembered is accepted again without checks; otherwise
    /// the certificate's key must be the sender's, the stated hash must be the block's
    /// hash, and the certificate must be accepted for the block.
    pub fn on_block(&mut self, sender: &PeerId, block: &Block, certificate: &Certificate) -> (r:
        Result<(), BlockManagerError>)
        requires
            old(self).wf(),
        ensures
            final(self).wf(),
            final(self).config == old(self).config,
            final(self).message_pool == old(self).message_pool,
            final(self).block_signer.keypair() == old(self).block_signer.keypair(),
            final(self).block_chain_state.last_produced() == old(
                self,
            ).block_chain_state.last_produced(),
            final(self).block_chain_state.last_committed() == old(
                self,
            ).block_chain_state.last_committed(),
            r is Ok <==> old(self).accepts_block(sender@, block@, certificate@),
            ({
                let hash = raw_block_hash(block@.header, block@.messages);
                let known = old(self).block_chain_state.blocks().contains_key(hash);
                &&& known ==> final(self).block_chain_state.blocks() == old(
                    self,
                ).block_chain_state.blocks() && final(self).block_signer.signatures() == old(
                    self,
                ).block_signer.signatures()
                &&& !known ==> (r is Ok ==> put_outcome(
                    old(self).block_chain_state.blocks(),
                    final(self).block_chain_state.blocks(),
                    BLOCK_CACHE_CAPACITY as nat,
                    hash,
                    block@,
                ))
                &&& !known ==> (r is Err ==> final(self).block_chain_state.blocks() == old(
                    self,
                ).block_chain_state.blocks())
                &&& r matches Err(e) ==> e is General
            }),
    {
        let hash = block.hash_with_default_hasher();
        if self.block_chain_state.knows_block(&hash) {
            return Ok(());
        }
        let signer_is_sender = match certificate.public_key.peer_id() {
            Some(signer_peer_id) => sender.same(&signer_peer_id),
            None => false,
        };
        if !signer_is_sender {
            return Err(BlockManagerError::General(error_message("Block signer is not the sender")));
        }
        if !block.header.hash.same(&hash) {
            return Err(BlockManagerError::General(error_message("Block hash is invalid")));
        }
        if self.block_signer.verify_block(block, certificate).is_err() {
            return Err(BlockManagerError::General(error_message("Block signature is invalid")));
        }
        self.block_chain_state.remember_block(hash.0, block.clone());
        Ok(())
    }

    /// Signs `block` with the node's key and remembers the certificate under the
    /// block's hash.
    pub fn sign_block(&mut self, block: &Block) -> (r: Certificate)
        requires
            old(self).wf(),
        ensures
            final(self).wf(),
            final(self).config == old(self).config,
            final(self).message_pool == old(self).message_pool,
            final(self).block_chain_state == old(self).block_chain_state,
            final(self).block_signer.keypair() == old(self).block_signer.keypair(),
            r.public_key@ == old(self).block_signer.keypair().public_bytes(),
            r.signature@ == ed25519_signature(
                old(self).block_signer.keypair().secret_bytes(),
                raw_block_json(block@.header, block@.messages),
            ),
            put_outcome(
                old(self).block_signer.signatures(),
                final(self).block_signer.signatures(),
                SIGNATURE_CACHE_CAPACITY as nat,
                raw_block_hash(block@.header, block@.messages),
                with_certificate(
                    if old(self).block_signer.signatures().contains_key(
                        raw_block_hash(block@.header, block@.messages),
                    ) {
                        old(self).block_signer.signatures()[raw_block_hash(
                            block@.header,
                            block@.messages,
                        )]
                    } else {
                        Seq::empty()
                    },
                    r@,
                ),
            ),
    {
        let hash = block.hash_with_default_hasher();
        self.block_signer.sign_block(block, &hash)
    }

    /// The application rejected the pending block: it is dropped, and the messages
    /// that the application names (all of the block's, or the selected ones) leave the
    /// pool.
    pub fn on_application_rejected_block(&mut self, messages_to_remove: RemoveMessages)
        requires
            old(self).wf(),
            old(self).block_chain_state.last_produced() is Some,
        ensures
            final(self).wf(),
            final(self).config == old(self).config,
            final(self).block_signer == old(self).block_signer,
            final(self).block_chain_state.last_produced() is None,
            final(self).block_chain_state.last_committed() == old(
                self,
            ).block_chain_state.last_committed(),
            final(self).block_chain_state.blocks() == old(self).block_chain_state.blocks(),
            messages_to_remove is All ==> final(self).message_pool.view() == old(
                self,
            ).message_pool.view().remove_keys(
                message_hashes(old(self).block_chain_state.last_produced()->0.messages),
            ),
            messages_to_remove matches RemoveMessages::Selected(ms) ==> final(self).message_pool.view() == old(self).message_pool.view().remove_keys(
                message_hashes(ms@.map_values(|m: ApiEphemeraMessage| m@)),
            ),
    {
        let last_produced_block = self.block_chain_state.remove_last_produced_block();
        match messages_to_remove {
            RemoveMessages::All => {
                self.message_pool.remove_messages(last_produced_block.messages.as_slice());
            },
            RemoveMessages::Selected(messages) => {
                let mut converted: Vec<EphemeraMessage> = Vec::new();
                let mut i: usize = 0;
                while i < messages.len()
                    invariant
                        i <= messages@.len(),
                        converted@.len() == i,
                        forall|j: int| 0 <= j < i ==> converted@[j]@ == messages@[j]@,
                    decreases messages@.len() - i,
                {
                    converted.push(messages[i].clone().into_message());
                    i = i + 1;
                }
                assert(messages_view(converted@) =~= messages@.map_values(
                    |m: ApiEphemeraMessage| m@,
                ));
                self.message_pool.remove_messages(converted.as_slice());
            },
        }
    }

    /// The cluster committed `block`.  It has to be this node's pending block (by its
    /// stated hash); its messages then leave the pool and it becomes the last committed
    /// block.  Any other block is refused and nothing changes.
    pub fn on_block_committed(&mut self, block: &Block) -> (r: Result<(), BlockManagerError>)
        requires
            old(self).wf(),
            old(self).block_chain_state.last_produced() is Some,
        ensures
            final(self).wf(),
            final(self).config == old(self).config,
            final(self).block_signer == old(self).block_signer,
            final(self).block_chain_state.blocks() == old(self).block_chain_state.blocks(),
            final(self).block_producer == old(self).block_producer,
            r is Ok <==> old(self).block_chain_state.last_produced()->0.hash == block@.hash,
            r matches Err(e) ==> e is General && final(self).message_pool == old(self).message_pool
                && final(self).block_chain_state == old(self).block_chain_state,
            r is Ok ==> final(self).message_pool.view() == old(
                self,
            ).message_pool.view().remove_keys(message_hashes(block@.messages))
                && final(self).block_chain_state.last_committed() == old(
                self,
            ).block_chain_state.last_produced()->0 && final(self).block_chain_state.last_produced() is None,
    {
        if !self.block_chain_state.is_last_produced_block(&block.header.hash) {
            return Err(
                BlockManagerError::General(
                    error_message(
                        "Received committed block which isn't last produced block, this is a bug!",
                    ),
                ),
            );
        }
        self.message_pool.remove_messages(block.messages.as_slice());
        self.block_chain_state.mark_last_produced_block_as_committed();
        Ok(())
    }

    /// A copy of the remembered block with hash `block_id`.
    pub fn get_block_by_hash(&mut self, block_id: &HashType) -> (r: Option<Block>)
        requires
            old(self).wf(),
        ensures
            final(self).wf(),
            final(self).config == old(self).config,
            final(self).message_pool == old(self).message_pool,
            final(self).block_signer == old(self).block_signer,
            final(self).block_chain_state.blocks() == old(self).block_chain_state.blocks(),
            final(self).block_chain_state.last_produced() == old(
                self,
            ).block_chain_state.last_produced(),
            final(self).block_chain_state.last_committed() == old(
                self,
            ).block_chain_state.last_committed(),
            r matches Some(b) ==> old(self).block_chain_state.blocks().contains_key(block_id@) && b@
                == old(self).block_chain_state.blocks()[block_id@],
            r is None <==> !old(self).block_chain_state.blocks().contains_key(block_id@),
    {
        self.block_chain_state.block(block_id)
    }

    /// The known certificates of the block with hash `hash`.
    pub fn get_block_certificates(&mut self, hash: &HashType) -> (r: Option<Vec<Certificate>>)
        requires
            old(self).wf(),
        ensures
            final(self).wf(),
            final(self).config == old(self).config,
            final(self).message_pool == old(self).message_pool,
            final(self).block_chain_state == old(self).block_chain_state,
            final(self).block_signer.signatures() == old(self).block_signer.signatures(),
            final(self).block_signer.keypair() == old(self).block_signer.keypair(),
            r is None <==> !old(self).block_signer.signatures().contains_key(hash@),
            r matches Some(v) ==> certificate_views(v@) == old(self).block_signer.signatures()[hash@],
    {
        self.block_signer.get_block_signatures(hash)
    }

    /// Proposes the next block, when the block interval has passed: `None` if this node
    /// does not make blocks.  The block holds, in ascending order, the messages of the
    /// pending block when one is pending and `repeat_last_block` is set, and otherwise
    /// the messages of the pool; its height follows the last committed block.  It
    /// becomes the pending block, is remembered, and is signed.
    pub fn next_block(&mut self) -> (r: Option<(Block, Certificate)>)
        requires
            old(self).wf(),
            old(self).block_chain_state.last_committed().header.height < u64::MAX,
        ensures
            final(self).wf(),
            final(self).config == old(self).config,
            final(self).message_pool == old(self).message_pool,
            final(self).block_signer.keypair() == old(self).block_signer.keypair(),
            final(self).block_chain_state.last_committed() == old(
                self,
            ).block_chain_state.last_committed(),
            !old(self).config.producer ==> r is None && final(self).block_chain_state == old(
                self,
            ).block_chain_state && final(self).block_signer == old(self).block_signer,
            old(self).config.producer ==> (r matches Some((b, c)) && {
                let repeat = old(self).block_chain_state.last_produced() is Some
                    && old(self).config.repeat_last_block;
                &&& b@.header.creator == old(self).block_producer.peer_id@
                &&& b@.header.height == old(self).block_chain_state.last_committed().header.height
                    + 1
                &&& sorted(b@.messages)
                &&& repeat ==> b@.messages.to_multiset() == old(
                    self,
                ).block_chain_state.last_produced()->0.messages.to_multiset()
                &&& !repeat ==> b@.messages.len() == old(self).message_pool.view().len()
                &&& !repeat ==> forall|m: MessageView| #[trigger] b@.messages.contains(m) <==> (old(
                    self,
                ).message_pool.view().contains_key(message_hash(m)) && old(
                    self,
                ).message_pool.view()[message_hash(m)] == m)
                &&& b@.hash == raw_block_hash(b@.header, b@.messages)
                &&& final(self).block_chain_state.last_produced() == Some(b@)
                &&& put_outcome(
                    old(self).block_chain_state.blocks(),
                    final(self).block_chain_state.blocks(),
                    BLOCK_CACHE_CAPACITY as nat,
                    b@.hash,
                    b@,
                )
                &&& c.public_key@ == old(self).block_signer.keypair().public_bytes()
                &&& c.signature@ == ed25519_signature(
                    old(self).block_signer.keypair().secret_bytes(),
                    raw_block_json(b@.header, b@.messages),
                )
            }),
    {
        if !self.config.producer {
            return None;
        }
        let is_previous_pending = self.block_chain_state.is_last_produced_block_is_pending();
        let pending_messages = if is_previous_pending && self.config.repeat_last_block {
            match &self.block_chain_state.last_produced_block {
                Some(block) => crate::block::types::block::clone_messages(&block.messages),
                None => Vec::new(),
            }
        } else {
            self.message_pool.get_messages()
        };
        let ghost pending = messages_view(pending_messages@);
        let new_height = self.block_chain_state.next_block_height();
        let block = self.block_producer.produce_block(new_height, pending_messages);
        proof {
            broadcast use vstd::seq_lib::group_to_multiset_ensures;
            if !(is_previous_pending && self.config.repeat_last_block) {
                let pool = old(self).message_pool.view();
                assert(pending.len() == pool.len());
                assert forall|m: MessageView| #[trigger] block@.messages.contains(m) <==> (
                pool.contains_key(message_hash(m)) && pool[message_hash(m)] == m) by {
                    if block@.messages.contains(m) {
                        assert(block@.messages.to_multiset().count(m) > 0);
                        assert(pending.to_multiset().count(m) > 0);
                        assert(pending.contains(m));
                        let i = choose|i: int| 0 <= i < pending.len() && pending[i] == m;
                        assert(pending[i] == pending_messages@[i]@);
                    }
                    if pool.contains_key(message_hash(m)) && pool[message_hash(m)] == m {
                        let k = message_hash(m);
                        let i = choose|i: int| 0 <= i < pending_messages@.len() && message_hash(pending_messages@[i]@) == k;
                        assert(pending[i] == pending_messages@[i]@);
                        assert(pending.contains(m));
                        assert(pending.to_multiset().count(m) > 0);
                        assert(block@.messages.to_multiset().count(m) > 0);
                    }
                }
                assert(block@.messages.len() == block@.messages.to_multiset().len());
                assert(pending.len() == pending.to_multiset().len());
            }
        }
        let hash = block.get_hash();
        self.block_chain_state.last_produced_block = Some(block.clone());
        self.block_chain_state.remember_block(hash.0, block.clone());
        let certificate = self.block_signer.sign_block(&block, &hash);
        Some((block, certificate))
    }
}

} // verus!
