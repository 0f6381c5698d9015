//! The decisions of a node's main loop.
//!
//! The node reacts to four kinds of events: the block manager proposes a block, a
//! message or a broadcast message arrives from the network, the membership of the
//! cluster changes, and a client submits a message or asks a question.  The functions
//! here decide what each event does to the node's state and what the caller has to
//! send or store; the caller runs the loop, the network, the storage and the timers.
//! Each step that follows a call of the application is a function of its own that
//! takes the application's answer.

use vstd::prelude::*;
use vstd::string::StringExecFns;
use crate::api::application::{Application, ApplicationError, CheckBlockResult, RemoveMessages};
use crate::api::types::{api_block_view, ApiBlock, ApiCertificate, ApiEphemeraConfig, ApiEphemeraMessage, ApiError};
use crate::block::manager::{message_hashes, BlockManager, BlockManagerError};
use crate::block::types::block::{raw_block_hash, raw_block_json, Block};
use crate::block::types::message::{message_hash, EphemeraMessage};
use crate::broadcast::bracha::broadcaster::{
    echo_step, fresh_context, vote_step, Broadcaster, ProtocolResponse,
};
use crate::broadcast::signing::certificate_views;
use crate::broadcast::group::{dedup_peers, BroadcastGroup, GROUP_CACHE_CAPACITY};
use crate::cache::{lemma_put_outcome, put_outcome};
use crate::broadcast::{peer_views, Command, RbMsg, Status};
use crate::config::Configuration;
use crate::crypto::{
    base58_bytes, ed25519_signature, libp2p_peer_id_of, Certificate, Keypair, PeerId,
};
use crate::encoding::{decimal_string, decimal_text};
use crate::utilities::error_message;

verus! {

// ---------------------------------------------------------------------------
// The node's addresses.
// ---------------------------------------------------------------------------

/// `/ip4/<ip>/tcp/<port>`
pub open spec fn protocol_address_text(ip: Seq<char>, port: u16) -> Seq<char> {
    "/ip4/"@ + ip + "/tcp/"@ + decimal_text(port as nat)
}

/// `<scheme><ip>:<port>`
pub open spec fn url_text(scheme: Seq<char>, ip: Seq<char>, port: u16) -> Seq<char> {
    scheme + ip + ":"@ + decimal_text(port as nat)
}

/// `prefix` followed by `ip`, `separator` and the port.
fn address(prefix: &str, ip: &str, separator: &str, port: u16) -> (r: String)
    ensures
        r@ == prefix@ + ip@ + separator@ + decimal_text(port as nat),
{
    let mut out = String::from_str(prefix);
    out.append(ip);
    out.append(separator);
    let p = decimal_string(port as u64);
    out.append(p.as_str());
    out
}

/// Who this node is and where it listens.
pub struct NodeInfo {
    pub ip: String,
    pub protocol_port: u16,
    pub http_port: u16,
    pub ws_port: u16,
    pub peer_id: PeerId,
    pub keypair: Keypair,
    pub initial_config: Configuration,
}

impl NodeInfo {
    /// The node's information from its configuration; `None` when the configured key
    /// is not the base58 text of a 32 byte secret key.
    pub fn new(config: Configuration) -> (r: Option<Self>)
        ensures
            r is Some <==> (base58_bytes(config.node.private_key@) matches Some(b) && b.len()
                == 32),
            r matches Some(info) ==> {
                &&& info.ip@ == config.node.ip@
                &&& info.protocol_port == config.libp2p.port
                &&& info.http_port == config.http.port
                &&& info.ws_port == config.websocket.port
                &&& info.keypair.wf()
                &&& base58_bytes(config.node.private_key@) == Some(info.keypair.secret_bytes())
                &&& libp2p_peer_id_of(info.keypair.public_bytes()) == Some(info.peer_id@)
                &&& info.initial_config == config
            },
    {
        let keypair = match Keypair::from_base58(config.node.private_key.as_str()) {
            Some(k) => k,
            None => {
                return None;
            },
        };
        Some(
            NodeInfo {
                ip: config.node.ip.clone(),
                protocol_port: config.libp2p.port,
                http_port: config.http.port,
                ws_port: config.websocket.port,
                peer_id: keypair.peer_id(),
                keypair,
                initial_config: config,
            },
        )
    }

    /// `/ip4/<ip>/tcp/<protocol port>`
    pub fn protocol_address(&self) -> (r: String)
        ensures
            r@ == protocol_address_text(self.ip@, self.protocol_port),
    {
        address("/ip4/", self.ip.as_str(), "/tcp/", self.protocol_port)
    }

    /// `http://<ip>:<http port>`
    pub fn api_address_http(&self) -> (r: String)
        ensures
            r@ == url_text("http://"@, self.ip@, self.http_port),
    {
        address("http://", self.ip.as_str(), ":", self.http_port)
    }

    /// `ws://<ip>:<websocket port>`
    pub fn ws_address_ws(&self) -> (r: String)
        ensures
            r@ == url_text("ws://"@, self.ip@, self.ws_port),
    {
        address("ws://", self.ip.as_str(), ":", self.ws_port)
    }

    /// `<ip>:<websocket port>`
    pub fn ws_address_ip_port(&self) -> (r: String)
        ensures
            r@ == self.ip@ + ":"@ + decimal_text(self.ws_port as nat),
    {
        proof {
            reveal_strlit("");
        }
        let r = address("", self.ip.as_str(), ":", self.ws_port);
        assert(""@ + self.ip@ =~= self.ip@);
        r
    }
}

// ---------------------------------------------------------------------------
// The node.
// ---------------------------------------------------------------------------

/// Why the node could not handle an event.
#[derive(Debug)]
pub enum EphemeraCoreError {
    GeneralError(anyhow::Error),
}

/// What became of a message from the network.
#[derive(Debug, Clone, Copy, PartialEq, Eq, Structural)]
pub enum MessageVerdict {
    /// It entered the pool.
    Added,
    /// It was in the pool already.
    Duplicate,
    /// The application rejected it.
    Rejected,
    /// The application failed to check it.
    CheckFailed,
}

/// What the caller has to do after a broadcast message from the network.
#[derive(Debug)]
pub enum NetworkAction {
    /// Nothing.
    Nothing,
    /// Send this message to all peers.
    Send(RbMsg),
    /// The cluster delivered this block of ours: store it with these certificates, then
    /// hand the outcome to [`Ephemera::after_store`].
    StoreLocalBlock(Block, Vec<Certificate>),
}

/// What a node does when the broadcast of the block with hash `hash` is delivered,
/// given its block manager: its own block, whose certificates it knows, is to be stored
/// with them; a block of another node needs nothing; a block or certificates that it
/// does not know is an error.
pub open spec fn delivery_outcome(
    bm: BlockManager,
    local: Seq<u8>,
    hash: Seq<u8>,
    r: core::result::Result<NetworkAction, EphemeraCoreError>,
) -> bool {
    let blocks = bm.block_chain_state.blocks();
    let signatures = bm.block_signer.signatures();
    if !blocks.contains_key(hash) {
        r is Err
    } else if blocks[hash].header.creator != local {
        r matches Ok(NetworkAction::Nothing)
    } else if !signatures.contains_key(blocks[hash].hash) {
        r is Err
    } else {
        &&& r matches Ok(NetworkAction::StoreLocalBlock(b, cs))
        &&& b@ == blocks[hash]
        &&& certificate_views(cs@) == signatures[blocks[hash].hash]
    }
}

/// A node: its block manager, its broadcaster, its view of the cluster and its
/// application.
pub struct Ephemera<A: Application> {
    pub node_info: NodeInfo,
    pub block_manager: BlockManager,
    pub broadcaster: Broadcaster,
    pub topology: BroadcastGroup,
    pub application: A,
}

impl<A: Application> Ephemera<A> {
    pub open spec fn wf(&self) -> bool {
        &&& self.block_manager.wf()
        &&& self.broadcaster.wf()
        &&& self.topology.wf()
        &&& self.broadcaster.local() == self.node_info.peer_id@
    }

    /// The components other than the block manager are as they were.
    pub open spec fn same_but_blocks(&self, other: &Self) -> bool {
        &&& self.broadcaster == other.broadcaster
        &&& self.topology == other.topology
        &&& self.node_info == other.node_info
    }

    // -- Messages from the network --------------------------------------------

    /// A message from the network, after the application checked it: an accepted
    /// message enters the pool unless it is there already.
    pub fn on_checked_message(
        &mut self,
        em: EphemeraMessage,
        check: core::result::Result<bool, ApplicationError>,
    ) -> (r: MessageVerdict)
        requires
            old(self).wf(),
        ensures
            final(self).wf(),
            final(self).same_but_blocks(old(self)),
            final(self).block_manager.block_chain_state == old(self).block_manager.block_chain_state,
            final(self).block_manager.block_signer == old(self).block_manager.block_signer,
            check matches Ok(true) && old(self).block_manager.message_pool.view().contains_key(
                message_hash(em@),
            ) ==> (r == MessageVerdict::Duplicate && final(self).block_manager.message_pool.view()
                == old(self).block_manager.message_pool.view()),
            check matches Ok(true) && !old(self).block_manager.message_pool.view().contains_key(
                message_hash(em@),
            ) ==> (r == MessageVerdict::Added && final(self).block_manager.message_pool.view()
                == old(self).block_manager.message_pool.view().insert(message_hash(em@), em@)),
            check matches Ok(false) ==> (r == MessageVerdict::Rejected && final(self).block_manager.message_pool == old(self).block_manager.message_pool),
            check is Err ==> (r == MessageVerdict::CheckFailed && final(self).block_manager.message_pool == old(self).block_manager.message_pool),
    {
        match check {
            Ok(true) => match self.block_manager.on_new_message(em) {
                Ok(()) => MessageVerdict::Added,
                Err(_) => MessageVerdict::Duplicate,
            },
            Ok(false) => MessageVerdict::Rejected,
            Err(_) => MessageVerdict::CheckFailed,
        }
    }

    /// A message from the network: the application checks it, then
    /// [`Ephemera::on_checked_message`].  The pool either stays or gains the message.
    pub fn process_ephemera_message(&mut self, em: EphemeraMessage) -> (r: MessageVerdict)
        requires
            old(self).wf(),
        ensures
            final(self).wf(),
            final(self).same_but_blocks(old(self)),
            final(self).block_manager.block_chain_state == old(self).block_manager.block_chain_state,
            r == MessageVerdict::Added ==> final(self).block_manager.message_pool.view() == old(
                self,
            ).block_manager.message_pool.view().insert(message_hash(em@), em@),
            r != MessageVerdict::Added ==> final(self).block_manager.message_pool.view() == old(
                self,
            ).block_manager.message_pool.view(),
    {
        let check = self.application.check_tx(ApiEphemeraMessage::from_message(em.clone()));
        self.on_checked_message(em, check)
    }

    /// The members of the cluster changed: the broadcast group size follows, and the
    /// members, without repetitions, become the current snapshot.
    pub fn process_peers_updated(&mut self, peers: Vec<PeerId>)
        requires
            old(self).wf(),
            old(self).topology.current_snapshot_id() < u64::MAX,
        ensures
            final(self).wf(),
            final(self).topology.snapshots().contains_key(final(self).topology.current_snapshot_id()),
            final(self).topology.snapshots()[final(self).topology.current_snapshot_id()]
                == dedup_peers(peer_views(peers@)),
            put_outcome(
                old(self).topology.snapshots(),
                final(self).topology.snapshots(),
                GROUP_CACHE_CAPACITY as nat,
                final(self).topology.current_snapshot_id(),
                dedup_peers(peer_views(peers@)),
            ),
            final(self).topology.block_groups() == old(self).topology.block_groups(),
            final(self).node_info == old(self).node_info,
            final(self).broadcaster.group_size() == peers@.len(),
            final(self).broadcaster.contexts() == old(self).broadcaster.contexts(),
            final(self).topology.current_snapshot_id() == old(self).topology.current_snapshot_id()
                + 1,
            final(self).block_manager == old(self).block_manager,
    {
        let ghost pv = peer_views(peers@);
        self.broadcaster.topology_updated(peers.len());
        self.topology.add_snapshot(peers);
        proof {
            lemma_put_outcome(
                old(self).topology.snapshots(),
                self.topology.snapshots(),
                GROUP_CACHE_CAPACITY as nat,
                self.topology.current_snapshot_id(),
                dedup_peers(pv),
            );
        }
    }

    // -- Blocks of this node --------------------------------------------------

    /// A block that the block manager proposed, with this node's certificate: if the
    /// node and the block pass the group check, the application checks the block, then
    /// [`Ephemera::continue_new_local_block`].  `Ok(None)` when the group check fails.
    pub fn process_new_local_block(&mut self, new_block: Block, certificate: Certificate) -> (r:
        core::result::Result<Option<RbMsg>, EphemeraCoreError>)
        requires
            old(self).wf(),
            old(self).block_manager.block_chain_state.last_produced() is Some,
        ensures
            final(self).wf(),
            final(self).node_info == old(self).node_info,
            ({
                let local = old(self).node_info.peer_id@;
                let admitted = old(self).topology.admits(new_block@.hash, local, local);
                &&& !admitted ==> (r matches Ok(None) && final(self).block_manager == old(
                    self,
                ).block_manager && final(self).broadcaster == old(self).broadcaster
                    && final(self).topology.block_groups() == old(self).topology.block_groups()
                    && final(self).topology.snapshots() == old(self).topology.snapshots()
                    && final(self).topology.current_snapshot_id() == old(
                    self,
                ).topology.current_snapshot_id())
                &&& admitted ==> put_outcome(
                    old(self).topology.block_groups(),
                    final(self).topology.block_groups(),
                    GROUP_CACHE_CAPACITY as nat,
                    new_block@.hash,
                    old(self).topology.group_of(new_block@.hash),
                )
                &&& r matches Ok(Some(_)) ==> admitted
            }),
            r matches Ok(Some(m)) ==> m.certificate == certificate && m.original_sender@ == old(
                self,
            ).node_info.peer_id@ && m.phase.block()@ == new_block@,
    {
        let hash = new_block.header.hash;
        let local = self.node_info.peer_id.clone();
        if !self.topology.check_membership(hash, &local, &local) {
            return Ok(None);
        }
        let check = self.application.check_block(&ApiBlock::from_block(new_block.clone()));
        self.continue_new_local_block(new_block, certificate, check)
    }

    /// A proposed block after the application checked it.  A failed check fails; a
    /// rejected block is dropped (`Ok(None)`), and when the application names messages
    /// to remove they leave the pool and the block stops being pending.  An accepted
    /// block starts its reliable broadcast: the message to send carries the
    /// broadcaster's reply and the certificate; it fails when the broadcaster has
    /// nothing to send.
    pub fn continue_new_local_block(
        &mut self,
        new_block: Block,
        certificate: Certificate,
        check: core::result::Result<CheckBlockResult, ApplicationError>,
    ) -> (r: core::result::Result<Option<RbMsg>, EphemeraCoreError>)
        requires
            old(self).wf(),
            old(self).block_manager.block_chain_state.last_produced() is Some,
        ensures
            final(self).wf(),
            final(self).topology == old(self).topology,
            final(self).node_info == old(self).node_info,
            check is Err ==> (r is Err && final(self).block_manager == old(self).block_manager
                && final(self).broadcaster == old(self).broadcaster),
            check matches Ok(CheckBlockResult::Reject) ==> (r matches Ok(None) && final(self).block_manager == old(self).block_manager && final(self).broadcaster == old(
                self,
            ).broadcaster),
            check matches Ok(CheckBlockResult::Accept) ==> final(self).block_manager == old(
                self,
            ).block_manager,
            check matches Ok(CheckBlockResult::RejectAndRemoveMessages(m)) ==> (r matches Ok(None)
                && final(self).broadcaster == old(self).broadcaster
                && final(self).block_manager.block_chain_state.last_produced() is None && (m is All ==> final(self).block_manager.message_pool.view() == old(
                self,
            ).block_manager.message_pool.view().remove_keys(
                message_hashes(old(self).block_manager.block_chain_state.last_produced()->0.messages),
            )) && (m matches RemoveMessages::Selected(ms) ==> final(self).block_manager.message_pool.view() == old(self).block_manager.message_pool.view().remove_keys(
                message_hashes(ms@.map_values(|x: ApiEphemeraMessage| x@)),
            ))),
            check matches Ok(CheckBlockResult::Accept) ==> ({
                let key = raw_block_hash(new_block@.header, new_block@.messages);
                let before = if old(self).broadcaster.contexts().contains_key(key) {
                    old(self).broadcaster.contexts()[key]
                } else {
                    fresh_context(old(self).broadcaster.local(), key)
                };
                let step = echo_step(
                    old(self).broadcaster.group_size(),
                    old(self).broadcaster.faulty(),
                    before,
                    old(self).broadcaster.local(),
                );
                &&& final(self).broadcaster.contexts().contains_key(key)
                &&& final(self).broadcaster.contexts()[key] == step.0
                &&& (step.1 is BroadcastEcho || step.1 is BroadcastVote) ==> (r matches Ok(Some(m))
                    && m.certificate == certificate && m.original_sender@ == old(
                    self,
                ).broadcaster.local() && m.phase.block()@ == new_block@ && m.phase.is_echo() == (
                step.1 is BroadcastEcho))
                &&& !(step.1 is BroadcastEcho || step.1 is BroadcastVote) ==> r is Err
            }),
    {
        match check {
            Err(_) => {
                return Err(
                    EphemeraCoreError::GeneralError(error_message("Application check_block failed")),
                );
            },
            Ok(CheckBlockResult::Reject) => {
                return Ok(None);
            },
            Ok(CheckBlockResult::Accept) => {},
            Ok(CheckBlockResult::RejectAndRemoveMessages(messages_to_remove)) => {
                self.block_manager.on_application_rejected_block(messages_to_remove);
                return Ok(None);
            },
        }
        let response = self.broadcaster.new_broadcast(new_block);
        match response.protocol_reply {
            Some(rp) => {
                if response.command == Command::Broadcast {
                    Ok(Some(RbMsg::new(rp, certificate)))
                } else {
                    Ok(None)
                }
            },
            None => Err(
                EphemeraCoreError::GeneralError(error_message("Error sending new block to broadcaster")),
            ),
        }
    }

    // -- Broadcast messages from the network ---------------------------------

    /// A broadcast message from the network.  The block's creator and the sender must
    /// pass the group check and the block manager must accept the block with the
    /// sender's certificate, or the message fails.  Then the broadcaster handles it:
    /// a reply is signed by this node and sent; when the block is delivered and it is
    /// this node's own, it is to be stored with its certificates.
    pub fn process_block_from_network(&mut self, msg: RbMsg) -> (r: core::result::Result<
        NetworkAction,
        EphemeraCoreError,
    >)
        requires
            old(self).wf(),
        ensures
            final(self).wf(),
            final(self).node_info == old(self).node_info,
            ({
                let b = msg.phase.block()@;
                let admitted = old(self).topology.admits(
                    b.hash,
                    b.header.creator,
                    msg.original_sender@,
                );
                let accepted = old(self).block_manager.accepts_block(
                    msg.original_sender@,
                    b,
                    msg.certificate@,
                );
                &&& !admitted ==> (r is Err && final(self).block_manager == old(self).block_manager
                    && final(self).broadcaster == old(self).broadcaster)
                &&& admitted && !accepted ==> (r is Err && final(self).broadcaster == old(
                    self,
                ).broadcaster && final(self).block_manager.message_pool == old(
                    self,
                ).block_manager.message_pool)
                &&& r is Ok ==> admitted && accepted
                &&& admitted && accepted ==> {
                    let key = raw_block_hash(b.header, b.messages);
                    let bc = old(self).broadcaster;
                    let before = if bc.contexts().contains_key(key) {
                        bc.contexts()[key]
                    } else {
                        fresh_context(bc.local(), key)
                    };
                    let step = if msg.phase.is_echo() {
                        echo_step(bc.group_size(), bc.faulty(), before, msg.original_sender@)
                    } else {
                        vote_step(bc.group_size(), bc.faulty(), before, msg.original_sender@)
                    };
                    &&& final(self).broadcaster.contexts().contains_key(key)
                    &&& final(self).broadcaster.contexts()[key] == step.0
                    &&& (step.1 is BroadcastEcho || step.1 is BroadcastVote) ==> (r matches Ok(
                        NetworkAction::Send(m),
                    ) && m.phase.is_echo() == (step.1 is BroadcastEcho) && m.phase.block()@ == b)
                    &&& step.1 is Drop ==> (r matches Ok(NetworkAction::Nothing))
                    &&& step.1 is Deliver ==> delivery_outcome(
                        final(self).block_manager,
                        old(self).node_info.peer_id@,
                        b.hash,
                        r,
                    )
                    &&& old(self).block_manager.block_chain_state.blocks().contains_key(key)
                        ==> final(self).block_manager.block_chain_state.blocks() == old(
                        self,
                    ).block_manager.block_chain_state.blocks()
                    &&& !old(self).block_manager.block_chain_state.blocks().contains_key(key) ==> (
                    b.hash == key && final(self).block_manager.block_chain_state.blocks().contains_key(key)
                        && final(self).block_manager.block_chain_state.blocks()[key] == b)
                }
            }),
            r matches Ok(NetworkAction::Send(m)) ==> m.id@ == msg.id@ && m.original_sender@ == old(
                self,
            ).node_info.peer_id@ && m.certificate.public_key@ == old(
                self,
            ).block_manager.block_signer.keypair().public_bytes() && m.certificate.signature@
                == ed25519_signature(
                old(self).block_manager.block_signer.keypair().secret_bytes(),
                raw_block_json(m.phase.block()@.header, m.phase.block()@.messages),
            ),
            r matches Ok(NetworkAction::StoreLocalBlock(b, _)) ==> b@.header.creator == old(
                self,
            ).node_info.peer_id@,
    {
        let block = msg.get_block().clone();
        let hash = block.header.hash;
        let sender = msg.original_sender.clone();
        if !self.topology.check_membership(hash, &block.header.creator, &sender) {
            return Err(EphemeraCoreError::GeneralError(error_message("Block doesn't match topology")));
        }
        let certificate = msg.certificate.clone();
        let ghost blocks_before = self.block_manager.block_chain_state.blocks();
        if self.block_manager.on_block(&sender, &block, &certificate).is_err() {
            return Err(
                EphemeraCoreError::GeneralError(error_message("Error sending block to block manager")),
            );
        }
        proof {
            let key = raw_block_hash(block@.header, block@.messages);
            if !blocks_before.contains_key(key) {
                lemma_put_outcome(
                    blocks_before,
                    self.block_manager.block_chain_state.blocks(),
                    crate::block::manager::BLOCK_CACHE_CAPACITY as nat,
                    key,
                    block@,
                );
            }
        }
        let response = self.broadcaster.handle(msg.into_raw());
        self.after_broadcast(response, &block)
    }

    /// What to do with the broadcaster's answer about `block`.
    fn after_broadcast(&mut self, response: ProtocolResponse, block: &Block) -> (r: core::result::Result<
        NetworkAction,
        EphemeraCoreError,
    >)
        requires
            old(self).wf(),
        ensures
            final(self).wf(),
            final(self).node_info == old(self).node_info,
            final(self).broadcaster == old(self).broadcaster,
            final(self).topology == old(self).topology,
            response.command == Command::Broadcast && response.protocol_reply is Some ==> (r matches Ok(
                NetworkAction::Send(m),
            ) && m.id == response.protocol_reply->0.id && m.original_sender
                == response.protocol_reply->0.original_sender && m.phase
                == response.protocol_reply->0.message_type && m.certificate.public_key@ == old(
                self,
            ).block_manager.block_signer.keypair().public_bytes()),
            response.command != Command::Broadcast && !(response.status == Status::Completed
                && response.protocol_reply is None) ==> r matches Ok(NetworkAction::Nothing),
            response.command != Command::Broadcast && response.status == Status::Completed
                && response.protocol_reply is None ==> delivery_outcome(
                old(self).block_manager,
                old(self).node_info.peer_id@,
                block@.hash,
                r,
            ),
            final(self).block_manager.block_chain_state.blocks() == old(
                self,
            ).block_manager.block_chain_state.blocks(),
            response.command != Command::Broadcast ==> final(self).block_manager.block_signer.signatures()
                == old(self).block_manager.block_signer.signatures(),
            r matches Ok(NetworkAction::Send(m)) ==> (response.protocol_reply is Some && m.id
                == response.protocol_reply->0.id && m.original_sender
                == response.protocol_reply->0.original_sender && m.certificate.public_key@ == old(
                self,
            ).block_manager.block_signer.keypair().public_bytes()
                && m.certificate.signature@ == ed25519_signature(
                old(self).block_manager.block_signer.keypair().secret_bytes(),
                raw_block_json(m.phase.block()@.header, m.phase.block()@.messages),
            )),
            r matches Ok(NetworkAction::StoreLocalBlock(b, _)) ==> b@.header.creator == old(
                self,
            ).node_info.peer_id@ && response.status == Status::Completed,
    {
        if response.command == Command::Broadcast {
            match response.protocol_reply {
                Some(rp) => {
                    let certificate = self.block_manager.sign_block(rp.block_ref());
                    return Ok(NetworkAction::Send(RbMsg::new(rp, certificate)));
                },
                None => {
                    return Ok(NetworkAction::Nothing);
                },
            }
        }
        if response.status == Status::Completed && response.protocol_reply.is_none() {
            let hash = block.header.hash;
            match self.block_manager.get_block_by_hash(&hash) {
                Some(stored) => {
                    if stored.header.creator.same(&self.node_info.peer_id) {
                        match self.block_manager.get_block_certificates(&stored.header.hash) {
                            Some(signatures) => Ok(NetworkAction::StoreLocalBlock(stored, signatures)),
                            None => Err(
                                EphemeraCoreError::GeneralError(
                                    error_message("Error: Block signatures not found in block manager"),
                                ),
                            ),
                        }
                    } else {
                        Ok(NetworkAction::Nothing)
                    }
                },
                None => Err(
                    EphemeraCoreError::GeneralError(error_message("Error: Block not found in block manager")),
                ),
            }
        } else {
            Ok(NetworkAction::Nothing)
        }
    }

    /// The next steps for this node's delivered block (the block of
    /// [`NetworkAction::StoreLocalBlock`]) once the caller tried to store it with its
    /// certificates, in order, stopping at the first failure: a failed store fails and
    /// changes nothing; then the block manager commits the block and the application
    /// receives it ([`Ephemera::commit_local_block`]); when both succeed the block comes
    /// back, to be sent to the WebSocket clients.
    pub fn after_store(
        &mut self,
        block: &Block,
        stored: core::result::Result<(), anyhow::Error>,
    ) -> (r: core::result::Result<Block, EphemeraCoreError>)
        requires
            old(self).wf(),
            old(self).block_manager.block_chain_state.last_produced() is Some,
        ensures
            final(self).wf(),
            final(self).same_but_blocks(old(self)),
            stored is Err ==> (r is Err && final(self).block_manager == old(self).block_manager),
            stored is Ok && old(self).block_manager.block_chain_state.last_produced()->0.hash
                != block@.hash ==> (r is Err && final(self).block_manager == old(
                self,
            ).block_manager),
            stored is Ok && old(self).block_manager.block_chain_state.last_produced()->0.hash
                == block@.hash ==> (final(self).block_manager.message_pool.view() == old(
                self,
            ).block_manager.message_pool.view().remove_keys(message_hashes(block@.messages))
                && final(self).block_manager.block_chain_state.last_committed() == old(
                self,
            ).block_manager.block_chain_state.last_produced()->0),
            r matches Ok(b) ==> b@ == block@ && stored is Ok
                && old(self).block_manager.block_chain_state.last_produced()->0.hash == block@.hash,
    {
        if stored.is_err() {
            return Err(EphemeraCoreError::GeneralError(error_message("Error: storing block failed")));
        }
        match self.commit_local_block(block) {
            Ok(()) => Ok(block.clone()),
            Err(e) => Err(e),
        }
    }

    /// This node's block was delivered and stored: the block manager commits it (it has
    /// to be the pending block), then the application receives it.
    pub fn commit_local_block(&mut self, block: &Block) -> (r: core::result::Result<
        (),
        EphemeraCoreError,
    >)
        requires
            old(self).wf(),
            old(self).block_manager.block_chain_state.last_produced() is Some,
        ensures
            final(self).wf(),
            final(self).same_but_blocks(old(self)),
            old(self).block_manager.block_chain_state.last_produced()->0.hash != block@.hash ==> (r is Err
                && final(self).block_manager == old(self).block_manager),
            old(self).block_manager.block_chain_state.last_produced()->0.hash == block@.hash ==> (final(self).block_manager.message_pool.view() == old(
                self,
            ).block_manager.message_pool.view().remove_keys(message_hashes(block@.messages))
                && final(self).block_manager.block_chain_state.last_committed() == old(
                self,
            ).block_manager.block_chain_state.last_produced()->0),
    {
        if self.block_manager.on_block_committed(block).is_err() {
            return Err(
                EphemeraCoreError::GeneralError(
                    error_message("Error: BlockManager failed to process block"),
                ),
            );
        }
        let delivered = self.application.deliver_block(ApiBlock::from_block(block.clone()));
        Self::after_deliver(delivered)
    }

    /// The application's answer to a delivered block.
    pub fn after_deliver(delivered: core::result::Result<(), ApplicationError>) -> (r: core::result::Result<
        (),
        EphemeraCoreError,
    >)
        ensures
            r is Ok <==> delivered is Ok,
    {
        match delivered {
            Ok(()) => Ok(()),
            Err(_) => Err(
                EphemeraCoreError::GeneralError(
                    error_message("Error: Deliver block to Application failed"),
                ),
            ),
        }
    }

    // -- Requests of clients --------------------------------------------------

    /// A message submitted by a client: the application checks it, then
    /// [`Ephemera::after_submit_check`].
    pub fn handle_submit_message(&mut self, api_msg: ApiEphemeraMessage) -> (r: core::result::Result<
        EphemeraMessage,
        ApiError,
    >)
        requires
            old(self).wf(),
        ensures
            final(self).wf(),
            final(self).same_but_blocks(old(self)),
            r matches Ok(m) ==> m@ == api_msg@ && final(self).block_manager.message_pool.view()
                == old(self).block_manager.message_pool.view().insert(message_hash(api_msg@), api_msg@),
            r is Err ==> final(self).block_manager.message_pool.view() == old(
                self,
            ).block_manager.message_pool.view(),
    {
        let check = self.application.check_tx(api_msg.clone());
        self.after_submit_check(api_msg, check)
    }

    /// A submitted message after the application checked it: an accepted message that
    /// is not in the pool yet enters it and is returned, to be gossiped (the client's
    /// answer is then [`submit_reply`] of the gossip's outcome); otherwise the client
    /// learns why not.
    pub fn after_submit_check(
        &mut self,
        api_msg: ApiEphemeraMessage,
        check: core::result::Result<bool, ApplicationError>,
    ) -> (r: core::result::Result<EphemeraMessage, ApiError>)
        requires
            old(self).wf(),
        ensures
            final(self).wf(),
            final(self).same_but_blocks(old(self)),
            final(self).block_manager.block_chain_state == old(self).block_manager.block_chain_state,
            check matches Ok(true) && !old(self).block_manager.message_pool.view().contains_key(
                message_hash(api_msg@),
            ) ==> (r matches Ok(m) && m@ == api_msg@ && final(self).block_manager.message_pool.view() == old(self).block_manager.message_pool.view().insert(
                message_hash(api_msg@),
                api_msg@,
            )),
            check matches Ok(true) && old(self).block_manager.message_pool.view().contains_key(
                message_hash(api_msg@),
            ) ==> (r matches Err(ApiError::DuplicateMessage) && final(self).block_manager.message_pool.view() == old(self).block_manager.message_pool.view()),
            check matches Ok(false) ==> (r matches Err(ApiError::ApplicationRejectedMessage) && final(self).block_manager.message_pool == old(self).block_manager.message_pool),
            check matches Err(e) ==> (r matches Err(ApiError::Application(e2)) && e2 == e && final(self).block_manager.message_pool == old(self).block_manager.message_pool),
    {
        match check {
            Ok(true) => {
                let message = api_msg.into_message();
                match self.block_manager.on_new_message(message.clone()) {
                    Ok(()) => Ok(message),
                    Err(BlockManagerError::DuplicateMessage(_)) => Err(ApiError::DuplicateMessage),
                    Err(BlockManagerError::General(e)) => Err(ApiError::Internal(e)),
                }
            },
            Ok(false) => Err(ApiError::ApplicationRejectedMessage),
            Err(e) => Err(ApiError::Application(e)),
        }
    }

    /// The node's public configuration.
    pub fn ephemera_config(&self) -> (r: ApiEphemeraConfig)
        requires
            self.node_info.keypair.wf(),
        ensures
            r.protocol_address@ == protocol_address_text(
                self.node_info.ip@,
                self.node_info.protocol_port,
            ),
            r.api_address@ == url_text("http://"@, self.node_info.ip@, self.node_info.http_port),
            r.websocket_address@ == url_text("ws://"@, self.node_info.ip@, self.node_info.ws_port),
            r.public_key@ == crate::crypto::base58_text(self.node_info.keypair.public_bytes()),
            r.block_producer == self.node_info.initial_config.block.producer,
            r.block_creation_interval_sec
                == self.node_info.initial_config.block.creation_interval_sec,
    {
        ApiEphemeraConfig {
            protocol_address: self.node_info.protocol_address(),
            api_address: self.node_info.api_address_http(),
            websocket_address: self.node_info.ws_address_ws(),
            public_key: self.node_info.keypair.public_key().to_base58(),
            block_producer: self.node_info.initial_config.block.producer,
            block_creation_interval_sec: self.node_info.initial_config.block.creation_interval_sec,
        }
    }
}

// ---------------------------------------------------------------------------
// Answers to queries of the storage.
// ---------------------------------------------------------------------------

/// The answer to a client whose message was accepted, given whether gossiping the
/// message to the network succeeded: `Ok` exactly then, else the network's error.
pub fn submit_reply(sent: core::result::Result<(), anyhow::Error>) -> (r: core::result::Result<
    (),
    ApiError,
>)
    ensures
        sent is Ok ==> r is Ok,
        sent matches Err(e) ==> (r matches Err(ApiError::Internal(e2)) && e2 == e),
{
    match sent {
        Ok(()) => Ok(()),
        Err(e) => Err(ApiError::Internal(e)),
    }
}

/// The answer to a query of one block: the block as the API shows it, none, or the
/// storage's error.
pub fn block_query_response(
    stored: core::result::Result<Option<Block>, anyhow::Error>,
) -> (r: core::result::Result<Option<ApiBlock>, ApiError>)
    ensures
        stored matches Ok(Some(b)) ==> (r matches Ok(Some(a)) && a@ == api_block_view(b@)),
        stored matches Ok(None) ==> r matches Ok(None),
        stored matches Err(e) ==> (r matches Err(ApiError::Internal(e2)) && e2 == e),
{
    match stored {
        Ok(Some(block)) => Ok(Some(ApiBlock::from_block(block))),
        Ok(None) => Ok(None),
        Err(e) => Err(ApiError::Internal(e)),
    }
}

/// The answer to a query of the last block: there always is one, so none is an error.
pub fn last_block_response(stored: core::result::Result<Option<Block>, anyhow::Error>) -> (r:
    core::result::Result<ApiBlock, ApiError>)
    ensures
        stored matches Ok(Some(b)) ==> (r matches Ok(a) && a@ == api_block_view(b@)),
        stored matches Ok(None) ==> r matches Err(ApiError::Internal(_)),
        stored matches Err(e) ==> (r matches Err(ApiError::Internal(e2)) && e2 == e),
{
    match stored {
        Ok(Some(block)) => Ok(ApiBlock::from_block(block)),
        Ok(None) => Err(ApiError::Internal(error_message("No blocks found, this is a bug!"))),
        Err(e) => Err(ApiError::Internal(e)),
    }
}

/// The answer to a query of a block's certificates.
pub fn certificates_query_response(
    stored: core::result::Result<Option<Vec<Certificate>>, anyhow::Error>,
) -> (r: core::result::Result<Option<Vec<ApiCertificate>>, ApiError>)
    ensures
        stored matches Ok(Some(cs)) ==> (r matches Ok(Some(a)) && a@.len() == cs@.len() && forall|
            i: int,
        | 0 <= i < cs@.len() ==> #[trigger] a@[i]@ == cs@[i]@),
        stored matches Ok(None) ==> r matches Ok(None),
        stored matches Err(e) ==> (r matches Err(ApiError::Internal(e2)) && e2 == e),
{
    match stored {
        Ok(Some(certificates)) => {
            let mut out: Vec<ApiCertificate> = Vec::new();
            let mut i: usize = 0;
            while i < certificates.len()
                invariant
                    i <= certificates@.len(),
                    out@.len() == i,
                    forall|j: int| 0 <= j < i ==> #[trigger] out@[j]@ == certificates@[j]@,
                decreases certificates@.len() - i,
            {
                out.push(ApiCertificate::from_certificate(certificates[i].clone()));
                i = i + 1;
            }
            Ok(Some(out))
        },
        Ok(None) => Ok(None),
        Err(e) => Err(ApiError::Internal(e)),
    }
}

} // verus!
