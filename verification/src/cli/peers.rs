//! Adding peers to node configurations.

use vstd::prelude::*;
use vstd::string::StringExecFns;
use crate::config::{peer_settings_view, Configuration, PeerSetting};
use crate::crypto::{base58_bytes, base58_text, ed25519_public_of, Keypair};
use crate::encoding::{decimal_string, decimal_text};

verus! {

/// Adds a peer to the configuration of the node with the same name.
#[derive(Debug)]
pub struct AddPeerCmd {
    pub name: String,
    pub address: String,
    pub pub_key: String,
}

/// Why a peer was not added.
#[derive(Debug, PartialEq, Eq, Structural)]
pub enum AddPeerError {
    /// A peer with this name is already configured.
    DuplicateName,
}

/// Whether a list of peers has one with this name.
pub open spec fn has_peer_named(peers: Seq<(Seq<char>, Seq<char>, Seq<char>)>, name: Seq<char>) -> bool {
    exists|i: int| 0 <= i < peers.len() && #[trigger] peers[i].0 == name
}

impl AddPeerCmd {
    /// Adds the peer to `configuration`, unless a peer of that name is already there.
    /// Nothing else in the configuration changes.
    pub fn execute(self, configuration: &mut Configuration) -> (r: Result<(), AddPeerError>)
        ensures
            has_peer_named(peer_settings_view(old(configuration).libp2p.peers@), self.name@) ==> (
            r == Err::<(), AddPeerError>(AddPeerError::DuplicateName) && peer_settings_view(
                final(configuration).libp2p.peers@,
            ) == peer_settings_view(old(configuration).libp2p.peers@)),
            !has_peer_named(peer_settings_view(old(configuration).libp2p.peers@), self.name@) ==> (
            r is Ok && peer_settings_view(final(configuration).libp2p.peers@) == peer_settings_view(
                old(configuration).libp2p.peers@,
            ).push((self.name@, self.address@, self.pub_key@))),
            final(configuration).node == old(configuration).node,
            final(configuration).storage == old(configuration).storage,
            final(configuration).websocket == old(configuration).websocket,
            final(configuration).http == old(configuration).http,
            final(configuration).block == old(configuration).block,
            final(configuration).libp2p.port == old(configuration).libp2p.port,
            final(configuration).libp2p.ephemera_msg_topic_name == old(
                configuration,
            ).libp2p.ephemera_msg_topic_name,
            final(configuration).libp2p.heartbeat_interval_sec == old(
                configuration,
            ).libp2p.heartbeat_interval_sec,
            final(configuration).libp2p.members_provider_delay_sec == old(
                configuration,
            ).libp2p.members_provider_delay_sec,
    {
        let ghost peers0 = peer_settings_view(configuration.libp2p.peers@);
        let mut i: usize = 0;
        while i < configuration.libp2p.peers.len()
            invariant
                i <= configuration.libp2p.peers@.len(),
                peers0 == peer_settings_view(configuration.libp2p.peers@),
                forall|j: int| 0 <= j < i ==> peers0[j].0 != self.name@,
            decreases configuration.libp2p.peers@.len() - i,
        {
            if configuration.libp2p.peers[i].name == self.name {
                assert(peers0[i as int].0 == self.name@);
                return Err(AddPeerError::DuplicateName);
            }
            i = i + 1;
        }
        configuration.libp2p.peers.push(
            PeerSetting { name: self.name, address: self.address, pub_key: self.pub_key },
        );
        proof {
            assert(peer_settings_view(configuration.libp2p.peers@) =~= peers0.push(
                (self.name@, self.address@, self.pub_key@),
            ));
        }
        Ok(())
    }
}

/// Makes every local node a peer of every other local node.
#[derive(Debug)]
pub struct AddLocalPeersCmd;

/// A local node: its name, IP address, protocol port and the base58 text of its key.
pub type LocalNodeView = (Seq<char>, Seq<char>, u16, Seq<char>);

/// The view of a named node configuration.
pub open spec fn local_node_view(c: (String, Configuration)) -> LocalNodeView {
    (c.0@, c.1.node.ip@, c.1.libp2p.port, c.1.node.private_key@)
}

/// `/ip4/<ip>/tcp/<port>`
pub open spec fn peer_address(ip: Seq<char>, port: u16) -> Seq<char> {
    "/ip4/"@ + ip + "/tcp/"@ + decimal_text(port as nat)
}

/// The peer entry of a local node: its name, address and the base58 text of its
/// public key.
pub open spec fn local_peer(n: LocalNodeView) -> (Seq<char>, Seq<char>, Seq<char>) {
    (n.0, peer_address(n.1, n.2), base58_text(ed25519_public_of(base58_bytes(n.3).unwrap())))
}

/// The peer entries of the nodes not named `name`, in order.
pub open spec fn peers_except(ns: Seq<LocalNodeView>, name: Seq<char>) -> Seq<
    (Seq<char>, Seq<char>, Seq<char>),
>
    decreases ns.len(),
{
    if ns.len() == 0 {
        Seq::empty()
    } else if ns.last().0 == name {
        peers_except(ns.drop_last(), name)
    } else {
        peers_except(ns.drop_last(), name).push(local_peer(ns.last()))
    }
}

/// The key text of a node is the base58 text of a 32 byte secret key.
pub open spec fn has_valid_key(n: LocalNodeView) -> bool {
    base58_bytes(n.3) matches Some(b) && b.len() == 32
}

impl AddLocalPeersCmd {
    /// The peer entry of one local node.
    fn local_peer_setting(name: &String, configuration: &Configuration) -> (r: PeerSetting)
        requires
            has_valid_key(local_node_view((*name, *configuration))),
        ensures
            r@ == local_peer(local_node_view((*name, *configuration))),
    {
        let mut address = String::from_str("/ip4/");
        address.append(configuration.node.ip.as_str());
        address.append("/tcp/");
        let port = decimal_string(configuration.libp2p.port as u64);
        address.append(port.as_str());
        let pub_key = match Keypair::from_base58(configuration.node.private_key.as_str()) {
            Some(keypair) => keypair.public_key().to_base58(),
            None => String::new(),
        };
        PeerSetting { name: name.clone(), address, pub_key }
    }

    /// For each of the named node configurations, the peers it gets: every other
    /// node of another name, in order.
    pub fn peer_lists(&self, configs: &Vec<(String, Configuration)>) -> (r: Vec<Vec<PeerSetting>>)
        requires
            forall|j: int| 0 <= j < configs@.len() ==> has_valid_key(local_node_view(#[trigger] configs@[j])),
        ensures
            r@.len() == configs@.len(),
            forall|i: int| 0 <= i < configs@.len() ==> peer_settings_view(#[trigger] r@[i]@)
                == peers_except(configs@.map_values(|c: (String, Configuration)| local_node_view(c)), configs@[i].0@),
    {
        let ghost views = configs@.map_values(|c: (String, Configuration)| local_node_view(c));
        let mut out: Vec<Vec<PeerSetting>> = Vec::new();
        let mut i: usize = 0;
        while i < configs.len()
            invariant
                i <= configs@.len(),
                out@.len() == i,
                views == configs@.map_values(|c: (String, Configuration)| local_node_view(c)),
                forall|j: int| 0 <= j < configs@.len() ==> has_valid_key(local_node_view(#[trigger] configs@[j])),
                forall|k: int| 0 <= k < i ==> peer_settings_view(#[trigger] out@[k]@)
                    == peers_except(views, configs@[k].0@),
            decreases configs@.len() - i,
        {
            let mut peers: Vec<PeerSetting> = Vec::new();
            let mut j: usize = 0;
            while j < configs.len()
                invariant
                    j <= configs@.len(),
                    i < configs@.len(),
                    views == configs@.map_values(|c: (String, Configuration)| local_node_view(c)),
                    forall|m: int| 0 <= m < configs@.len() ==> has_valid_key(local_node_view(#[trigger] configs@[m])),
                    peer_settings_view(peers@) == peers_except(views.take(j as int), configs@[i as int].0@),
                decreases configs@.len() - j,
            {
                assert(views.take(j + 1).drop_last() =~= views.take(j as int));
                assert(views[j as int] == local_node_view(configs@[j as int]));
                if configs[j].0 != configs[i].0 {
                    let p = Self::local_peer_setting(&configs[j].0, &configs[j].1);
                    peers.push(p);
                    assert(peer_settings_view(peers@) =~= peers_except(views.take(j as int), configs@[i as int].0@).push(p@));
                }
                j = j + 1;
            }
            assert(views.take(configs@.len() as int) =~= views);
            out.push(peers);
            i = i + 1;
        }
        out
    }

    /// [`AddLocalPeersCmd::peer_lists`] after checking that every configuration holds
    /// the base58 text of a 32 byte secret key; `None` when one does not.
    pub fn checked_peer_lists(&self, configs: &Vec<(String, Configuration)>) -> (r: Option<
        Vec<Vec<PeerSetting>>,
    >)
        ensures
            r is Some <==> forall|j: int|
                0 <= j < configs@.len() ==> has_valid_key(local_node_view(#[trigger] configs@[j])),
            r matches Some(l) ==> l@.len() == configs@.len() && forall|i: int|
                0 <= i < configs@.len() ==> peer_settings_view(#[trigger] l@[i]@) == peers_except(
                    configs@.map_values(|c: (String, Configuration)| local_node_view(c)),
                    configs@[i].0@,
                ),
    {
        let mut i: usize = 0;
        while i < configs.len()
            invariant
                i <= configs@.len(),
                forall|j: int| 0 <= j < i ==> has_valid_key(local_node_view(#[trigger] configs@[j])),
            decreases configs@.len() - i,
        {
            if Keypair::from_base58(configs[i].1.node.private_key.as_str()).is_none() {
                assert(!has_valid_key(local_node_view(configs@[i as int])));
                return None;
            }
            i = i + 1;
        }
        Some(self.peer_lists(configs))
    }
}

} // verus!
