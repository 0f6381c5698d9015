//! The commands of the node's command line: what each decides, apart from the files
//! and the terminal.

pub mod crypto;
pub mod init;
pub mod peers;
pub mod run_node;

use vstd::prelude::*;

verus! {

/// The command line.
#[derive(Debug)]
pub struct Cli {
    pub subcommand: Subcommand,
}

/// The commands.
#[derive(Debug)]
pub enum Subcommand {
    /// Writes the configuration of a new node.
    InitConfig(init::InitCmd),
    /// Makes every local node a peer of every other local node.
    InitLocalPeersConfig(peers::AddLocalPeersCmd),
    /// Adds a peer to a node's configuration.
    AddPeer(peers::AddPeerCmd),
    /// Runs a node.
    RunNode(run_node::RunExternalNodeCmd),
    /// Prints a fresh keypair.
    GenerateKeypair(crypto::GenerateKeypairCmd),
}

} // verus!
