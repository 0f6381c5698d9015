//! Making a keypair for a node.

use vstd::prelude::*;
use crate::crypto::{base58_text, ed25519_public_of, Keypair};

verus! {

/// Prints a fresh keypair.
#[derive(Debug)]
pub struct GenerateKeypairCmd;

impl GenerateKeypairCmd {
    /// A fresh keypair as the base58 text of its secret key and of its public key.
    pub fn keys(&self) -> (r: (String, String))
        ensures
            exists|secret: Seq<u8>|
                secret.len() == 32 && r.0@ == base58_text(secret) && r.1@ == base58_text(
                    ed25519_public_of(secret),
                ),
    {
        let keypair = Keypair::generate();
        let secret = keypair.to_base58();
        let public = keypair.public_key().to_base58();
        proof {
            assert(secret@ == base58_text(keypair.secret_bytes()));
            assert(public@ == base58_text(ed25519_public_of(keypair.secret_bytes())));
        }
        (secret, public)
    }
}

} // verus!
