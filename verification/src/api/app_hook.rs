//! An application hook that accepts exactly the messages whose signature checks.

use vstd::prelude::*;
use std::sync::Arc;
use crate::api::types::{raw_api_message_json, ApiBlock, ApiEphemeraMessage, RawApiEphemeraMessage};
use crate::crypto::{ed25519_verifies, Keypair};
use crate::utilities::error_message;

verus! {

/// The hooks that a node calls on an application: checking a message, and receiving a
/// delivered block.
pub trait ApplicationHook {
    fn check_tx(&self, tx: ApiEphemeraMessage) -> core::result::Result<bool, anyhow::Error>;

    fn deliver_block(&self, block: ApiBlock) -> core::result::Result<(), anyhow::Error>;
}

/// Checks the signature of each message with the node's key.
pub struct SignatureVerificationApplicationHook {
    keypair: Arc<Keypair>,
}

impl SignatureVerificationApplicationHook {
    #[verifier::type_invariant]
    spec fn key_wf(&self) -> bool {
        self.keypair.wf()
    }

    /// The key that signatures are checked with.
    pub closed spec fn keypair(&self) -> Keypair {
        *self.keypair
    }

    pub fn new(key_pair: Arc<Keypair>) -> (r: Self)
        requires
            key_pair.wf(),
        ensures
            r.keypair() == *key_pair,
    {
        SignatureVerificationApplicationHook { keypair: key_pair }
    }

    /// Succeeds exactly when the message's signature is a signature, under the hook's
    /// key, of the signed part of the message.
    pub fn verify_message(&self, msg: ApiEphemeraMessage) -> (r: core::result::Result<(), anyhow::Error>)
        ensures
            r is Ok <==> ed25519_verifies(
                self.keypair().public_bytes(),
                raw_api_message_json(msg.timestamp, msg.label@, msg.data@),
                msg.certificate.signature@,
            ),
    {
        proof {
            use_type_invariant(self);
        }
        let signature = msg.certificate.signature.clone();
        let raw_message = RawApiEphemeraMessage::from_api(msg);
        let bytes = raw_message.encode();
        if self.keypair.verify(bytes.as_slice(), &signature) {
            Ok(())
        } else {
            Err(error_message("Invalid signature"))
        }
    }
}

impl ApplicationHook for SignatureVerificationApplicationHook {
    fn check_tx(&self, tx: ApiEphemeraMessage) -> (r: core::result::Result<bool, anyhow::Error>)
        ensures
            r is Ok <==> ed25519_verifies(
                self.keypair().public_bytes(),
                raw_api_message_json(tx.timestamp, tx.label@, tx.data@),
                tx.certificate.signature@,
            ),
            r matches Ok(b) ==> b,
    {
        match self.verify_message(tx) {
            Ok(()) => Ok(true),
            Err(e) => Err(e),
        }
    }

    fn deliver_block(&self, block: ApiBlock) -> (r: core::result::Result<(), anyhow::Error>)
        ensures
            r is Ok,
    {
        Ok(())
    }
}

} // verus!
