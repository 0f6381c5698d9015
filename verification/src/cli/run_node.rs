//! Running a node: which members provider to use, and the application that checks
//! message signatures.

use vstd::prelude::*;
use std::sync::Arc;
use crate::api::application::{Application, ApplicationError, CheckBlockResult, Result};
use crate::api::types::{raw_api_message_json, ApiBlock, ApiEphemeraMessage, RawApiEphemeraMessage};
use crate::crypto::{ed25519_verifies, Keypair};
use crate::utilities::error_message;

verus! {

/// Where the node learns the members of the cluster from: at most one of the three
/// may be chosen.
#[derive(Debug)]
pub struct MembersProviderType {
    pub dummy_members_provider: Option<bool>,
    pub config_members_provider: Option<bool>,
    /// The URL of an HTTP members provider.
    pub http_members_provider: Option<String>,
}

/// The chosen members provider.
#[derive(Debug, PartialEq, Eq)]
pub enum MembersProvider {
    /// No members at all.
    Dummy,
    /// The members listed in the peers file of the configuration directory.
    Config,
    /// The members that an HTTP service at this URL lists.
    Http(String),
}

/// Runs a node with a configuration file.
#[derive(Debug)]
pub struct RunExternalNodeCmd {
    pub config_file: String,
    pub members_provider: MembersProviderType,
}

impl RunExternalNodeCmd {
    /// The members provider that the flags choose, in this order of precedence: a
    /// dummy one, the configured one, an HTTP one; an error when none is chosen.
    pub fn members_provider(&self) -> (r: core::result::Result<MembersProvider, anyhow::Error>)
        ensures
            self.members_provider.dummy_members_provider == Some(true) ==> r matches Ok(
                MembersProvider::Dummy,
            ),
            self.members_provider.dummy_members_provider != Some(true)
                && self.members_provider.config_members_provider == Some(true) ==> r matches Ok(
                MembersProvider::Config,
            ),
            self.members_provider.dummy_members_provider != Some(true)
                && self.members_provider.config_members_provider != Some(true) ==> (match self.members_provider.http_members_provider {
                Some(url) => r matches Ok(MembersProvider::Http(u)) && u@ == url@,
                None => r is Err,
            }),
    {
        match self.members_provider.dummy_members_provider {
            Some(true) => {
                return Ok(MembersProvider::Dummy);
            },
            _ => {},
        }
        match self.members_provider.config_members_provider {
            Some(true) => {
                return Ok(MembersProvider::Config);
            },
            _ => {},
        }
        match &self.members_provider.http_members_provider {
            Some(url) => Ok(MembersProvider::Http(url.clone())),
            None => Err(error_message("Invalid members provider")),
        }
    }
}

/// An application that accepts exactly the messages whose signature checks under the
/// node's key, and every block.
pub struct SignatureVerificationApplication {
    keypair: Arc<Keypair>,
}

impl SignatureVerificationApplication {
    #[verifier::type_invariant]
    spec fn key_wf(&self) -> bool {
        self.keypair.wf()
    }

    /// The key that signatures are checked with.
    pub closed spec fn keypair(&self) -> Keypair {
        *self.keypair
    }

    pub fn new(keypair: Arc<Keypair>) -> (r: Self)
        requires
            keypair.wf(),
        ensures
            r.keypair() == *keypair,
    {
        SignatureVerificationApplication { keypair }
    }

    /// Succeeds exactly when the message's signature is a signature, under the node's
    /// key, of the signed part of the message.
    pub fn verify_message(&self, msg: ApiEphemeraMessage) -> (r: core::result::Result<(), anyhow::Error>)
        ensures
            r is Ok <==> ed25519_verifies(
                self.keypair().public_bytes(),
                raw_api_message_json(msg.timestamp, msg.label@, msg.data@),
                msg.certificate.signature@,
            ),
    {
        proof {
            use_type_invariant(self);
        }
        let signature = msg.certificate.signature.clone();
        let raw_message = RawApiEphemeraMessage::from_api(msg);
        let encoded_message = raw_message.encode();
        if self.keypair.verify(encoded_message.as_slice(), &signature) {
            Ok(())
        } else {
            Err(error_message("Invalid signature"))
        }
    }
}

impl Application for SignatureVerificationApplication {
    fn check_tx(&self, tx: ApiEphemeraMessage) -> (r: Result<bool>)
        ensures
            r is Ok <==> ed25519_verifies(
                self.keypair().public_bytes(),
                raw_api_message_json(tx.timestamp, tx.label@, tx.data@),
                tx.certificate.signature@,
            ),
            r matches Ok(b) ==> b,
    {
        match self.verify_message(tx) {
            Ok(()) => Ok(true),
            Err(e) => Err(ApplicationError::GeneralError(e)),
        }
    }

    fn check_block(&self, _block: &ApiBlock) -> (r: Result<CheckBlockResult>)
        ensures
            r matches Ok(CheckBlockResult::Accept),
    {
        Ok(CheckBlockResult::Accept)
    }

    fn deliver_block(&self, _block: ApiBlock) -> (r: Result<()>)
        ensures
            r is Ok,
    {
        Ok(())
    }
}

} // verus!
