//! Time stamps and random identifiers.

use vstd::prelude::*;

verus! {

/// Reads the system clock (`std::time::SystemTime::now`) and returns the whole seconds
/// since the Unix epoch (0 for a clock set before it).  Nothing is claimed of the value.
#[verifier::external_body]
fn system_time_secs() -> (r: u64) {
    std::time::SystemTime::now()
        .duration_since(std::time::UNIX_EPOCH)
        .map(|d| d.as_secs())
        .unwrap_or(0)
}

/// Draws a random version 4 UUID (`uuid::Uuid::new_v4`) and returns its hyphenated text.
/// Random: nothing is claimed of the value.
#[verifier::external_body]
fn random_uuid_text() -> (r: String) {
    uuid::Uuid::new_v4().to_string()
}

/// An error of the `anyhow` crate, carried through as an opaque value.
#[verifier::external_type_specification]
#[verifier::external_body]
pub struct ExAnyhowError(anyhow::Error);

/// `anyhow::Error::msg`: an error whose message is `msg`.  Nothing is claimed of the value.
#[verifier::external_body]
pub(crate) fn error_message(msg: &str) -> (r: anyhow::Error) {
    anyhow::Error::msg(msg.to_string())
}

/// The wall clock of the node.
pub struct EphemeraTime;

impl EphemeraTime {
    /// Seconds since the Unix epoch.
    pub fn now() -> u64 {
        system_time_secs()
    }
}

/// A random identifier of a broadcast message.
#[derive(Debug, PartialEq, Eq, Hash)]
pub struct EphemeraId(pub String);

impl View for EphemeraId {
    type V = Seq<char>;

    open spec fn view(&self) -> Seq<char> {
        self.0@
    }
}

impl Clone for EphemeraId {
    fn clone(&self) -> (r: Self)
        ensures
            r@ == self@,
    {
        EphemeraId(self.0.clone())
    }
}

impl EphemeraId {
    /// A fresh random identifier.
    pub fn generate() -> EphemeraId {
        EphemeraId(random_uuid_text())
    }
}

} // verus!
