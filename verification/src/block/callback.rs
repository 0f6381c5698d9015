//! What the application says about the messages of a block that is about to be
//! proposed.

use vstd::prelude::*;
use crate::block::types::message::EphemeraMessage;

verus! {

/// The messages that the application accepts for a block, and an optional label.
#[derive(Debug)]
pub struct ApplicationInfo<'a> {
    pub label: Option<String>,
    pub accepted_messages: &'a [EphemeraMessage],
}

impl<'a> ApplicationInfo<'a> {
    pub fn new(label: Option<String>, messages: &'a [EphemeraMessage]) -> (r: Self)
        ensures
            r.label == label,
            r.accepted_messages == messages,
    {
        ApplicationInfo { label, accepted_messages: messages }
    }
}

/// Decides whether a block with these messages should be proposed.
pub trait BlockProducerCallback {
    /// `None` when no block should be proposed.
    fn on_proposed_block<'a>(
        &self,
        messages: &'a [EphemeraMessage],
    ) -> Result<Option<ApplicationInfo<'a>>, anyhow::Error>;
}

/// Accepts every block with all of its messages.
pub struct DummyBlockProducerCallback;

impl BlockProducerCallback for DummyBlockProducerCallback {
    fn on_proposed_block<'a>(&self, messages: &'a [EphemeraMessage]) -> (r: Result<
        Option<ApplicationInfo<'a>>,
        anyhow::Error,
    >)
        ensures
            r matches Ok(Some(info)) && info.label is None && info.accepted_messages == messages,
    {
        let accepted = ApplicationInfo::new(None, messages);
        Ok(Some(accepted))
    }
}

/// Accepts a block with all of its messages when it has at least this many.
pub struct MinMessageCountBlockProducerCallback(pub usize);

impl BlockProducerCallback for MinMessageCountBlockProducerCallback {
    fn on_proposed_block<'a>(&self, messages: &'a [EphemeraMessage]) -> (r: Result<
        Option<ApplicationInfo<'a>>,
        anyhow::Error,
    >)
        ensures
            messages@.len() >= self.0 ==> (r matches Ok(Some(info)) && info.label is None
                && info.accepted_messages == messages),
            messages@.len() < self.0 ==> r matches Ok(None),
    {
        if messages.len() >= self.0 {
            let accepted = ApplicationInfo::new(None, messages);
            return Ok(Some(accepted));
        }
        Ok(None)
    }
}

} // verus!
