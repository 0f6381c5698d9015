//! The keys under which the key-value store keeps blocks and their signatures.

use vstd::prelude::*;
use vstd::string::StringExecFns;
use crate::encoding::{decimal_string, decimal_text};

verus! {

/// Whether two stores gave the same answer: both nothing, or the same value.
pub open spec fn same_answer<T: View>(a: Option<T>, b: Option<T>) -> bool {
    match (a, b) {
        (None, None) => true,
        (Some(x), Some(y)) => x@ == y@,
        _ => false,
    }
}

/// The answer of the store that keeps every block twice, given what each of its two
/// stores answered: the first store's error, else the second's, else the first store's
/// answer.  Both stores are written together, so when both answer they agree.
pub fn compound_answer<T: View>(
    first: Result<Option<T>, anyhow::Error>,
    second: Result<Option<T>, anyhow::Error>,
) -> (r: Result<Option<T>, anyhow::Error>)
    requires
        first is Ok && second is Ok ==> same_answer(first->Ok_0, second->Ok_0),
    ensures
        first matches Err(e) ==> (r matches Err(e2) && e2 == e),
        first is Ok ==> (second matches Err(e) ==> (r matches Err(e2) && e2 == e)),
        first is Ok && second is Ok ==> r == first,
{
    match first {
        Err(e) => Err(e),
        Ok(a) => match second {
            Err(e) => Err(e),
            Ok(_) => Ok(a),
        },
    }
}

/// The key of the last block.
pub const PREFIX_LAST_BLOCK_KEY: &'static str = "last_block";

/// The prefix of the keys of blocks by id.
pub const PREFIX_BLOCK_ID: &'static str = "block_id";

/// The prefix of the keys of blocks by height.
pub const PREFIX_BLOCK_HEIGHT: &'static str = "block_height";

/// The prefix of the keys of block signatures.
pub const PREFIX_SIGNATURES: &'static str = "signatures";

/// `block_id:<id>`
pub fn block_id_key(block_id: &str) -> (r: String)
    ensures
        r@ == PREFIX_BLOCK_ID@ + ":"@ + block_id@,
{
    let mut out = String::from_str(PREFIX_BLOCK_ID);
    out.append(":");
    out.append(block_id);
    out
}

/// `block_height:<height>`
pub fn block_height_key(height: &u64) -> (r: String)
    ensures
        r@ == PREFIX_BLOCK_HEIGHT@ + ":"@ + decimal_text(*height as nat),
{
    let mut out = String::from_str(PREFIX_BLOCK_HEIGHT);
    out.append(":");
    let h = decimal_string(*height);
    out.append(h.as_str());
    out
}

/// `last_block`
pub fn last_block_key() -> (r: String)
    ensures
        r@ == PREFIX_LAST_BLOCK_KEY@,
{
    String::from_str(PREFIX_LAST_BLOCK_KEY)
}

/// `signatures:block_id:<id>`
pub fn signatures_key(block_id: &str) -> (r: String)
    ensures
        r@ == PREFIX_SIGNATURES@ + ":"@ + PREFIX_BLOCK_ID@ + ":"@ + block_id@,
{
    let mut out = String::from_str(PREFIX_SIGNATURES);
    out.append(":");
    out.append(PREFIX_BLOCK_ID);
    out.append(":");
    out.append(block_id);
    out
}

} // verus!
