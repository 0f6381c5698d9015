//! Queries of the distributed hash table that wait for the network's answer.
//!
//! A client's query is sent to the network; until the answer for its key arrives, the
//! node remembers the query by key, under a token that the caller uses to find the
//! client to answer.  At most `DHT_QUERY_CAPACITY` queries wait; a newer query for the
//! same key replaces the older one, and when the table is full a new query pushes out
//! the least recently used one.

use vstd::prelude::*;
use std::collections::hash_map::RandomState;
use lru::LruCache;
use crate::api::types::ApiError;
use crate::bytes::clone_bytes;
use crate::cache::{lemma_put_outcome, put_outcome};

verus! {

/// Waiting queries: a token by key.
pub type QueryCache = LruCache<Vec<u8>, u64, RandomState>;

/// The tokens held by a query cache, by key.
pub uninterp spec fn query_cache_entries(c: QueryCache) -> Map<Seq<u8>, u64>;

/// The capacity that a query cache was made with.
pub uninterp spec fn query_cache_capacity(c: QueryCache) -> nat;

/// No waiting queries.
pub open spec fn no_queries() -> Map<Seq<u8>, u64> {
    Map::empty()
}

/// How many queries may wait at once.
pub const DHT_QUERY_CAPACITY: usize = 1000;

/// `LruCache::with_hasher` with capacity `cap` and std's `RandomState`: an empty cache.
#[verifier::external_body]
fn query_cache_new(cap: usize) -> (r: QueryCache)
    requires
        cap > 0,
    ensures
        query_cache_entries(r) == no_queries(),
        query_cache_capacity(r) == cap,
        query_cache_entries(r).dom().finite(),
{
    match std::num::NonZeroUsize::new(cap) {
        Some(c) => LruCache::with_hasher(c, RandomState::new()),
        None => LruCache::with_hasher(std::num::NonZeroUsize::MIN, RandomState::new()),
    }
}

/// `LruCache::put`: replaces the value of a present key (returning the old value), or
/// inserts a new key, dropping one present entry when the cache is full.
#[verifier::external_body]
fn query_cache_put(c: &mut QueryCache, k: Vec<u8>, v: u64) -> (r: Option<u64>)
    ensures
        put_outcome(
            query_cache_entries(*old(c)),
            query_cache_entries(*final(c)),
            query_cache_capacity(*old(c)),
            k@,
            v,
        ),
        query_cache_capacity(*final(c)) == query_cache_capacity(*old(c)),
        query_cache_entries(*final(c)).dom().finite(),
        query_cache_entries(*final(c)).len() <= query_cache_capacity(*final(c)),
        query_cache_entries(*old(c)).contains_key(k@) ==> r == Some(
            query_cache_entries(*old(c))[k@],
        ),
        !query_cache_entries(*old(c)).contains_key(k@) ==> r is None,
{
    c.put(k, v)
}

/// `LruCache::pop`: removes the key and returns its value.
#[verifier::external_body]
fn query_cache_pop(c: &mut QueryCache, k: &Vec<u8>) -> (r: Option<u64>)
    ensures
        query_cache_entries(*final(c)) == query_cache_entries(*old(c)).remove(k@),
        query_cache_capacity(*final(c)) == query_cache_capacity(*old(c)),
        query_cache_entries(*final(c)).dom().finite(),
        query_cache_entries(*final(c)).len() <= query_cache_capacity(*final(c)),
        query_cache_entries(*old(c)).contains_key(k@) ==> r == Some(
            query_cache_entries(*old(c))[k@],
        ),
        !query_cache_entries(*old(c)).contains_key(k@) ==> r is None,
{
    c.pop(k)
}

/// The queries that wait for the network.
pub struct DhtQueries {
    pending: QueryCache,
}

/// What to tell the client after its query was handed to the network.
pub enum QuerySent {
    /// The query waits for the answer.
    Waiting,
    /// The network did not take the query: answer the client with this error.
    Failed(ApiError),
}

impl DhtQueries {
    /// The waiting queries: a token by key.
    pub closed spec fn pending(&self) -> Map<Seq<u8>, u64> {
        query_cache_entries(self.pending)
    }

    /// The cache holds at most its capacity.
    pub closed spec fn wf(&self) -> bool {
        &&& query_cache_capacity(self.pending) == DHT_QUERY_CAPACITY
        &&& query_cache_entries(self.pending).dom().finite()
        &&& query_cache_entries(self.pending).len() <= DHT_QUERY_CAPACITY
    }

    /// No query waits.
    pub fn new() -> (r: Self)
        ensures
            r.wf(),
            r.pending() == Map::<Seq<u8>, u64>::empty(),
    {
        DhtQueries { pending: query_cache_new(DHT_QUERY_CAPACITY) }
    }

    /// The query for `key`, answered through `token`, was handed to the network with
    /// outcome `sent`: on success it waits (replacing an older query for the key, or
    /// pushing out the least recently used one when the table is full); on failure
    /// nothing waits and the client gets the network's error.
    pub fn query_sent(
        &mut self,
        key: Vec<u8>,
        token: u64,
        sent: Result<(), anyhow::Error>,
    ) -> (r: QuerySent)
        requires
            old(self).wf(),
        ensures
            final(self).wf(),
            sent is Ok ==> (r is Waiting && put_outcome(
                old(self).pending(),
                final(self).pending(),
                DHT_QUERY_CAPACITY as nat,
                key@,
                token,
            ) && final(self).pending().contains_key(key@) && final(self).pending()[key@]
                == token),
            sent matches Err(e) ==> (r matches QuerySent::Failed(ApiError::Internal(e2)) && e2 == e
                && final(self).pending() == old(self).pending()),
    {
        match sent {
            Ok(()) => {
                let ghost before = self.pending();
                let ghost k = key@;
                let _ = query_cache_put(&mut self.pending, key, token);
                proof {
                    lemma_put_outcome(before, self.pending(), DHT_QUERY_CAPACITY as nat, k, token);
                }
                QuerySent::Waiting
            },
            Err(e) => QuerySent::Failed(ApiError::Internal(e)),
        }
    }

    /// The network answered the query for `key` with `value`: the waiting query leaves
    /// the table, and its token comes back with the key and value to answer it with;
    /// `None`, with the table unchanged, when no query for the key waits.
    pub fn query_answered(&mut self, key: &Vec<u8>, value: Vec<u8>) -> (r: Option<
        (u64, (Vec<u8>, Vec<u8>)),
    >)
        requires
            old(self).wf(),
        ensures
            final(self).wf(),
            final(self).pending() == old(self).pending().remove(key@),
            old(self).pending().contains_key(key@) ==> (r matches Some((t, (k, v)))
                && t == old(self).pending()[key@] && k@ == key@ && v@ == value@),
            !old(self).pending().contains_key(key@) ==> r is None,
    {
        match query_cache_pop(&mut self.pending, key) {
            Some(token) => Some((token, (clone_bytes(key), value))),
            None => None,
        }
    }
}

/// The answer to a client that asked to store a key and value in the table, given
/// whether the network took the request.
pub fn store_response(sent: Result<(), anyhow::Error>) -> (r: Result<(), ApiError>)
    ensures
        sent is Ok ==> r is Ok,
        sent matches Err(e) ==> (r matches Err(ApiError::Internal(e2)) && e2 == e),
{
    match sent {
        Ok(()) => Ok(()),
        Err(e) => Err(ApiError::Internal(e)),
    }
}

} // verus!
