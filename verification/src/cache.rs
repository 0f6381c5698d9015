//! The bounded caches of the node (`lru::LruCache`).
//!
//! A cache holds at most its capacity of entries; putting a new key into a full cache
//! drops the least recently used entry.  The contents of each kind of cache that the
//! library uses are named below, together with its capacity, and each method that the
//! library calls has a trusted wrapper whose contract follows the `lru` source:
//! `put` replaces the value of a present key and returns the old one, and otherwise
//! inserts, evicting one present entry exactly when the cache is full; `pop` removes a
//! key and returns its value; `contains` answers membership without changing anything.

use vstd::prelude::*;

verus! {

/// The cache type of the `lru` crate.
#[verifier::external_type_specification]
#[verifier::external_body]
#[verifier::reject_recursive_types(K)]
#[verifier::reject_recursive_types(V)]
#[verifier::reject_recursive_types(S)]
pub struct ExLruCache<K, V, S>(lru::LruCache<K, V, S>);

/// What `put` does to a map of contents, given the capacity: replace, insert, or (full
/// cache, new key) insert after dropping some present key `e`.
pub open spec fn put_outcome<K, V>(
    before: Map<K, V>,
    after: Map<K, V>,
    cap: nat,
    k: K,
    v: V,
) -> bool {
    if before.contains_key(k) || before.len() < cap {
        after == before.insert(k, v)
    } else {
        exists|e: K| #[trigger] before.contains_key(e) && after == before.remove(e).insert(k, v)
    }
}

/// After `put`, the cache maps the key to the value, and every entry of the result
/// other than that one was there before with the same value.
pub proof fn lemma_put_outcome<K, V>(before: Map<K, V>, after: Map<K, V>, cap: nat, k: K, v: V)
    requires
        put_outcome(before, after, cap, k, v),
    ensures
        after.contains_key(k),
        after[k] == v,
        forall|j: K| #[trigger] after.contains_key(j) && j != k ==> before.contains_key(j)
            && after[j] == before[j],
{
    if !(before.contains_key(k) || before.len() < cap) {
        let e = choose|e: K| #[trigger] before.contains_key(e) && after == before.remove(e).insert(k, v);
        assert(after == before.remove(e).insert(k, v));
    }
}

/// The views of the values of a map.
pub open spec fn view_values<K, V: View>(m: Map<K, V>) -> Map<K, V::V> {
    m.map_values(|v: V| v@)
}

/// What `put` does to the contents, it does to their views.
pub proof fn lemma_put_outcome_view<K, V: View>(
    before: Map<K, V>,
    after: Map<K, V>,
    cap: nat,
    k: K,
    v: V,
)
    requires
        put_outcome(before, after, cap, k, v),
    ensures
        put_outcome(view_values(before), view_values(after), cap, k, v@),
{
    assert(view_values(before).dom() =~= before.dom());
    if before.contains_key(k) || before.len() < cap {
        assert(view_values(after) =~= view_values(before).insert(k, v@));
    } else {
        let e = choose|e: K| #[trigger] before.contains_key(e) && after == before.remove(e).insert(k, v);
        assert(view_values(after) =~= view_values(before).remove(e).insert(k, v@));
        assert(view_values(before).contains_key(e));
    }
}

} // verus!
