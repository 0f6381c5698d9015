//! The pool of pending messages: messages received and not yet in a committed block.

use vstd::prelude::*;
use crate::block::types::block::messages_view;
use crate::block::types::message::{message_hash, EphemeraMessage, MessageView};
use crate::crypto::HashType;

verus! {

/// The pending messages, each stored with its hash.
pub struct MessagePool {
    pending_messages: Vec<(HashType, EphemeraMessage)>,
}

/// The hash/message pairs of a list of entries.
pub open spec fn entry_views(s: Seq<(HashType, EphemeraMessage)>) -> Seq<(Seq<u8>, MessageView)> {
    s.map_values(|e: (HashType, EphemeraMessage)| (e.0@, e.1@))
}

/// Every entry is stored under the hash of its message, and no hash occurs twice.
pub open spec fn entries_wf(s: Seq<(Seq<u8>, MessageView)>) -> bool {
    &&& forall|i: int| 0 <= i < s.len() ==> #[trigger] s[i].0 == message_hash(s[i].1)
    &&& forall|i: int, j: int|
        0 <= i < s.len() && 0 <= j < s.len() && i != j ==> #[trigger] s[i].0 != #[trigger] s[j].0
}

/// The map from hash to message that a list of entries stands for.
pub open spec fn entries_map(s: Seq<(Seq<u8>, MessageView)>) -> Map<Seq<u8>, MessageView> {
    Map::new(
        |k: Seq<u8>| exists|i: int| 0 <= i < s.len() && s[i].0 == k,
        |k: Seq<u8>| s[choose|i: int| 0 <= i < s.len() && s[i].0 == k].1,
    )
}

/// In a well formed list, entry `i` is what the map holds under its hash.
proof fn lemma_entry_in_map(s: Seq<(Seq<u8>, MessageView)>, i: int)
    requires
        entries_wf(s),
        0 <= i < s.len(),
    ensures
        entries_map(s).contains_key(s[i].0),
        entries_map(s)[s[i].0] == s[i].1,
{
    let k = s[i].0;
    assert(exists|j: int| 0 <= j < s.len() && s[j].0 == k);
    let j = choose|j: int| 0 <= j < s.len() && s[j].0 == k;
    assert(j == i);
}

/// The index of the entry with hash `k`, if any.
fn find_entry(v: &Vec<(HashType, EphemeraMessage)>, k: &HashType) -> (r: Option<usize>)
    requires
        entries_wf(entry_views(v@)),
    ensures
        r matches Some(i) ==> i < v@.len() && entry_views(v@)[i as int].0 == k@,
        r is None ==> !entries_map(entry_views(v@)).contains_key(k@),
{
    let mut i: usize = 0;
    while i < v.len()
        invariant
            i <= v@.len(),
            forall|j: int| 0 <= j < i ==> entry_views(v@)[j].0 != k@,
        decreases v@.len() - i,
    {
        if v[i].0.same(k) {
            return Some(i);
        }
        i = i + 1;
    }
    proof {
        let s = entry_views(v@);
        if entries_map(s).contains_key(k@) {
            let j = choose|j: int| 0 <= j < s.len() && s[j].0 == k@;
            assert(s[j].0 != k@);
        }
    }
    None
}

impl MessagePool {
    /// The pending messages by hash.
    pub closed spec fn view(&self) -> Map<Seq<u8>, MessageView> {
        entries_map(entry_views(self.pending_messages@))
    }

    /// Every message is stored under its own hash.
    pub closed spec fn wf(&self) -> bool {
        entries_wf(entry_views(self.pending_messages@))
    }

    /// Every message of the pool is stored under its hash.
    pub proof fn lemma_keys_are_hashes(&self)
        requires
            self.wf(),
        ensures
            forall|k: Seq<u8>| #[trigger]
                self.view().contains_key(k) ==> k == message_hash(self.view()[k]),
    {
        let s = entry_views(self.pending_messages@);
        assert forall|k: Seq<u8>| #[trigger] self.view().contains_key(k) implies k == message_hash(
            self.view()[k],
        ) by {
            let j = choose|j: int| 0 <= j < s.len() && s[j].0 == k;
            lemma_entry_in_map(s, j);
        }
    }

    /// An empty pool.
    pub fn new() -> (r: Self)
        ensures
            r.wf(),
            r.view() == Map::<Seq<u8>, MessageView>::empty(),
    {
        let r = MessagePool { pending_messages: Vec::new() };
        assert(r.view() =~= Map::<Seq<u8>, MessageView>::empty());
        r
    }

    /// Whether a message with hash `hash` is pending.
    pub fn contains(&self, hash: &HashType) -> (r: bool)
        requires
            self.wf(),
        ensures
            r == self.view().contains_key(hash@),
    {
        match find_entry(&self.pending_messages, hash) {
            Some(i) => {
                proof {
                    lemma_entry_in_map(entry_views(self.pending_messages@), i as int);
                }
                true
            },
            None => false,
        }
    }

    /// Adds a message under its hash (replacing a message with the same hash).
    pub fn add_message(&mut self, msg: EphemeraMessage)
        requires
            old(self).wf(),
        ensures
            final(self).wf(),
            final(self).view() == old(self).view().insert(message_hash(msg@), msg@),
    {
        let msg_hash = msg.hash_with_default_hasher();
        let ghost old_s = entry_views(self.pending_messages@);
        let ghost mv = msg@;
        match find_entry(&self.pending_messages, &msg_hash) {
            Some(i) => {
                self.pending_messages.set(i, (msg_hash, msg));
                proof {
                    let s = entry_views(self.pending_messages@);
                    assert(s =~= old_s.update(i as int, (msg_hash@, mv)));
                    assert(entries_wf(s));
                    self.lemma_map_after_update(old_s, s, i as int, msg_hash@, mv);
                }
            },
            None => {
                self.pending_messages.push((msg_hash, msg));
                proof {
                    let s = entry_views(self.pending_messages@);
                    assert(s =~= old_s.push((msg_hash@, mv)));
                    assert(entries_wf(s));
                    assert forall|k: Seq<u8>| #[trigger] entries_map(s).contains_key(k) <==> old(
                        self,
                    ).view().insert(msg_hash@, mv).contains_key(k) by {
                        if entries_map(s).contains_key(k) {
                            let j = choose|j: int| 0 <= j < s.len() && s[j].0 == k;
                            if j < old_s.len() {
                                assert(old_s[j].0 == k);
                            }
                        }
                        if old(self).view().contains_key(k) {
                            let j = choose|j: int| 0 <= j < old_s.len() && old_s[j].0 == k;
                            assert(s[j].0 == k);
                        }
                        if k == msg_hash@ {
                            assert(s[old_s.len() as int].0 == k);
                        }
                    }
                    assert forall|k: Seq<u8>| #[trigger] entries_map(s).contains_key(k) implies entries_map(
                        s,
                    )[k] == old(self).view().insert(msg_hash@, mv)[k] by {
                        let j = choose|j: int| 0 <= j < s.len() && s[j].0 == k;
                        lemma_entry_in_map(s, j);
                        if j < old_s.len() {
                            lemma_entry_in_map(old_s, j);
                        }
                    }
                    assert(entries_map(s) =~= old(self).view().insert(msg_hash@, mv));
                }
            },
        }
    }

    /// The map after entry `i` is replaced by one with the same hash.
    proof fn lemma_map_after_update(
        &self,
        old_s: Seq<(Seq<u8>, MessageView)>,
        s: Seq<(Seq<u8>, MessageView)>,
        i: int,
        k: Seq<u8>,
        m: MessageView,
    )
        requires
            entries_wf(old_s),
            entries_wf(s),
            0 <= i < old_s.len(),
            old_s[i].0 == k,
            s == old_s.update(i, (k, m)),
        ensures
            entries_map(s) == entries_map(old_s).insert(k, m),
    {
        assert forall|q: Seq<u8>| #[trigger] entries_map(s).contains_key(q) <==> entries_map(
            old_s,
        ).insert(k, m).contains_key(q) by {
            if entries_map(s).contains_key(q) {
                let j = choose|j: int| 0 <= j < s.len() && s[j].0 == q;
                if j != i {
                    assert(old_s[j].0 == q);
                }
            }
            if entries_map(old_s).contains_key(q) {
                let j = choose|j: int| 0 <= j < old_s.len() && old_s[j].0 == q;
                if j != i {
                    assert(s[j].0 == q);
                } else {
                    assert(s[i].0 == q);
                }
            }
            if q == k {
                assert(s[i].0 == q);
            }
        }
        assert forall|q: Seq<u8>| #[trigger] entries_map(s).contains_key(q) implies entries_map(s)[q]
            == entries_map(old_s).insert(k, m)[q] by {
            let j = choose|j: int| 0 <= j < s.len() && s[j].0 == q;
            lemma_entry_in_map(s, j);
            if j != i {
                lemma_entry_in_map(old_s, j);
            }
        }
        assert(entries_map(s) =~= entries_map(old_s).insert(k, m));
    }

    /// Removes the message with hash `hash`, if pending.
    pub fn remove_hash(&mut self, hash: &HashType) -> (r: bool)
        requires
            old(self).wf(),
        ensures
            final(self).wf(),
            final(self).view() == old(self).view().remove(hash@),
            r == old(self).view().contains_key(hash@),
    {
        let ghost old_s = entry_views(self.pending_messages@);
        match find_entry(&self.pending_messages, hash) {
            Some(i) => {
                let _ = self.pending_messages.remove(i);
                proof {
                    lemma_entry_in_map(old_s, i as int);
                    let s = entry_views(self.pending_messages@);
                    assert(s =~= old_s.remove(i as int));
                    assert forall|a: int, b: int|
                        0 <= a < s.len() && 0 <= b < s.len() && a != b implies #[trigger] s[a].0
                        != #[trigger] s[b].0 by {
                        let a2 = if a < i { a } else { a + 1 };
                        let b2 = if b < i { b } else { b + 1 };
                        assert(s[a] == old_s[a2]);
                        assert(s[b] == old_s[b2]);
                    }
                    assert forall|a: int| 0 <= a < s.len() implies #[trigger] s[a].0 == message_hash(
                        s[a].1,
                    ) by {
                        let a2 = if a < i { a } else { a + 1 };
                        assert(s[a] == old_s[a2]);
                    }
                    assert(entries_wf(s));
                    assert forall|q: Seq<u8>| #[trigger] entries_map(s).contains_key(q) <==> old(
                        self,
                    ).view().remove(hash@).contains_key(q) by {
                        if entries_map(s).contains_key(q) {
                            let j = choose|j: int| 0 <= j < s.len() && s[j].0 == q;
                            let j2 = if j < i { j } else { j + 1 };
                            assert(old_s[j2].0 == q);
                            assert(j2 != i);
                        }
                        if old(self).view().contains_key(q) && q != hash@ {
                            let j = choose|j: int| 0 <= j < old_s.len() && old_s[j].0 == q;
                            assert(j != i);
                            let j2 = if j < i { j } else { j - 1 };
                            assert(s[j2].0 == q);
                        }
                    }
                    assert forall|q: Seq<u8>| #[trigger] entries_map(s).contains_key(q) implies entries_map(
                        s,
                    )[q] == old(self).view().remove(hash@)[q] by {
                        let j = choose|j: int| 0 <= j < s.len() && s[j].0 == q;
                        let j2 = if j < i { j } else { j + 1 };
                        lemma_entry_in_map(s, j);
                        lemma_entry_in_map(old_s, j2);
                    }
                    assert(entries_map(s) =~= old(self).view().remove(hash@));
                }
                true
            },
            None => {
                proof {
                    assert(old(self).view().remove(hash@) =~= old(self).view());
                }
                false
            },
        }
    }

    /// Removes every message of `messages` that is pending.
    pub fn remove_messages(&mut self, messages: &[EphemeraMessage])
        requires
            old(self).wf(),
        ensures
            final(self).wf(),
            final(self).view() == old(self).view().remove_keys(
                messages_view(messages@).map_values(|m: MessageView| message_hash(m)).to_set(),
            ),
    {
        let ghost hashes = messages_view(messages@).map_values(|m: MessageView| message_hash(m));
        let mut i: usize = 0;
        while i < messages.len()
            invariant
                i <= messages@.len(),
                hashes == messages_view(messages@).map_values(|m: MessageView| message_hash(m)),
                self.wf(),
                self.view() == old(self).view().remove_keys(hashes.take(i as int).to_set()),
            decreases messages@.len() - i,
        {
            let hash = messages[i].hash_with_default_hasher();
            let _ = self.remove_hash(&hash);
            proof {
                assert(hashes[i as int] == hash@);
                let t0 = hashes.take(i as int);
                let t1 = hashes.take(i + 1);
                assert(t1 =~= t0.push(hash@));
                assert(t1.to_set() =~= t0.to_set().insert(hash@)) by {
                    assert forall|x: Seq<u8>| t1.contains(x) <==> (t0.contains(x) || x == hash@) by {
                        if t1.contains(x) {
                            let j = choose|j: int| 0 <= j < t1.len() && #[trigger] t1[j] == x;
                            if j < t0.len() {
                                assert(t0[j] == x);
                            }
                        }
                        if t0.contains(x) {
                            let j = choose|j: int| 0 <= j < t0.len() && #[trigger] t0[j] == x;
                            assert(t1[j] == x);
                        }
                        if x == hash@ {
                            assert(t1[t0.len() as int] == x);
                        }
                    }
                }
                assert(self.view() =~= old(self).view().remove_keys(hashes.take(i + 1).to_set()));
            }
            i = i + 1;
        }
        assert(hashes.take(messages@.len() as int) =~= hashes);
    }

    /// A copy of every pending message (the pool is not changed).
    pub fn get_messages(&self) -> (r: Vec<EphemeraMessage>)
        requires
            self.wf(),
        ensures
            r@.len() == self.view().len(),
            forall|i: int| #![trigger r@[i]] 0 <= i < r@.len() ==> {
                let m = r@[i]@;
                self.view().contains_key(message_hash(m)) && self.view()[message_hash(m)] == m
            },
            forall|k: Seq<u8>| #[trigger] self.view().contains_key(k) ==> exists|i: int|
                0 <= i < r@.len() && message_hash(r@[i]@) == k,
            forall|i: int, j: int|
                0 <= i < j < r@.len() ==> message_hash(#[trigger] r@[i]@) != message_hash(
                    #[trigger] r@[j]@,
                ),
    {
        let ghost s = entry_views(self.pending_messages@);
        let mut out: Vec<EphemeraMessage> = Vec::new();
        let mut i: usize = 0;
        while i < self.pending_messages.len()
            invariant
                s == entry_views(self.pending_messages@),
                entries_wf(s),
                i <= s.len(),
                out@.len() == i,
                forall|j: int| 0 <= j < i ==> #[trigger] out@[j]@ == s[j].1,
            decreases s.len() - i,
        {
            out.push(self.pending_messages[i].1.clone());
            i = i + 1;
        }
        proof {
            assert forall|j: int| #![trigger out@[j]] 0 <= j < out@.len() implies {
                let m = out@[j]@;
                self.view().contains_key(message_hash(m)) && self.view()[message_hash(m)] == m
            } by {
                lemma_entry_in_map(s, j);
            }
            assert forall|k: Seq<u8>| #[trigger] self.view().contains_key(k) implies exists|j: int|
                0 <= j < out@.len() && message_hash(out@[j]@) == k by {
                let j = choose|j: int| 0 <= j < s.len() && s[j].0 == k;
                assert(message_hash(out@[j]@) == k);
            }
            assert forall|a: int, b: int| 0 <= a < b < out@.len() implies message_hash(
                #[trigger] out@[a]@,
            ) != message_hash(#[trigger] out@[b]@) by {
                assert(s[a].0 != s[b].0);
            }
            lemma_entries_map_len(s);
        }
        out
    }
}

/// A well formed list has as many entries as its map.
proof fn lemma_entries_map_len(s: Seq<(Seq<u8>, MessageView)>)
    requires
        entries_wf(s),
    ensures
        entries_map(s).dom().finite(),
        entries_map(s).len() == s.len(),
    decreases s.len(),
{
    if s.len() == 0 {
        assert(entries_map(s).dom() =~= Set::<Seq<u8>>::empty());
    } else {
        let t = s.drop_last();
        assert(entries_wf(t)) by {
            assert forall|i: int, j: int|
                0 <= i < t.len() && 0 <= j < t.len() && i != j implies #[trigger] t[i].0
                != #[trigger] t[j].0 by {
                assert(t[i] == s[i] && t[j] == s[j]);
            }
            assert forall|i: int| 0 <= i < t.len() implies #[trigger] t[i].0 == message_hash(t[i].1) by {
                assert(t[i] == s[i]);
            }
        }
        lemma_entries_map_len(t);
        let k = s.last().0;
        assert(!entries_map(t).dom().contains(k)) by {
            if entries_map(t).dom().contains(k) {
                let j = choose|j: int| 0 <= j < t.len() && t[j].0 == k;
                assert(s[j].0 == s[s.len() - 1].0);
            }
        }
        assert(entries_map(s).dom() =~= entries_map(t).dom().insert(k)) by {
            assert forall|q: Seq<u8>| #[trigger] entries_map(s).dom().contains(q) <==> entries_map(
                t,
            ).dom().insert(k).contains(q) by {
                if entries_map(s).dom().contains(q) {
                    let j = choose|j: int| 0 <= j < s.len() && s[j].0 == q;
                    if j < t.len() {
                        assert(t[j].0 == q);
                    }
                }
                if entries_map(t).dom().contains(q) {
                    let j = choose|j: int| 0 <= j < t.len() && t[j].0 == q;
                    assert(s[j].0 == q);
                }
                if q == k {
                    assert(s[s.len() - 1].0 == q);
                }
            }
        }
    }
}

} // verus!
