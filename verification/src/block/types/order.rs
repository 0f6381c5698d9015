//! The order of messages in a block: by time stamp, then label, data, signature and
//! public key, each byte string compared lexicographically (a proper prefix first).

use vstd::prelude::*;
use crate::block::types::block::messages_view;
use crate::block::types::message::{utf8, EphemeraMessage, MessageView};

verus! {

/// Lexicographic comparison of byte strings: -1, 0 or 1.
pub open spec fn bytes_order(a: Seq<u8>, b: Seq<u8>) -> int
    decreases a.len(),
{
    if a.len() == 0 {
        if b.len() == 0 {
            0
        } else {
            -1
        }
    } else if b.len() == 0 {
        1
    } else if a[0] < b[0] {
        -1
    } else if a[0] > b[0] {
        1
    } else {
        bytes_order(a.drop_first(), b.drop_first())
    }
}

/// Comparison of messages: -1, 0 or 1.
pub open spec fn message_order(a: MessageView, b: MessageView) -> int {
    if a.timestamp < b.timestamp {
        -1
    } else if a.timestamp > b.timestamp {
        1
    } else if bytes_order(utf8(a.label), utf8(b.label)) != 0 {
        bytes_order(utf8(a.label), utf8(b.label))
    } else if bytes_order(a.data, b.data) != 0 {
        bytes_order(a.data, b.data)
    } else if bytes_order(a.signature, b.signature) != 0 {
        bytes_order(a.signature, b.signature)
    } else {
        bytes_order(a.public_key, b.public_key)
    }
}

/// The messages are in ascending order.
pub open spec fn sorted(s: Seq<MessageView>) -> bool {
    forall|i: int, j: int| 0 <= i < j < s.len() ==> message_order(#[trigger] s[i], #[trigger] s[j]) <= 0
}

/// Swapping the arguments negates the comparison; equal strings compare equal.
pub proof fn lemma_bytes_order_antisym(a: Seq<u8>, b: Seq<u8>)
    ensures
        bytes_order(a, b) == -bytes_order(b, a),
        -1 <= bytes_order(a, b) <= 1,
        bytes_order(a, b) == 0 <==> a == b,
    decreases a.len(),
{
    if a.len() > 0 && b.len() > 0 && a[0] == b[0] {
        lemma_bytes_order_antisym(a.drop_first(), b.drop_first());
        if a.drop_first() == b.drop_first() {
            assert(a =~= seq![a[0]] + a.drop_first());
            assert(b =~= seq![b[0]] + b.drop_first());
        }
    }
    if a.len() == 0 && b.len() == 0 {
        assert(a =~= b);
    }
}

/// The comparison of byte strings is transitive.
pub proof fn lemma_bytes_order_trans(a: Seq<u8>, b: Seq<u8>, c: Seq<u8>)
    ensures
        bytes_order(a, b) <= 0 && bytes_order(b, c) <= 0 ==> bytes_order(a, c) <= 0,
        bytes_order(a, b) < 0 && bytes_order(b, c) <= 0 ==> bytes_order(a, c) < 0,
        bytes_order(a, b) <= 0 && bytes_order(b, c) < 0 ==> bytes_order(a, c) < 0,
    decreases a.len(),
{
    lemma_bytes_order_antisym(a, b);
    lemma_bytes_order_antisym(b, c);
    lemma_bytes_order_antisym(a, c);
    if a.len() > 0 && b.len() > 0 && c.len() > 0 {
        lemma_bytes_order_trans(a.drop_first(), b.drop_first(), c.drop_first());
    }
}

/// Swapping the arguments negates the comparison of messages; only equal messages compare
/// equal.
pub proof fn lemma_message_order_antisym(a: MessageView, b: MessageView)
    ensures
        message_order(a, b) == -message_order(b, a),
        message_order(a, b) == 0 ==> a == b,
{
    lemma_bytes_order_antisym(utf8(a.label), utf8(b.label));
    lemma_bytes_order_antisym(a.data, b.data);
    lemma_bytes_order_antisym(a.signature, b.signature);
    lemma_bytes_order_antisym(a.public_key, b.public_key);
    if message_order(a, b) == 0 {
        vstd::utf8::encode_utf8_decode_utf8(a.label);
        vstd::utf8::encode_utf8_decode_utf8(b.label);
    }
}

/// The comparison of messages is transitive.
pub proof fn lemma_message_order_trans(a: MessageView, b: MessageView, c: MessageView)
    ensures
        message_order(a, b) <= 0 && message_order(b, c) <= 0 ==> message_order(a, c) <= 0,
        message_order(a, b) < 0 && message_order(b, c) <= 0 ==> message_order(a, c) < 0,
{
    lemma_bytes_order_trans(utf8(a.label), utf8(b.label), utf8(c.label));
    lemma_bytes_order_trans(a.data, b.data, c.data);
    lemma_bytes_order_trans(a.signature, b.signature, c.signature);
    lemma_bytes_order_trans(a.public_key, b.public_key, c.public_key);
    lemma_bytes_order_antisym(utf8(a.label), utf8(b.label));
    lemma_bytes_order_antisym(utf8(b.label), utf8(c.label));
    lemma_bytes_order_antisym(utf8(a.label), utf8(c.label));
    lemma_bytes_order_antisym(a.data, b.data);
    lemma_bytes_order_antisym(b.data, c.data);
    lemma_bytes_order_antisym(a.data, c.data);
    lemma_bytes_order_antisym(a.signature, b.signature);
    lemma_bytes_order_antisym(b.signature, c.signature);
    lemma_bytes_order_antisym(a.signature, c.signature);
    lemma_bytes_order_antisym(a.public_key, b.public_key);
    lemma_bytes_order_antisym(b.public_key, c.public_key);
    lemma_bytes_order_antisym(a.public_key, c.public_key);
}

/// Compares two byte strings.
pub fn compare_bytes(a: &[u8], b: &[u8]) -> (r: i8)
    ensures
        r == bytes_order(a@, b@),
{
    let mut i: usize = 0;
    assert(a@.skip(0) =~= a@);
    assert(b@.skip(0) =~= b@);
    while i < a.len() && i < b.len()
        invariant
            i <= a@.len(),
            i <= b@.len(),
            bytes_order(a@, b@) == bytes_order(a@.skip(i as int), b@.skip(i as int)),
        decreases a@.len() - i,
    {
        let x = a[i];
        let y = b[i];
        assert(a@.skip(i as int)[0] == x && b@.skip(i as int)[0] == y);
        if x < y {
            return -1;
        }
        if x > y {
            return 1;
        }
        assert(a@.skip(i as int).drop_first() =~= a@.skip(i + 1));
        assert(b@.skip(i as int).drop_first() =~= b@.skip(i + 1));
        i = i + 1;
    }
    if i < a.len() {
        1
    } else if i < b.len() {
        -1
    } else {
        0
    }
}

/// Compares two messages.
pub fn compare_messages(a: &EphemeraMessage, b: &EphemeraMessage) -> (r: i8)
    ensures
        r == message_order(a@, b@),
{
    if a.timestamp < b.timestamp {
        return -1;
    }
    if a.timestamp > b.timestamp {
        return 1;
    }
    let c = compare_bytes(a.label.as_str().as_bytes(), b.label.as_str().as_bytes());
    if c != 0 {
        return c;
    }
    let c = compare_bytes(a.data.as_slice(), b.data.as_slice());
    if c != 0 {
        return c;
    }
    let c = compare_bytes(
        a.certificate.signature.0.as_slice(),
        b.certificate.signature.0.as_slice(),
    );
    if c != 0 {
        return c;
    }
    compare_bytes(a.certificate.public_key.0.as_slice(), b.certificate.public_key.0.as_slice())
}

/// Sorts messages in ascending order (insertion sort; equal messages are identical).
pub fn sort_messages(v: Vec<EphemeraMessage>) -> (r: Vec<EphemeraMessage>)
    ensures
        sorted(messages_view(r@)),
        messages_view(r@).to_multiset() == messages_view(v@).to_multiset(),
        r@.len() == v@.len(),
{
    broadcast use vstd::seq_lib::group_to_multiset_ensures, vstd::multiset::group_multiset_axioms;

    let mut rest = v;
    let mut out: Vec<EphemeraMessage> = Vec::new();
    proof {
        assert(messages_view(out@) =~= Seq::<MessageView>::empty());
        assert(messages_view(out@).to_multiset() =~= vstd::multiset::Multiset::<MessageView>::empty());
    }
    while rest.len() > 0
        invariant
            sorted(messages_view(out@)),
            messages_view(rest@).to_multiset().add(messages_view(out@).to_multiset())
                == messages_view(v@).to_multiset(),
            rest@.len() + out@.len() == v@.len(),
        decreases rest@.len(),
    {
        let ghost rest0 = messages_view(rest@);
        let ghost out0 = messages_view(out@);
        let m = rest.pop().unwrap();
        let ghost mv = m@;
        proof {
            assert(messages_view(rest@) =~= rest0.drop_last());
            assert(rest0.last() == mv);
            vstd::seq_lib::to_multiset_remove(rest0, rest0.len() - 1);
            assert(rest0.remove(rest0.len() - 1) =~= rest0.drop_last());
        }
        let mut p: usize = 0;
        while p < out.len()
            invariant
                p <= out@.len(),
                out0 == messages_view(out@),
                sorted(out0),
                mv == m@,
                forall|k: int| 0 <= k < p ==> message_order(#[trigger] out0[k], mv) <= 0,
            ensures
                p <= out0.len(),
                forall|k: int| 0 <= k < p ==> message_order(#[trigger] out0[k], mv) <= 0,
                p < out0.len() ==> message_order(mv, out0[p as int]) < 0,
            decreases out@.len() - p,
        {
            if compare_messages(&m, &out[p]) < 0 {
                break;
            }
            proof {
                lemma_message_order_antisym(mv, out0[p as int]);
            }
            p = p + 1;
        }
        out.insert(p, m);
        proof {
            let out1 = messages_view(out@);
            assert(out1 =~= out0.insert(p as int, mv));
            vstd::seq_lib::to_multiset_insert(out0, p as int, mv);
            let r1 = messages_view(rest@);
            assert(rest0.to_multiset() =~= r1.to_multiset().insert(mv)) by {
                assert(rest0 =~= r1.push(mv));
                vstd::seq_lib::to_multiset_build(r1, mv);
            }
            assert(r1.to_multiset().add(out1.to_multiset()) =~= rest0.to_multiset().add(
                out0.to_multiset(),
            ));
            assert forall|i: int, j: int| 0 <= i < j < out1.len() implies message_order(
                #[trigger] out1[i],
                #[trigger] out1[j],
            ) <= 0 by {
                if j < p {
                    assert(out1[i] == out0[i] && out1[j] == out0[j]);
                } else if j == p {
                    assert(out1[i] == out0[i]);
                } else if i == p {
                    assert(out1[j] == out0[j - 1]);
                    lemma_message_order_trans(mv, out0[p as int], out0[j - 1]);
                    if j - 1 > p {
                        assert(message_order(out0[p as int], out0[j - 1]) <= 0);
                    } else {
                        lemma_message_order_antisym(out0[p as int], out0[p as int]);
                    }
                } else if i < p {
                    assert(out1[i] == out0[i] && out1[j] == out0[j - 1]);
                } else {
                    assert(out1[i] == out0[i - 1] && out1[j] == out0[j - 1]);
                }
            }
        }
    }
    out
}

} // verus!
