//! `0x`-prefixed hex text of byte strings (`array-bytes`), used for the keys and
//! values of the DHT requests of the API.

use vstd::prelude::*;

verus! {

/// The lower case hex digit of a nibble.
pub open spec fn hex_char(n: int) -> char {
    if n < 10 {
        (n + 48) as char
    } else {
        (n + 87) as char
    }
}

/// Lower case hex text of a byte string, two digits per byte, high nibble first.
pub open spec fn hex_text(b: Seq<u8>) -> Seq<char>
    decreases b.len(),
{
    if b.len() == 0 {
        Seq::empty()
    } else {
        hex_text(b.drop_last()) + seq![hex_char(b.last() as int / 16), hex_char(b.last() as int % 16)]
    }
}

/// `0x` followed by the hex text.
pub open spec fn prefixed_hex_text(b: Seq<u8>) -> Seq<char> {
    seq!['0', 'x'] + hex_text(b)
}

/// The value of a hex digit, upper or lower case.
pub open spec fn hex_value(c: char) -> Option<int> {
    if '0' <= c && c <= '9' {
        Some(c as int - 48)
    } else if 'a' <= c && c <= 'f' {
        Some(c as int - 87)
    } else if 'A' <= c && c <= 'F' {
        Some(c as int - 55)
    } else {
        None
    }
}

/// The bytes of hex text without a prefix: an even number of hex digits, two per byte.
pub open spec fn hex_digits_decode(t: Seq<char>) -> Option<Seq<u8>>
    decreases t.len(),
{
    if t.len() == 0 {
        Some(Seq::empty())
    } else if t.len() == 1 {
        None
    } else {
        match (hex_digits_decode(t.subrange(0, t.len() - 2)), hex_value(t[t.len() - 2]), hex_value(
            t[t.len() - 1],
        )) {
            (Some(front), Some(hi), Some(lo)) => Some(front.push((hi * 16 + lo) as u8)),
            _ => None,
        }
    }
}

/// The bytes of hex text, with or without a leading `0x`.
pub open spec fn hex_decode(t: Seq<char>) -> Option<Seq<u8>> {
    if t.len() >= 2 && t[0] == '0' && t[1] == 'x' {
        hex_digits_decode(t.subrange(2, t.len() as int))
    } else {
        hex_digits_decode(t)
    }
}

/// Decoding the hex text of a byte string gives the byte string back.
pub proof fn lemma_hex_round_trip(b: Seq<u8>)
    ensures
        hex_digits_decode(hex_text(b)) == Some(b),
        hex_decode(prefixed_hex_text(b)) == Some(b),
        hex_text(b).len() == 2 * b.len(),
    decreases b.len(),
{
    if b.len() > 0 {
        let front = b.drop_last();
        let last = b.last();
        lemma_hex_round_trip(front);
        let t = hex_text(b);
        assert(t.subrange(0, t.len() - 2) =~= hex_text(front));
        assert(b =~= front.push(last));
        let hi = last / 16;
        let lo = last % 16;
        assert(hex_value(hex_char(hi as int)) == Some(hi as int));
        assert(hex_value(hex_char(lo as int)) == Some(lo as int));
        assert((hi * 16 + lo) as u8 == last);
    }
    let p = prefixed_hex_text(b);
    assert(p.subrange(2, p.len() as int) =~= hex_text(b));
}

/// `Hexify::hexify_prefixed` of `array-bytes` on a byte slice: `0x` and two lower case
/// hex digits per byte.
#[verifier::external_body]
pub(crate) fn hexify_prefixed(bytes: &[u8]) -> (r: String)
    ensures
        r@ == prefixed_hex_text(bytes@),
{
    array_bytes::Hexify::hexify_prefixed(bytes)
}

/// `Dehexify::dehexify` of `array-bytes` into a `Vec<u8>`: drops a leading `0x`, and
/// succeeds exactly when the rest is an even number of hex digits (either case),
/// giving one byte per pair.  The error values of the crate are not distinguished.
#[verifier::external_body]
pub(crate) fn dehexify(text: &str) -> (r: Option<Vec<u8>>)
    ensures
        r is Some <==> hex_decode(text@) is Some,
        r matches Some(v) ==> hex_decode(text@) == Some(v@),
{
    match <Vec<u8> as array_bytes::Dehexify>::dehexify(text) {
        Ok(v) => Some(v),
        Err(_) => None,
    }
}

} // verus!
