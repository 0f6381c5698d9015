//! The JSON byte encoding of the values that are signed and hashed.
//!
//! Signatures and hashes are taken over these bytes, so the encoding is fixed here
//! byte for byte: objects list their fields in declaration order without spaces,
//! integers are written in decimal, byte strings are arrays of decimal numbers and
//! text is a JSON string with the escapes `\"`, `\\`, `\b`, `\f`, `\n`, `\r`, `\t`
//! and `\u00xx` (lower case hex) for the other control bytes.

use vstd::prelude::*;
use vstd::string::StringSliceAdditionalSpecFns;

verus! {

/// ASCII code of a decimal digit.
pub open spec fn digit_byte(d: nat) -> u8 {
    (d + 48) as u8
}

/// Decimal text of a natural number.
pub open spec fn decimal(n: nat) -> Seq<u8>
    decreases n,
{
    if n < 10 {
        seq![digit_byte(n)]
    } else {
        decimal(n / 10).push(digit_byte(n % 10))
    }
}

/// Decimal text of a natural number, as characters.
pub open spec fn decimal_text(n: nat) -> Seq<char>
    decreases n,
{
    if n < 10 {
        seq![(n + 48) as char]
    } else {
        decimal_text(n / 10).push(((n % 10) + 48) as char)
    }
}

/// The text of one decimal digit.
fn digit_str(d: u64) -> (r: &'static str)
    requires
        d < 10,
    ensures
        r@ == seq![(d + 48) as char],
{
    proof {
        reveal_strlit("0");
        reveal_strlit("1");
        reveal_strlit("2");
        reveal_strlit("3");
        reveal_strlit("4");
        reveal_strlit("5");
        reveal_strlit("6");
        reveal_strlit("7");
        reveal_strlit("8");
        reveal_strlit("9");
    }
    match d {
        0 => "0",
        1 => "1",
        2 => "2",
        3 => "3",
        4 => "4",
        5 => "5",
        6 => "6",
        7 => "7",
        8 => "8",
        _ => "9",
    }
}

/// Appends the decimal text of `n` to `out`.
pub fn push_decimal_text(out: &mut String, n: u64)
    ensures
        final(out)@ == old(out)@ + decimal_text(n as nat),
    decreases n,
{
    if n >= 10 {
        push_decimal_text(out, n / 10);
    }
    out.append(digit_str(n % 10));
    proof {
        assert(old(out)@ + decimal_text(n as nat) =~= old(out)@ + (if n >= 10 {
            decimal_text((n / 10) as nat)
        } else {
            Seq::empty()
        }) + seq![((n % 10) + 48) as char]);
    }
}

/// The decimal text of a number, without sign or leading zeros (as `to_string` writes
/// it).
pub fn decimal_string(n: u64) -> (r: String)
    ensures
        r@ == decimal_text(n as nat),
{
    let mut out = String::new();
    push_decimal_text(&mut out, n);
    assert(Seq::<char>::empty() + decimal_text(n as nat) =~= decimal_text(n as nat));
    out
}

/// Lower case hex digit of a nibble.
pub open spec fn hex_digit(n: u8) -> u8 {
    if n < 10 {
        (n + 48) as u8
    } else {
        (n + 87) as u8
    }
}

/// The JSON escape of one byte inside a string.
pub open spec fn escape_byte(b: u8) -> Seq<u8> {
    if b == 0x22 {
        seq![0x5cu8, 0x22u8]
    } else if b == 0x5c {
        seq![0x5cu8, 0x5cu8]
    } else if b == 0x08 {
        seq![0x5cu8, 0x62u8]
    } else if b == 0x0c {
        seq![0x5cu8, 0x66u8]
    } else if b == 0x0a {
        seq![0x5cu8, 0x6eu8]
    } else if b == 0x0d {
        seq![0x5cu8, 0x72u8]
    } else if b == 0x09 {
        seq![0x5cu8, 0x74u8]
    } else if b < 0x20 {
        seq![0x5cu8, 0x75u8, 0x30u8, 0x30u8, hex_digit(b / 16), hex_digit(b % 16)]
    } else {
        seq![b]
    }
}

/// The JSON escape of a byte string.
pub open spec fn escaped(s: Seq<u8>) -> Seq<u8>
    decreases s.len(),
{
    if s.len() == 0 {
        Seq::empty()
    } else {
        escaped(s.drop_last()) + escape_byte(s.last())
    }
}

/// A JSON string holding the (UTF-8) bytes `s`.
pub open spec fn json_string(s: Seq<u8>) -> Seq<u8> {
    seq![0x22u8] + escaped(s) + seq![0x22u8]
}

/// The comma separated decimal numbers of a byte string.
pub open spec fn decimal_list(b: Seq<u8>) -> Seq<u8>
    decreases b.len(),
{
    if b.len() == 0 {
        Seq::empty()
    } else if b.len() == 1 {
        decimal(b[0] as nat)
    } else {
        decimal_list(b.drop_last()) + seq![0x2cu8] + decimal(b.last() as nat)
    }
}

/// A JSON array holding the bytes `b` as numbers.
pub open spec fn json_bytes(b: Seq<u8>) -> Seq<u8> {
    seq![0x5bu8] + decimal_list(b) + seq![0x5du8]
}

/// An object key followed by the colon: `"key":`.
pub open spec fn json_key(key: Seq<u8>) -> Seq<u8> {
    seq![0x22u8] + key + seq![0x22u8, 0x3au8]
}

/// Appends `s` to `out`.
pub fn push_bytes(out: &mut Vec<u8>, s: &[u8])
    ensures
        final(out)@ == old(out)@ + s@,
{
    let mut i: usize = 0;
    while i < s.len()
        invariant
            i <= s@.len(),
            out@ == old(out)@ + s@.take(i as int),
        decreases s@.len() - i,
    {
        assert(s@.take(i + 1) =~= s@.take(i as int).push(s@[i as int]));
        out.push(s[i]);
        i = i + 1;
    }
    assert(s@.take(s@.len() as int) =~= s@);
}

/// Appends the decimal text of `n`.
pub fn push_decimal(out: &mut Vec<u8>, n: u64)
    ensures
        final(out)@ == old(out)@ + decimal(n as nat),
    decreases n,
{
    if n < 10 {
        out.push((n as u8) + 48);
        assert(decimal(n as nat) =~= seq![digit_byte(n as nat)]);
    } else {
        push_decimal(out, n / 10);
        let d: u8 = (n % 10) as u8;
        out.push(d + 48);
        assert(decimal(n as nat) == decimal((n / 10) as nat).push(digit_byte((n % 10) as nat)));
    }
}

/// The lower case hex digit of a nibble.
fn hex_digit_exec(n: u8) -> (r: u8)
    requires
        n < 16,
    ensures
        r == hex_digit(n),
{
    if n < 10 {
        n + 48
    } else {
        n + 87
    }
}

/// Appends the JSON escape of one byte.
fn push_escaped_byte(out: &mut Vec<u8>, b: u8)
    ensures
        final(out)@ == old(out)@ + escape_byte(b),
{
    if b == 0x22 {
        out.push(0x5c);
        out.push(0x22);
    } else if b == 0x5c {
        out.push(0x5c);
        out.push(0x5c);
    } else if b == 0x08 {
        out.push(0x5c);
        out.push(0x62);
    } else if b == 0x0c {
        out.push(0x5c);
        out.push(0x66);
    } else if b == 0x0a {
        out.push(0x5c);
        out.push(0x6e);
    } else if b == 0x0d {
        out.push(0x5c);
        out.push(0x72);
    } else if b == 0x09 {
        out.push(0x5c);
        out.push(0x74);
    } else if b < 0x20 {
        out.push(0x5c);
        out.push(0x75);
        out.push(0x30);
        out.push(0x30);
        let hi = hex_digit_exec(b / 16);
        let lo = hex_digit_exec(b % 16);
        out.push(hi);
        out.push(lo);
    } else {
        out.push(b);
    }
    assert(final(out)@ =~= old(out)@ + escape_byte(b));
}

/// Appends `s` as a JSON string.
pub fn push_json_string(out: &mut Vec<u8>, s: &[u8])
    ensures
        final(out)@ == old(out)@ + json_string(s@),
{
    let ghost start = out@;
    out.push(0x22);
    let mut i: usize = 0;
    while i < s.len()
        invariant
            i <= s@.len(),
            out@ == start + seq![0x22u8] + escaped(s@.take(i as int)),
        decreases s@.len() - i,
    {
        assert(s@.take(i + 1).drop_last() =~= s@.take(i as int));
        push_escaped_byte(out, s[i]);
        assert(out@ =~= start + seq![0x22u8] + escaped(s@.take(i + 1)));
        i = i + 1;
    }
    assert(s@.take(s@.len() as int) =~= s@);
    out.push(0x22);
    assert(out@ =~= start + json_string(s@));
}

/// Appends `b` as a JSON array of numbers.
pub fn push_json_bytes(out: &mut Vec<u8>, b: &[u8])
    ensures
        final(out)@ == old(out)@ + json_bytes(b@),
{
    let ghost start = out@;
    out.push(0x5b);
    let mut i: usize = 0;
    while i < b.len()
        invariant
            i <= b@.len(),
            out@ == start + seq![0x5bu8] + decimal_list(b@.take(i as int)),
        decreases b@.len() - i,
    {
        let ghost before = out@;
        if i > 0 {
            out.push(0x2c);
        }
        push_decimal(out, b[i] as u64);
        proof {
            let t = b@.take(i + 1);
            assert(t.drop_last() =~= b@.take(i as int));
            assert(t.last() == b@[i as int]);
            if i == 0 {
                assert(t.len() == 1);
                assert(decimal_list(t) == decimal(t[0] as nat));
                assert(decimal_list(b@.take(0)) =~= Seq::<u8>::empty());
            }
        }
        assert(out@ =~= start + seq![0x5bu8] + decimal_list(b@.take(i + 1)));
        i = i + 1;
    }
    assert(b@.take(b@.len() as int) =~= b@);
    out.push(0x5d);
    assert(out@ =~= start + json_bytes(b@));
}

/// Appends `"key":`.
pub fn push_key(out: &mut Vec<u8>, key: &str)
    ensures
        final(out)@ == old(out)@ + json_key(key.spec_bytes()),
{
    let ghost start = out@;
    out.push(0x22);
    push_bytes(out, key.as_bytes());
    out.push(0x22);
    out.push(0x3a);
    assert(out@ =~= start + json_key(key.spec_bytes()));
}

} // verus!
