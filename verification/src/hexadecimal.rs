//! Bytes written as hexadecimal text, two digits to the byte.

use vstd::prelude::*;
use crate::text::{hex_digit, hex_value, is_hex_digit};

verus! {

/// The lower-case hexadecimal digits of `bytes`, high digit first.
pub open spec fn hex_text(bytes: Seq<u8>) -> Seq<char> {
    Seq::new(
        2 * bytes.len(),
        |i: int|
            if i % 2 == 0 {
                hex_digit((bytes[i / 2] / 16) as nat)
            } else {
                hex_digit((bytes[i / 2] % 16) as nat)
            },
    )
}

/// `s` is an even number of hexadecimal digits.
pub open spec fn is_hex_text(s: Seq<char>) -> bool {
    s.len() % 2 == 0 && forall|i: int| 0 <= i < s.len() ==> is_hex_digit(#[trigger] s[i])
}

/// The bytes that the digits of `s` stand for, two digits to the byte.
pub open spec fn hex_bytes(s: Seq<char>) -> Seq<u8> {
    Seq::new(
        (s.len() / 2) as nat,
        |i: int| (16 * hex_value(s[2 * i]) + hex_value(s[2 * i + 1])) as u8,
    )
}

/// `s` without one leading `0x`.
pub open spec fn without_prefix(s: Seq<char>) -> Seq<char> {
    if s.len() >= 2 && s[0] == '0' && s[1] == 'x' {
        s.skip(2)
    } else {
        s
    }
}

/// `s` without any run of leading `0x`.
pub open spec fn without_prefixes(s: Seq<char>) -> Seq<char>
    decreases s.len(),
{
    if s.len() >= 2 && s[0] == '0' && s[1] == 'x' {
        without_prefixes(s.skip(2))
    } else {
        s
    }
}

/// `hex::encode`: two lower-case digits for each byte, in order.
#[verifier::external_body]
fn encode_digits(bytes: &[u8]) -> (r: String)
    ensures
        r@ == hex_text(bytes@),
{
    hex::encode(bytes)
}

/// `hex::decode`: succeeds exactly on an even number of hexadecimal digits of
/// either case, and gives the byte for each pair.
#[verifier::external_body]
fn decode_digits(s: &str) -> (r: Option<Vec<u8>>)
    ensures
        r is Some <==> is_hex_text(s@),
        r is Some ==> r->0@ == hex_bytes(s@),
{
    hex::decode(s).ok()
}

/// The digits of `bytes` behind the prefix `0x`.
pub fn to_prefixed_hex(bytes: &[u8]) -> (r: String)
    ensures
        r@ == "0x"@ + hex_text(bytes@),
{
    let mut out = String::from_str("0x");
    let digits = encode_digits(bytes);
    out.append(digits.as_str());
    out
}

/// The bytes that `s` spells once every leading `0x` is taken off, if what is
/// left is an even number of hexadecimal digits.
pub fn from_prefixed_hex(s: &str) -> (r: Option<Vec<u8>>)
    ensures
        r is Some <==> is_hex_text(without_prefixes(s@)),
        r is Some ==> r->0@ == hex_bytes(without_prefixes(s@)),
{
    let chars = crate::text::to_chars(s);
    let mut start: usize = 0;
    proof {
        assert(chars@.subrange(0, chars.len() as int) == chars@);
    }
    while chars.len() - start >= 2 && chars[start] == '0' && chars[start + 1] == 'x'
        invariant
            start <= chars.len(),
            without_prefixes(chars@) == without_prefixes(
                chars@.subrange(start as int, chars.len() as int),
            ),
        decreases chars.len() - start,
    {
        proof {
            let rest = chars@.subrange(start as int, chars.len() as int);
            assert(rest.skip(2) == chars@.subrange(start + 2, chars.len() as int));
        }
        start += 2;
    }
    let digits = crate::text::from_chars(&chars, start, chars.len());
    decode_digits(digits.as_str())
}

} // verus!
