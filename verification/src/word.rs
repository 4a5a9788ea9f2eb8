//! Unsigned 256-bit integers: the value as four 64-bit limbs, the numbers that
//! digit strings denote, and the conversions between the two.

use vstd::arithmetic::power2::{lemma2_to64, lemma_pow2_adds, lemma_pow2_strictly_increases, lemma_pow2_unfold, pow2};
use vstd::prelude::*;
use crate::text::{decimal, is_digit};

verus! {

/// 2 to the power 64.
pub open spec fn pow2_64() -> nat {
    0x1_0000_0000_0000_0000nat
}

/// 2 to the power 256.
pub open spec fn pow2_256() -> nat {
    0x1_0000_0000_0000_0000_0000_0000_0000_0000_0000_0000_0000_0000_0000_0000_0000_0000nat
}

/// The literal of [`pow2_64`] is 2 to the power 64, and that of [`pow2_256`]
/// is 2 to the power 256.
pub proof fn powers_are_powers()
    ensures
        pow2(64) == pow2_64(),
        pow2(128) == pow2_64() * pow2_64(),
        pow2(192) == pow2_64() * pow2_64() * pow2_64(),
        pow2(256) == pow2_256(),
        pow2(255) * 2 == pow2_256(),
{
    lemma2_to64();
    lemma_pow2_adds(64, 64);
    lemma_pow2_adds(128, 64);
    lemma_pow2_adds(192, 64);
    lemma_pow2_adds(255, 1);
}

/// How a number of four limbs compares with a power of two: limb by limb,
/// from the most significant one.
proof fn compare_limbs(l0: nat, l1: nat, l2: nat, l3: nat, p: nat)
    requires
        l0 < 0x1_0000_0000_0000_0000,
        l1 < 0x1_0000_0000_0000_0000,
        l2 < 0x1_0000_0000_0000_0000,
        l3 < 0x1_0000_0000_0000_0000,
        1 <= p < 0x1_0000_0000_0000_0000,
    ensures
        ({
            let b: nat = 0x1_0000_0000_0000_0000;
            let v = l0 + l1 * b + l2 * b * b + l3 * b * b * b;
            &&& (v < p) == (l3 == 0 && l2 == 0 && l1 == 0 && l0 < p)
            &&& (v < b * p) == (l3 == 0 && l2 == 0 && l1 < p)
            &&& (v < b * b * p) == (l3 == 0 && l2 < p)
            &&& (v < b * b * b * p) == (l3 < p)
            &&& (v == p) == (l3 == 0 && l2 == 0 && l1 == 0 && l0 == p)
            &&& (v == b * p) == (l3 == 0 && l2 == 0 && l1 == p && l0 == 0)
            &&& (v == b * b * p) == (l3 == 0 && l2 == p && l1 == 0 && l0 == 0)
            &&& (v == b * b * b * p) == (l3 == p && l2 == 0 && l1 == 0 && l0 == 0)
        }),
{
    let b: nat = 0x1_0000_0000_0000_0000;
    let bb: nat = 0x1_0000_0000_0000_0000_0000_0000_0000_0000nat;
    let bbb: nat = 0x1_0000_0000_0000_0000_0000_0000_0000_0000_0000_0000_0000_0000nat;
    assert(b * b == bb);
    assert(b * b * b == bbb);
    assert(l2 * b * b == l2 * bb) by (nonlinear_arith)
        requires
            b * b == bb,
    ;
    assert(l3 * b * b * b == l3 * bbb) by (nonlinear_arith)
        requires
            b * b * b == bbb,
    ;
    assert(b * b * p == bb * p);
    assert(b * b * b * p == bbb * p);
}

/// 2 to the power `r`, for a power that fits 64 bits.
fn power_of_two(r: usize) -> (p: u64)
    requires
        r < 64,
    ensures
        p == pow2(r as nat),
        1 <= p <= 0x8000_0000_0000_0000,
{
    let mut p: u64 = 1;
    let mut i: usize = 0;
    proof {
        lemma2_to64();
    }
    while i < r
        invariant
            i <= r < 64,
            p == pow2(i as nat),
            1 <= p,
        decreases r - i,
    {
        proof {
            lemma_pow2_unfold((i + 1) as nat);
            if i + 1 < 63 {
                lemma_pow2_strictly_increases((i + 1) as nat, 63);
            }
            lemma_pow2_adds(32, 31);
            lemma2_to64();
        }
        p = p * 2;
        i += 1;
    }
    proof {
        if r < 63 {
            lemma_pow2_strictly_increases(r as nat, 63);
        }
        lemma_pow2_adds(32, 31);
        lemma2_to64();
    }
    p
}

/// An unsigned integer below 2^256, least significant limb first.
#[derive(Clone, Copy, Debug)]
pub struct U256 {
    pub limbs: [u64; 4],
}

impl U256 {
    /// The number that the limbs stand for.
    pub open spec fn value(&self) -> nat {
        (self.limbs[0] as nat) + (self.limbs[1] as nat) * pow2_64() + (self.limbs[2] as nat)
            * pow2_64() * pow2_64() + (self.limbs[3] as nat) * pow2_64() * pow2_64() * pow2_64()
    }

    /// Every value is below 2^256.
    pub proof fn value_is_bounded(&self)
        ensures
            self.value() < pow2_256(),
    {
    }

    /// The integer `n`.
    pub fn from_u64(n: u64) -> (r: Self)
        ensures
            r.value() == n,
    {
        U256 { limbs: [n, 0, 0, 0] }
    }

    /// Whether the value is zero.
    pub fn is_zero(&self) -> (r: bool)
        ensures
            r == (self.value() == 0),
    {
        self.limbs[0] == 0 && self.limbs[1] == 0 && self.limbs[2] == 0 && self.limbs[3] == 0
    }

    /// Whether the value is at most 2^255, the largest size of a negative 256-bit integer.
    pub fn fits_negative(&self) -> (r: bool)
        ensures
            r == (2 * self.value() <= pow2_256()),
    {
        let top: u64 = self.limbs[3];
        top < 0x8000_0000_0000_0000 || (top == 0x8000_0000_0000_0000 && self.limbs[0] == 0
            && self.limbs[1] == 0 && self.limbs[2] == 0)
    }

    /// Whether the value is below 2^255, so that it is a positive 256-bit signed integer.
    pub fn fits_positive(&self) -> (r: bool)
        ensures
            r == (2 * self.value() < pow2_256()),
    {
        self.limbs[3] < 0x8000_0000_0000_0000
    }

    /// Whether the value is below 2 to the power `bits`.
    pub fn below_pow2(&self, bits: usize) -> (r: bool)
        ensures
            r == (self.value() < pow2(bits as nat)),
    {
        proof {
            powers_are_powers();
            self.value_is_bounded();
        }
        if bits >= 256 {
            proof {
                if bits > 256 {
                    lemma_pow2_strictly_increases(256, bits as nat);
                }
            }
            return true;
        }
        let q: usize = bits / 64;
        let p: u64 = power_of_two(bits % 64);
        proof {
            let r = (bits % 64) as nat;
            assert(bits == 64 * q + r);
            lemma2_to64();
            if q == 0 {
                assert(pow2(bits as nat) == p);
            } else if q == 1 {
                lemma_pow2_adds(64, r);
                assert(pow2(bits as nat) == pow2_64() * p);
            } else if q == 2 {
                lemma_pow2_adds(128, r);
                assert(pow2(bits as nat) == pow2_64() * pow2_64() * p);
            } else {
                assert(q == 3);
                lemma_pow2_adds(192, r);
                assert(pow2(bits as nat) == pow2_64() * pow2_64() * pow2_64() * p);
            }
            compare_limbs(
                self.limbs[0] as nat,
                self.limbs[1] as nat,
                self.limbs[2] as nat,
                self.limbs[3] as nat,
                p as nat,
            );
        }
        if q == 0 {
            self.limbs[3] == 0 && self.limbs[2] == 0 && self.limbs[1] == 0 && self.limbs[0] < p
        } else if q == 1 {
            self.limbs[3] == 0 && self.limbs[2] == 0 && self.limbs[1] < p
        } else if q == 2 {
            self.limbs[3] == 0 && self.limbs[2] < p
        } else {
            self.limbs[3] < p
        }
    }

    /// Whether the value is 2 to the power `bits`.
    pub fn is_pow2(&self, bits: usize) -> (r: bool)
        ensures
            r == (self.value() == pow2(bits as nat)),
    {
        proof {
            powers_are_powers();
            self.value_is_bounded();
        }
        if bits >= 256 {
            proof {
                if bits > 256 {
                    lemma_pow2_strictly_increases(256, bits as nat);
                }
            }
            return false;
        }
        let q: usize = bits / 64;
        let p: u64 = power_of_two(bits % 64);
        proof {
            let r = (bits % 64) as nat;
            assert(bits == 64 * q + r);
            lemma2_to64();
            if q == 0 {
                assert(pow2(bits as nat) == p);
            } else if q == 1 {
                lemma_pow2_adds(64, r);
                assert(pow2(bits as nat) == pow2_64() * p);
            } else if q == 2 {
                lemma_pow2_adds(128, r);
                assert(pow2(bits as nat) == pow2_64() * pow2_64() * p);
            } else {
                assert(q == 3);
                lemma_pow2_adds(192, r);
                assert(pow2(bits as nat) == pow2_64() * pow2_64() * pow2_64() * p);
            }
            compare_limbs(
                self.limbs[0] as nat,
                self.limbs[1] as nat,
                self.limbs[2] as nat,
                self.limbs[3] as nat,
                p as nat,
            );
        }
        if q == 0 {
            self.limbs[3] == 0 && self.limbs[2] == 0 && self.limbs[1] == 0 && self.limbs[0] == p
        } else if q == 1 {
            self.limbs[3] == 0 && self.limbs[2] == 0 && self.limbs[1] == p && self.limbs[0] == 0
        } else if q == 2 {
            self.limbs[3] == 0 && self.limbs[2] == p && self.limbs[1] == 0 && self.limbs[0] == 0
        } else {
            self.limbs[3] == p && self.limbs[2] == 0 && self.limbs[1] == 0 && self.limbs[0] == 0
        }
    }

    /// The value as a 128-bit number, where it fits.
    pub fn to_u128(&self) -> (r: Option<u128>)
        ensures
            r is Some <==> self.value() < pow2_64() * pow2_64(),
            r is Some ==> r->0 == self.value(),
    {
        if self.limbs[2] == 0 && self.limbs[3] == 0 {
            let low: u128 = self.limbs[0] as u128;
            let high: u128 = self.limbs[1] as u128;
            Some(high * 0x1_0000_0000_0000_0000u128 + low)
        } else {
            None
        }
    }

    /// The decimal digits of the value.
    pub fn to_decimal(&self) -> (r: String)
        ensures
            r@ == decimal(self.value()),
    {
        render_decimal(self)
    }
}

/// The value of `c` as a digit in a radix up to 36: `0`..`9`, then the letters
/// of either case from 10 on.
pub open spec fn digit_value(c: char) -> Option<nat> {
    if is_digit(c) {
        Some((c as u32 - '0' as u32) as nat)
    } else if 'a' <= c <= 'z' {
        Some((c as u32 - 'a' as u32 + 10) as nat)
    } else if 'A' <= c <= 'Z' {
        Some((c as u32 - 'A' as u32 + 10) as nat)
    } else {
        None
    }
}

/// The number that `s` denotes in the given radix, most significant digit
/// first. Underscores are passed over; the empty string denotes 0. `None` where
/// a character is no digit of the radix.
pub open spec fn radix_number(s: Seq<char>, radix: nat) -> Option<nat>
    decreases s.len(),
{
    if s.len() == 0 {
        Some(0)
    } else {
        match radix_number(s.drop_last(), radix) {
            None => None,
            Some(v) => if s.last() == '_' {
                Some(v)
            } else {
                match digit_value(s.last()) {
                    Some(d) => if d < radix {
                        Some(v * radix + d)
                    } else {
                        None
                    },
                    None => None,
                }
            },
        }
    }
}

/// The radix that the first two characters of `s` announce: 16 for `0x`, 8 for
/// `0o`, 2 for `0b`, in either case; 10 where there is no such prefix.
pub open spec fn announced_radix(s: Seq<char>) -> nat {
    if s.len() >= 2 && s[0] == '0' {
        if s[1] == 'x' || s[1] == 'X' {
            16
        } else if s[1] == 'o' || s[1] == 'O' {
            8
        } else if s[1] == 'b' || s[1] == 'B' {
            2
        } else {
            10
        }
    } else {
        10
    }
}

/// The number that `s` denotes: in the radix that its prefix announces, or in
/// decimal.
pub open spec fn prefixed_number(s: Seq<char>) -> Option<nat> {
    if announced_radix(s) == 10 {
        radix_number(s, 10)
    } else {
        radix_number(s.skip(2), announced_radix(s))
    }
}

/// Whether `s` begins with `0x` or `0X`.
pub open spec fn has_hex_prefix(s: Seq<char>) -> bool {
    s.len() >= 2 && s[0] == '0' && (s[1] == 'x' || s[1] == 'X')
}

/// The number below 2^256 that the text `s` gives: hexadecimal digits after
/// `0x` or `0X`, else as [`prefixed_number`] reads it.
pub open spec fn number_of_text(s: Seq<char>) -> Option<nat> {
    let n = if has_hex_prefix(s) {
        radix_number(s.skip(2), 16)
    } else {
        prefixed_number(s)
    };
    match n {
        Some(v) => if v < pow2_256() {
            Some(v)
        } else {
            None
        },
        None => None,
    }
}

/// `Uint::from_str_radix` of ruint, at 256 bits: succeeds exactly where every
/// character of `src` is an underscore or a digit of the radix and the number
/// is below 2^256, and then gives that number.
#[verifier::external_body]
fn parse_radix(src: &str, radix: u64) -> (r: Option<U256>)
    requires
        2 <= radix <= 36,
    ensures
        r is Some <==> (radix_number(src@, radix as nat) is Some && radix_number(
            src@,
            radix as nat,
        )->0 < pow2_256()),
        r is Some ==> r->0.value() == radix_number(src@, radix as nat)->0,
{
    alloy::primitives::U256::from_str_radix(src, radix).ok().map(|v| U256 { limbs: v.into_limbs() })
}

/// `Uint::from_str` of ruint, at 256 bits: reads a prefix `0x`, `0o` or `0b`
/// as the radix of what follows, anything else as decimal, and succeeds
/// exactly where that number exists and is below 2^256.
#[verifier::external_body]
fn parse_prefixed(src: &str) -> (r: Option<U256>)
    ensures
        r is Some <==> (prefixed_number(src@) is Some && prefixed_number(src@)->0 < pow2_256()),
        r is Some ==> r->0.value() == prefixed_number(src@)->0,
{
    src.parse::<alloy::primitives::U256>().ok().map(|v| U256 { limbs: v.into_limbs() })
}

/// `Display` of ruint's `Uint`: the decimal digits of the value, without
/// leading zeros.
#[verifier::external_body]
fn render_decimal(n: &U256) -> (r: String)
    ensures
        r@ == decimal(n.value()),
{
    alloy::primitives::U256::from_limbs(n.limbs).to_string()
}

/// Reads a number below 2^256 from text: hexadecimal after `0x` or `0X`,
/// decimal without a prefix.
pub fn parse_number(s: &str) -> (r: Option<U256>)
    ensures
        r is Some <==> number_of_text(s@) is Some,
        r is Some ==> r->0.value() == number_of_text(s@)->0,
{
    let chars = crate::text::to_chars(s);
    if chars.len() >= 2 && chars[0] == '0' && (chars[1] == 'x' || chars[1] == 'X') {
        let digits = crate::text::from_chars(&chars, 2, chars.len());
        proof {
            assert(s@.skip(2) == chars@.subrange(2, chars.len() as int));
        }
        parse_radix(digits.as_str(), 16)
    } else {
        parse_prefixed(s)
    }
}

} // verus!
