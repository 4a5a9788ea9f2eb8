//! Declared parameter types: the closed set that the codec converts, and the
//! reading of a type's name.

use vstd::prelude::*;
use crate::text::{chars_eq, chars_occur_at, is_digit, is_digit_char, occurs_at, to_chars};

verus! {

/// A declared type that the codec converts.
#[derive(Debug)]
pub enum SolType {
    /// `address`
    Address,
    /// `uintN`, with its number of bits
    Uint(usize),
    /// `intN`, with its number of bits
    Int(usize),
    /// `bool`
    Bool,
    /// `string`
    Text,
    /// `bytes`
    Bytes,
    /// `bytesN`, with its number of bytes
    FixedBytes(usize),
    /// `T[]`
    Array(Box<SolType>),
}

/// The number that one to three digits without a leading zero denote.
pub open spec fn size_of(s: Seq<char>) -> Option<nat> {
    if s.len() == 1 && is_digit(s[0]) && s[0] != '0' {
        Some(digit(s[0]))
    } else if s.len() == 2 && is_digit(s[0]) && is_digit(s[1]) && s[0] != '0' {
        Some(10 * digit(s[0]) + digit(s[1]))
    } else if s.len() == 3 && is_digit(s[0]) && is_digit(s[1]) && is_digit(s[2]) && s[0] != '0' {
        Some(100 * digit(s[0]) + 10 * digit(s[1]) + digit(s[2]))
    } else {
        None
    }
}

/// The value of the decimal digit `c`.
pub open spec fn digit(c: char) -> nat {
    (c as u32 - '0' as u32) as nat
}

/// `n` is a number of bits that an integer type can have: a multiple of 8 up to 256.
pub open spec fn is_int_size(n: nat) -> bool {
    8 <= n <= 256 && n % 8 == 0
}

/// `n` is a number of bytes that a fixed byte type can have: 1 to 32.
pub open spec fn is_bytes_size(n: nat) -> bool {
    1 <= n <= 32
}

/// `s` ends in `[]`.
pub open spec fn is_array_name(s: Seq<char>) -> bool {
    s.len() >= 2 && s[s.len() - 2] == '[' && s[s.len() - 1] == ']'
}

/// The type that an element name denotes (a name that does not end in `[]`).
pub open spec fn element_type(s: Seq<char>) -> Option<SolType> {
    if s == "address"@ {
        Some(SolType::Address)
    } else if s == "bool"@ {
        Some(SolType::Bool)
    } else if s == "string"@ {
        Some(SolType::Text)
    } else if s == "bytes"@ {
        Some(SolType::Bytes)
    } else if s == "uint"@ {
        Some(SolType::Uint(256))
    } else if s == "int"@ {
        Some(SolType::Int(256))
    } else if occurs_at(s, "uint"@, 0) {
        match size_of(s.skip(4)) {
            Some(n) => if is_int_size(n) {
                Some(SolType::Uint(n as usize))
            } else {
                None
            },
            None => None,
        }
    } else if occurs_at(s, "int"@, 0) {
        match size_of(s.skip(3)) {
            Some(n) => if is_int_size(n) {
                Some(SolType::Int(n as usize))
            } else {
                None
            },
            None => None,
        }
    } else if occurs_at(s, "bytes"@, 0) {
        match size_of(s.skip(5)) {
            Some(n) => if is_bytes_size(n) {
                Some(SolType::FixedBytes(n as usize))
            } else {
                None
            },
            None => None,
        }
    } else {
        None
    }
}

/// The type that the name `s` denotes, or `None` where the codec does not
/// convert it: an element type, followed by `[]` once for each level of array.
pub open spec fn type_of_name(s: Seq<char>) -> Option<SolType>
    decreases s.len(),
{
    if is_array_name(s) {
        match type_of_name(s.subrange(0, s.len() - 2)) {
            Some(t) => Some(SolType::Array(Box::new(t))),
            None => None,
        }
    } else {
        element_type(s)
    }
}

/// Reads one to three digits without a leading zero.
fn read_size(chars: &Vec<char>, from: usize, to: usize) -> (r: Option<usize>)
    requires
        from <= to <= chars.len(),
    ensures
        r is Some <==> size_of(chars@.subrange(from as int, to as int)) is Some,
        r is Some ==> r->0 == size_of(chars@.subrange(from as int, to as int))->0,
{
    let n: usize = to - from;
    let ghost s = chars@.subrange(from as int, to as int);
    if n == 0 || n > 3 {
        return None;
    }
    let mut value: usize = 0;
    let mut i: usize = 0;
    while i < n
        invariant
            i <= n <= 3,
            n == to - from,
            to <= chars.len(),
            s == chars@.subrange(from as int, to as int),
            forall|k: int| 0 <= k < i ==> is_digit(#[trigger] s[k]),
            i > 0 ==> s[0] != '0',
            i == 0 ==> value == 0,
            i == 1 ==> value == digit(s[0]),
            i == 2 ==> value == 10 * digit(s[0]) + digit(s[1]),
            i == 3 ==> value == 100 * digit(s[0]) + 10 * digit(s[1]) + digit(s[2]),
        decreases n - i,
    {
        let c = chars[from + i];
        assert(c == s[i as int]);
        if !is_digit_char(c) || (i == 0 && c == '0') {
            return None;
        }
        let d: usize = (c as u32 - '0' as u32) as usize;
        value = value * 10 + d;
        i += 1;
    }
    Some(value)
}

/// Reads the element type that `chars[..end]` names.
fn read_element(chars: &Vec<char>, end: usize) -> (r: Option<SolType>)
    requires
        end <= chars.len(),
    ensures
        r == element_type(chars@.subrange(0, end as int)),
{
    let ghost s = chars@.subrange(0, end as int);
    let name = crate::text::from_chars(chars, 0, end);
    let head = to_chars(name.as_str());
    proof {
        reveal_strlit("uint");
        reveal_strlit("int");
        reveal_strlit("bytes");
        assert(head@ == s);
    }
    if chars_eq(&head, &to_chars("address")) {
        Some(SolType::Address)
    } else if chars_eq(&head, &to_chars("bool")) {
        Some(SolType::Bool)
    } else if chars_eq(&head, &to_chars("string")) {
        Some(SolType::Text)
    } else if chars_eq(&head, &to_chars("bytes")) {
        Some(SolType::Bytes)
    } else if chars_eq(&head, &to_chars("uint")) {
        Some(SolType::Uint(256))
    } else if chars_eq(&head, &to_chars("int")) {
        Some(SolType::Int(256))
    } else if chars_occur_at(&head, &to_chars("uint"), 0) {
        proof {
            assert(s.skip(4) == chars@.subrange(4, end as int));
        }
        match read_size(chars, 4, end) {
            Some(n) => if 8 <= n && n <= 256 && n % 8 == 0 {
                Some(SolType::Uint(n))
            } else {
                None
            },
            None => None,
        }
    } else if chars_occur_at(&head, &to_chars("int"), 0) {
        proof {
            assert(s.skip(3) == chars@.subrange(3, end as int));
        }
        match read_size(chars, 3, end) {
            Some(n) => if 8 <= n && n <= 256 && n % 8 == 0 {
                Some(SolType::Int(n))
            } else {
                None
            },
            None => None,
        }
    } else if chars_occur_at(&head, &to_chars("bytes"), 0) {
        proof {
            assert(s.skip(5) == chars@.subrange(5, end as int));
        }
        match read_size(chars, 5, end) {
            Some(n) => if 1 <= n && n <= 32 {
                Some(SolType::FixedBytes(n))
            } else {
                None
            },
            None => None,
        }
    } else {
        None
    }
}

/// Reads the type that `chars[..end]` names.
fn read_type(chars: &Vec<char>, end: usize) -> (r: Option<SolType>)
    requires
        end <= chars.len(),
    ensures
        r == type_of_name(chars@.subrange(0, end as int)),
    decreases end,
{
    let ghost s = chars@.subrange(0, end as int);
    if end >= 2 && chars[end - 2] == '[' && chars[end - 1] == ']' {
        proof {
            assert(s.subrange(0, s.len() - 2) == chars@.subrange(0, end - 2));
        }
        match read_type(chars, end - 2) {
            Some(t) => Some(SolType::Array(Box::new(t))),
            None => None,
        }
    } else {
        read_element(chars, end)
    }
}

impl SolType {
    /// The type that `name` denotes, or `None` where the codec does not
    /// convert it.
    pub fn parse(name: &str) -> (r: Option<SolType>)
        ensures
            r == type_of_name(name@),
    {
        let chars = to_chars(name);
        proof {
            assert(chars@.subrange(0, chars.len() as int) == chars@);
        }
        read_type(&chars, chars.len())
    }
}

} // verus!
