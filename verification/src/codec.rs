//! The value codec: untyped values to typed ones by the declared type, typed
//! values back to untyped ones, and the parameters of a call to its call data.

use vstd::prelude::*;
use crate::address::{address_digits, address_parse_failure, is_address_text, Address};
use crate::calldata::{abi_decoding, abi_encoding, all_encodable, decode_outputs, encode_call};
use crate::error::{EngineError, ErrorKind, ErrorView};
use crate::hexadecimal::{
    from_prefixed_hex, hex_bytes, hex_text, is_hex_text, to_prefixed_hex, without_prefixes,
};
use crate::interface::{FunctionSignature, FunctionView, Parameter, ParameterView};
use crate::json::{
    array_view, field_of, json_views, shown, JsonNumber, JsonNumberView, JsonValue, JsonView,
};
use crate::soltype::{type_of_name, SolType};
use crate::solvalue::{
    encodable, sol_array_view, sol_tuple_view, sol_views, SolValue, SolValueView,
};
use crate::text::{concat, decimal, decimal_string, join, joined, to_chars, views};
use crate::word::{number_of_text, parse_number, pow2_256, U256};
use vstd::arithmetic::power2::pow2;

verus! {

/// The word of a fixed byte string of `n` bytes: the first `n` bytes of
/// `data`, then zeros up to 32 bytes.
pub open spec fn padded_word(data: Seq<u8>, n: nat) -> Seq<u8> {
    Seq::new(
        32,
        |i: int|
            if i < data.len() && i < n {
                data[i]
            } else {
                0u8
            },
    )
}

/// The size of `i`.
pub open spec fn magnitude(i: i64) -> nat {
    if i < 0 {
        (-i) as nat
    } else {
        i as nat
    }
}

/// The signed number that the text `s` gives: a number behind an optional
/// minus sign, within the range of a signed 256-bit integer. Zero is never
/// negative.
pub open spec fn signed_number_of_text(s: Seq<char>) -> Option<(bool, nat)> {
    if s.len() > 0 && s[0] == '-' {
        match number_of_text(s.skip(1)) {
            Some(m) => if 2 * m <= pow2_256() {
                Some((m != 0, m))
            } else {
                None
            },
            None => None,
        }
    } else {
        match number_of_text(s) {
            Some(m) => if 2 * m < pow2_256() {
                Some((false, m))
            } else {
                None
            },
            None => None,
        }
    }
}

/// The signed number of size `m` fits an integer of `bits` bits.
pub open spec fn fits_signed(negative: bool, m: nat, bits: nat) -> bool {
    bits > 0 && if negative {
        0 < m <= pow2((bits - 1) as nat)
    } else {
        m < pow2((bits - 1) as nat)
    }
}

/// What is said of a number that does not fit the type `name` of `bits` bits.
pub open spec fn range_message(name: Seq<char>, bits: nat) -> Seq<char> {
    "Value out of range for "@ + name + decimal(bits)
}

/// The unsigned integer `n` as a value of `bits` bits, where it fits.
pub open spec fn sized_unsigned(n: nat, bits: nat) -> Result<SolValueView, Seq<char>> {
    if n < pow2(bits) {
        Ok(SolValueView::Uint(n, bits))
    } else {
        Err(range_message("uint"@, bits))
    }
}

/// The signed integer of size `m` as a value of `bits` bits, where it fits.
pub open spec fn sized_signed(negative: bool, m: nat, bits: nat) -> Result<
    SolValueView,
    Seq<char>,
> {
    if fits_signed(negative, m, bits) {
        Ok(SolValueView::Int(negative, m, bits))
    } else {
        Err(range_message("int"@, bits))
    }
}

/// The typed value that the untyped value `v` gives when read as a value of
/// type `t`, or the reason why it gives none.
pub open spec fn converted(v: JsonView, t: SolType) -> Result<SolValueView, Seq<char>>
    decreases t, 0nat,
{
    match t {
        SolType::Address => match v {
            JsonView::Text(s) => if is_address_text(s) {
                Ok(SolValueView::Address(hex_bytes(address_digits(s))))
            } else {
                Err(address_parse_failure(s))
            },
            _ => Err("Address must be a string"@),
        },
        SolType::Uint(bits) => match v {
            JsonView::Number(JsonNumberView::Unsigned(n)) => sized_unsigned(
                n as nat,
                bits as nat,
            ),
            JsonView::Number(_) => Err("Invalid uint value"@),
            JsonView::Text(s) => match number_of_text(s) {
                Some(n) => sized_unsigned(n, bits as nat),
                None => Err("Invalid uint string: "@ + s),
            },
            _ => Err("Uint must be a number or string"@),
        },
        SolType::Int(bits) => match v {
            JsonView::Number(JsonNumberView::Unsigned(n)) => sized_signed(
                false,
                n as nat,
                bits as nat,
            ),
            JsonView::Number(JsonNumberView::Negative(i)) => sized_signed(
                i < 0,
                magnitude(i),
                bits as nat,
            ),
            JsonView::Number(_) => Err("Invalid int value"@),
            JsonView::Text(s) => match signed_number_of_text(s) {
                Some((negative, m)) => sized_signed(negative, m, bits as nat),
                None => Err("Invalid int string: "@ + s),
            },
            _ => Err("Int must be a number or string"@),
        },
        SolType::Bool => match v {
            JsonView::Bool(b) => Ok(SolValueView::Bool(b)),
            _ => Err("Bool parameter must be a boolean"@),
        },
        SolType::Text => match v {
            JsonView::Text(s) => Ok(SolValueView::Text(s)),
            _ => Err("String parameter must be a string"@),
        },
        SolType::Bytes => match v {
            JsonView::Text(s) => if is_hex_text(without_prefixes(s)) {
                Ok(SolValueView::Bytes(hex_bytes(without_prefixes(s))))
            } else {
                Err("Invalid hex string: "@ + s)
            },
            _ => Err("Bytes must be a hex string"@),
        },
        SolType::FixedBytes(n) => match v {
            JsonView::Text(s) => if is_hex_text(without_prefixes(s)) {
                Ok(
                    SolValueView::FixedBytes(
                        padded_word(hex_bytes(without_prefixes(s)), n as nat),
                        n as nat,
                    ),
                )
            } else {
                Err("Invalid hex string: "@ + s)
            },
            _ => Err("Bytes must be a hex string"@),
        },
        SolType::Array(inner) => match v {
            JsonView::Array(items) => match converted_upto(items, *inner, items.len()) {
                Ok(values) => Ok(SolValueView::Array(values)),
                Err(e) => Err(e),
            },
            _ => Err("Array parameter must be an array"@),
        },
    }
}

/// The typed values that the first `n` of `items` give when each is read as a
/// value of type `t`, or the reason why the first one that gives none does so.
pub open spec fn converted_upto(items: Seq<JsonView>, t: SolType, n: nat) -> Result<
    Seq<SolValueView>,
    Seq<char>,
>
    decreases t, n + 1,
{
    if n == 0 || n > items.len() {
        Ok(Seq::empty())
    } else {
        match converted_upto(items, t, (n - 1) as nat) {
            Err(e) => Err(e),
            Ok(values) => match converted(items[n - 1], t) {
                Ok(v) => Ok(values.push(v)),
                Err(e) => Err(e),
            },
        }
    }
}

/// Once one of the first `n` items gives no value, neither do the first `m`.
pub proof fn failure_persists(items: Seq<JsonView>, t: SolType, n: nat, m: nat)
    requires
        n <= m <= items.len(),
        converted_upto(items, t, n) is Err,
    ensures
        converted_upto(items, t, m) == converted_upto(items, t, n),
    decreases m,
{
    if n < m {
        failure_persists(items, t, n, (m - 1) as nat);
    }
}

/// The text of a conversion outcome, either way.
pub open spec fn outcome(r: Result<SolValue, String>) -> Result<SolValueView, Seq<char>> {
    match r {
        Ok(v) => Ok(v@),
        Err(e) => Err(e@),
    }
}

/// Reads `value` as a value of type `t`.
pub fn convert_value(value: &JsonValue, t: &SolType) -> (r: Result<SolValue, String>)
    ensures
        outcome(r) == converted(value@, *t),
        r is Ok ==> encodable(r->Ok_0@),
    decreases t,
{
    match t {
        SolType::Address => match value.as_str() {
            Some(s) => match Address::parse(s) {
                Ok(a) => Ok(SolValue::Address(a)),
                Err(e) => Err(e),
            },
            None => Err(String::from_str("Address must be a string")),
        },
        SolType::Uint(bits) => match value {
            JsonValue::Number(JsonNumber::Unsigned(n)) => size_unsigned(U256::from_u64(*n), *bits),
            JsonValue::Number(_) => Err(String::from_str("Invalid uint value")),
            JsonValue::Text(s) => match parse_number(s.as_str()) {
                Some(v) => size_unsigned(v, *bits),
                None => Err(concat("Invalid uint string: ", s.as_str())),
            },
            _ => Err(String::from_str("Uint must be a number or string")),
        },
        SolType::Int(bits) => match value {
            JsonValue::Number(JsonNumber::Unsigned(n)) => size_signed(
                false,
                U256::from_u64(*n),
                *bits,
            ),
            JsonValue::Number(JsonNumber::Negative(i)) => {
                let m: u64 = if *i == i64::MIN {
                    0x8000_0000_0000_0000
                } else if *i < 0 {
                    (-*i) as u64
                } else {
                    *i as u64
                };
                size_signed(*i < 0, U256::from_u64(m), *bits)
            },
            JsonValue::Number(_) => Err(String::from_str("Invalid int value")),
            JsonValue::Text(s) => match read_signed(s.as_str()) {
                Some((negative, m)) => size_signed(negative, m, *bits),
                None => Err(concat("Invalid int string: ", s.as_str())),
            },
            _ => Err(String::from_str("Int must be a number or string")),
        },
        SolType::Bool => match value.as_bool() {
            Some(b) => Ok(SolValue::Bool(b)),
            None => Err(String::from_str("Bool parameter must be a boolean")),
        },
        SolType::Text => match value {
            JsonValue::Text(s) => Ok(SolValue::Text(s.clone())),
            _ => Err(String::from_str("String parameter must be a string")),
        },
        SolType::Bytes => match value {
            JsonValue::Text(s) => match from_prefixed_hex(s.as_str()) {
                Some(bytes) => Ok(SolValue::Bytes(bytes)),
                None => Err(concat("Invalid hex string: ", s.as_str())),
            },
            _ => Err(String::from_str("Bytes must be a hex string")),
        },
        SolType::FixedBytes(n) => match value {
            JsonValue::Text(s) => match from_prefixed_hex(s.as_str()) {
                Some(bytes) => Ok(SolValue::FixedBytes(pad_word(&bytes, *n), *n)),
                None => Err(concat("Invalid hex string: ", s.as_str())),
            },
            _ => Err(String::from_str("Bytes must be a hex string")),
        },
        SolType::Array(inner) => match value {
            JsonValue::Array(items) => {
                proof {
                    array_view(*items);
                }
                let mut out: Vec<SolValue> = Vec::new();
                let mut i: usize = 0;
                proof {
                    assert(sol_views(out@) =~= Seq::<SolValueView>::empty());
                }
                while i < items.len()
                    invariant
                        t is Array,
                        t->Array_0 == *inner,
                        value@ == JsonView::Array(json_views(items@)),
                        i <= items.len(),
                        out.len() == i,
                        converted_upto(json_views(items@), **inner, i as nat) == Ok::<
                            Seq<SolValueView>,
                            Seq<char>,
                        >(sol_views(out@)),
                        all_encodable(sol_views(out@)),
                    decreases items.len() - i,
                {
                    let ghost before = sol_views(out@);
                    match convert_value(&items[i], inner) {
                        Ok(v) => {
                            out.push(v);
                            proof {
                                assert(json_views(items@)[i as int] == items@[i as int]@);
                                assert(sol_views(out@) =~= before.push(v@));
                            }
                        },
                        Err(e) => {
                            proof {
                                assert(json_views(items@)[i as int] == items@[i as int]@);
                                failure_persists(
                                    json_views(items@),
                                    **inner,
                                    (i + 1) as nat,
                                    items@.len(),
                                );
                            }
                            return Err(e);
                        },
                    }
                    i += 1;
                }
                proof {
                    sol_array_view(out);
                }
                Ok(SolValue::Array(out))
            },
            _ => Err(String::from_str("Array parameter must be an array")),
        },
    }
}

/// What is said of a number that does not fit the type `name` of `bits` bits.
fn out_of_range(name: &str, bits: usize) -> (m: String)
    ensures
        m@ == range_message(name@, bits as nat),
{
    let mut m = String::from_str("Value out of range for ");
    m.append(name);
    m.append(decimal_string(bits as u64).as_str());
    m
}

/// The unsigned integer `n` as a value of `bits` bits, where it fits.
fn size_unsigned(n: U256, bits: usize) -> (r: Result<SolValue, String>)
    ensures
        outcome(r) == sized_unsigned(n.value(), bits as nat),
        r is Ok ==> encodable(r->Ok_0@),
{
    proof {
        n.value_is_bounded();
    }
    if n.below_pow2(bits) {
        Ok(SolValue::Uint(n, bits))
    } else {
        Err(out_of_range("uint", bits))
    }
}

/// The signed integer of size `m` as a value of `bits` bits, where it fits.
fn size_signed(negative: bool, m: U256, bits: usize) -> (r: Result<SolValue, String>)
    requires
        if negative {
            0 < m.value() && 2 * m.value() <= pow2_256()
        } else {
            2 * m.value() < pow2_256()
        },
    ensures
        outcome(r) == sized_signed(negative, m.value(), bits as nat),
        r is Ok ==> encodable(r->Ok_0@),
{
    let fits = bits > 0 && if negative {
        m.below_pow2(bits - 1) || m.is_pow2(bits - 1)
    } else {
        m.below_pow2(bits - 1)
    };
    if fits {
        Ok(SolValue::Int(negative, m, bits))
    } else {
        Err(out_of_range("int", bits))
    }
}

/// Reads a signed number within 256 bits from text.
fn read_signed(s: &str) -> (r: Option<(bool, U256)>)
    ensures
        r is Some <==> signed_number_of_text(s@) is Some,
        r matches Some(p) ==> signed_number_of_text(s@) == Some((p.0, p.1.value())),
{
    let chars = to_chars(s);
    if chars.len() > 0 && chars[0] == '-' {
        let rest = crate::text::from_chars(&chars, 1, chars.len());
        proof {
            assert(s@.skip(1) == chars@.subrange(1, chars.len() as int));
        }
        match parse_number(rest.as_str()) {
            Some(m) => if m.fits_negative() {
                Some((!m.is_zero(), m))
            } else {
                None
            },
            None => None,
        }
    } else {
        match parse_number(s) {
            Some(m) => if m.fits_positive() {
                Some((false, m))
            } else {
                None
            },
            None => None,
        }
    }
}

/// The word of a fixed byte string of `n` bytes made from `data`.
fn pad_word(data: &Vec<u8>, n: usize) -> (word: [u8; 32])
    ensures
        word@ == padded_word(data@, n as nat),
{
    let mut word: [u8; 32] = [0u8; 32];
    let mut i: usize = 0;
    while i < 32 && i < data.len() && i < n
        invariant
            i <= 32,
            forall|k: int| 0 <= k < i ==> word@[k] == data@[k],
            forall|k: int| i <= k < 32 ==> word@[k] == 0u8,
            i <= data.len(),
            i <= n,
        decreases 32 - i,
    {
        word[i] = data[i];
        i += 1;
    }
    proof {
        assert(word@ =~= padded_word(data@, n as nat));
    }
    word
}

/// The bytes of a fixed byte string that count: the first `n` of the word.
pub open spec fn counted(word: Seq<u8>, n: nat) -> Seq<u8> {
    if n <= word.len() {
        word.subrange(0, n as int)
    } else {
        word
    }
}

/// The untyped value that stands for the typed value `v`, or the reason why
/// there is none: addresses and byte strings as hexadecimal text behind `0x`,
/// integers as decimal text, arrays and tuples as arrays.
pub open spec fn json_of(v: SolValueView) -> Result<JsonView, Seq<char>>
    decreases v, 0nat,
{
    match v {
        SolValueView::Address(b) => Ok(JsonView::Text("0x"@ + hex_text(b))),
        SolValueView::Uint(n, _) => Ok(JsonView::Text(decimal(n))),
        SolValueView::Int(negative, n, _) => Ok(
            JsonView::Text(
                if negative {
                    seq!['-'] + decimal(n)
                } else {
                    decimal(n)
                },
            ),
        ),
        SolValueView::Bool(b) => Ok(JsonView::Bool(b)),
        SolValueView::Text(s) => Ok(JsonView::Text(s)),
        SolValueView::Bytes(b) => Ok(JsonView::Text("0x"@ + hex_text(b))),
        SolValueView::FixedBytes(word, n) => Ok(JsonView::Text("0x"@ + hex_text(counted(word, n)))),
        SolValueView::Array(items) => match json_of_upto(items, items.len()) {
            Ok(values) => Ok(JsonView::Array(values)),
            Err(e) => Err(e),
        },
        SolValueView::Tuple(items) => match json_of_upto(items, items.len()) {
            Ok(values) => Ok(JsonView::Array(values)),
            Err(e) => Err(e),
        },
        SolValueView::Unsupported(d) => Err("Unsupported DynSolValue type: "@ + d),
    }
}

/// The untyped values that stand for the first `n` of `items`, or the reason
/// why the first one that has none has none.
pub open spec fn json_of_upto(items: Seq<SolValueView>, n: nat) -> Result<Seq<JsonView>, Seq<char>>
    decreases items, n,
{
    if n == 0 || n > items.len() {
        Ok(Seq::empty())
    } else {
        match json_of_upto(items, (n - 1) as nat) {
            Err(e) => Err(e),
            Ok(values) => match json_of(items[n - 1]) {
                Ok(v) => Ok(values.push(v)),
                Err(e) => Err(e),
            },
        }
    }
}

/// Once one of the first `n` values has no untyped form, neither do the first `m`.
pub proof fn json_failure_persists(items: Seq<SolValueView>, n: nat, m: nat)
    requires
        n <= m <= items.len(),
        json_of_upto(items, n) is Err,
    ensures
        json_of_upto(items, m) == json_of_upto(items, n),
    decreases m,
{
    if n < m {
        json_failure_persists(items, n, (m - 1) as nat);
    }
}

/// The untyped value for the outputs of a call: the one value itself where
/// there is exactly one, else the array of them.
pub open spec fn json_of_outputs(values: Seq<SolValueView>) -> Result<JsonView, Seq<char>> {
    if values.len() == 1 {
        json_of(values[0])
    } else {
        match json_of_upto(values, values.len()) {
            Ok(items) => Ok(JsonView::Array(items)),
            Err(e) => Err(e),
        }
    }
}

/// A rendering outcome, either way, as mathematical values.
pub open spec fn rendering(r: Result<JsonValue, String>) -> Result<JsonView, Seq<char>> {
    match r {
        Ok(v) => Ok(v@),
        Err(e) => Err(e@),
    }
}

/// The untyped values for `items`, in order.
fn values_to_json(items: &Vec<SolValue>) -> (r: Result<Vec<JsonValue>, String>)
    ensures
        match r {
            Ok(values) => json_of_upto(sol_views(items@), items@.len()) == Ok::<
                Seq<JsonView>,
                Seq<char>,
            >(json_views(values@)),
            Err(e) => json_of_upto(sol_views(items@), items@.len()) == Err::<
                Seq<JsonView>,
                Seq<char>,
            >(e@),
        },
    decreases items, 0nat,
{
    let mut out: Vec<JsonValue> = Vec::new();
    let mut i: usize = 0;
    proof {
        assert(json_views(out@) =~= Seq::<JsonView>::empty());
    }
    while i < items.len()
        invariant
            i <= items.len(),
            out.len() == i,
            json_of_upto(sol_views(items@), i as nat) == Ok::<Seq<JsonView>, Seq<char>>(
                json_views(out@),
            ),
        decreases items.len() - i,
    {
        let ghost before = json_views(out@);
        proof {
            assert(sol_views(items@)[i as int] == items@[i as int]@);
        }
        match dyn_sol_value_to_json(&items[i]) {
            Ok(v) => {
                out.push(v);
                proof {
                    assert(json_views(out@) =~= before.push(v@));
                }
            },
            Err(e) => {
                proof {
                    json_failure_persists(sol_views(items@), (i + 1) as nat, items@.len());
                }
                return Err(e);
            },
        }
        i += 1;
    }
    Ok(out)
}

/// The untyped value that stands for the typed value `value`.
pub fn dyn_sol_value_to_json(value: &SolValue) -> (r: Result<JsonValue, String>)
    ensures
        rendering(r) == json_of(value@),
    decreases value, 1nat,
{
    match value {
        SolValue::Address(a) => Ok(JsonValue::Text(a.to_hex())),
        SolValue::Uint(n, _) => Ok(JsonValue::Text(n.to_decimal())),
        SolValue::Int(negative, n, _) => {
            if *negative {
                let mut s = String::new();
                crate::text::push_char(&mut s, '-');
                s.append(n.to_decimal().as_str());
                proof {
                    assert(s@ =~= seq!['-'] + decimal(n.value()));
                }
                Ok(JsonValue::Text(s))
            } else {
                Ok(JsonValue::Text(n.to_decimal()))
            }
        },
        SolValue::Bool(b) => Ok(JsonValue::Bool(*b)),
        SolValue::Text(s) => Ok(JsonValue::Text(s.clone())),
        SolValue::Bytes(b) => Ok(JsonValue::Text(to_prefixed_hex(b.as_slice()))),
        SolValue::FixedBytes(word, n) => {
            let all = word.as_slice();
            if *n <= 32 {
                let part = vstd::slice::slice_subrange(all, 0, *n);
                Ok(JsonValue::Text(to_prefixed_hex(part)))
            } else {
                Ok(JsonValue::Text(to_prefixed_hex(all)))
            }
        },
        SolValue::Array(items) => {
            proof {
                sol_array_view(*items);
            }
            match values_to_json(items) {
                Ok(values) => {
                    proof {
                        array_view(values);
                    }
                    Ok(JsonValue::Array(values))
                },
                Err(e) => Err(e),
            }
        },
        SolValue::Tuple(items) => {
            proof {
                sol_tuple_view(*items);
            }
            match values_to_json(items) {
                Ok(values) => {
                    proof {
                        array_view(values);
                    }
                    Ok(JsonValue::Array(values))
                },
                Err(e) => Err(e),
            }
        },
        SolValue::Unsupported(d) => Err(concat("Unsupported DynSolValue type: ", d.as_str())),
    }
}

/// The untyped value for the outputs of a call: the one value itself where
/// there is exactly one, else the array of them.
pub fn dyn_sol_values_to_json(values: &Vec<SolValue>) -> (r: Result<JsonValue, String>)
    ensures
        rendering(r) == json_of_outputs(sol_views(values@)),
{
    if values.len() == 1 {
        proof {
            assert(sol_views(values@)[0] == values@[0]@);
        }
        dyn_sol_value_to_json(&values[0])
    } else {
        match values_to_json(values) {
            Ok(items) => {
                proof {
                    array_view(items);
                }
                Ok(JsonValue::Array(items))
            },
            Err(e) => Err(e),
        }
    }
}

/// The typed value that `v` gives when read against the declared type named
/// `ty`, or the reason why it gives none.
pub open spec fn read_as(v: JsonView, ty: Seq<char>) -> Result<SolValueView, Seq<char>> {
    match type_of_name(ty) {
        Some(t) => converted(v, t),
        None => Err("Unsupported Solidity type: "@ + ty),
    }
}

/// Reads `value` against the declared type named `sol_type`.
pub fn json_to_dyn_sol_value(value: &JsonValue, sol_type: &str) -> (r: Result<SolValue, String>)
    ensures
        outcome(r) == read_as(value@, sol_type@),
        r is Ok ==> encodable(r->Ok_0@),
{
    match SolType::parse(sol_type) {
        Some(t) => convert_value(value, &t),
        None => Err(concat("Unsupported Solidity type: ", sol_type)),
    }
}

/// Each input as its type and its name.
pub open spec fn positional_listing(inputs: Seq<ParameterView>) -> Seq<Seq<char>> {
    Seq::new(inputs.len(), |i: int| inputs[i].ty + " "@ + inputs[i].name)
}

/// Each input as its name and its type.
pub open spec fn named_listing(inputs: Seq<ParameterView>) -> Seq<Seq<char>> {
    Seq::new(inputs.len(), |i: int| inputs[i].name + ": "@ + inputs[i].ty)
}

/// What is said where `given` positional parameters meet another number of inputs.
pub open spec fn count_mismatch_message(f: FunctionView, given: nat) -> Seq<char> {
    "Parameter count mismatch for function '"@ + f.name + "': expected "@ + decimal(f.inputs.len())
        + " parameters, got "@ + decimal(given) + ".\nExpected parameters: ["@ + joined(
        positional_listing(f.inputs),
        ", "@,
    ) + "]"@
}

/// What is said where the positional parameter `n` (counted from 1) does not
/// convert, for the reason `e`.
pub open spec fn positional_failure(p: ParameterView, n: nat, e: Seq<char>) -> Seq<char> {
    "Invalid parameter #"@ + decimal(n) + " ('"@ + p.name + "' of type '"@ + p.ty + "'): "@ + e
}

/// What is said where the named parameter `p` does not convert, for the reason `e`.
pub open spec fn named_failure(p: ParameterView, e: Seq<char>) -> Seq<char> {
    "Invalid parameter '"@ + p.name + "' of type '"@ + p.ty + "': "@ + e
}

/// What is said where the named parameter `p` is missing.
pub open spec fn missing_message(f: FunctionView, p: ParameterView) -> Seq<char> {
    "Missing required parameter '"@ + p.name + "' of type '"@ + p.ty + "' for function '"@ + f.name
        + "'.\nExpected parameters: {"@ + joined(named_listing(f.inputs), ", "@) + "}"@
}

/// What is said where the parameters are neither an array nor an object.
pub open spec fn shape_message(f: FunctionView, parameters: JsonView) -> Seq<char> {
    "Invalid parameter format for function '"@ + f.name
        + "'. Parameters must be provided as either:\n1. Array: [value1, value2, ...]\n2. Object: {"@
        + joined(named_listing(f.inputs), ", "@) + "}\nProvided: "@ + shown(parameters)
}

/// The typed values of the first `n` positional parameters, or what is said of
/// the first one that does not convert.
pub open spec fn positional_upto(params: Seq<JsonView>, inputs: Seq<ParameterView>, n: nat) -> Result<
    Seq<SolValueView>,
    Seq<char>,
>
    decreases n,
{
    if n == 0 || n > inputs.len() || n > params.len() {
        Ok(Seq::empty())
    } else {
        match positional_upto(params, inputs, (n - 1) as nat) {
            Err(e) => Err(e),
            Ok(values) => match read_as(params[n - 1], inputs[n - 1].ty) {
                Ok(v) => Ok(values.push(v)),
                Err(e) => Err(positional_failure(inputs[n - 1], n, e)),
            },
        }
    }
}

/// The first of the first `n` inputs that no field of `fields` is named after.
pub open spec fn first_missing(
    fields: Seq<(Seq<char>, JsonView)>,
    inputs: Seq<ParameterView>,
    n: nat,
) -> Option<ParameterView>
    decreases n,
{
    if n == 0 || n > inputs.len() {
        None
    } else {
        match first_missing(fields, inputs, (n - 1) as nat) {
            Some(p) => Some(p),
            None => if field_of(fields, inputs[n - 1].name) is None {
                Some(inputs[n - 1])
            } else {
                None
            },
        }
    }
}

/// The typed values of the first `n` inputs, each taken from the field of its
/// name, or what is said of the first one that does not convert (or, where
/// the fields are not complete, of the first one that is missing).
pub open spec fn named_upto(fields: Seq<(Seq<char>, JsonView)>, f: FunctionView, n: nat) -> Result<
    Seq<SolValueView>,
    Seq<char>,
>
    decreases n,
{
    if n == 0 || n > f.inputs.len() {
        Ok(Seq::empty())
    } else {
        match named_upto(fields, f, (n - 1) as nat) {
            Err(e) => Err(e),
            Ok(values) => match field_of(fields, f.inputs[n - 1].name) {
                None => Err(missing_message(f, f.inputs[n - 1])),
                Some(v) => match read_as(v, f.inputs[n - 1].ty) {
                    Ok(x) => Ok(values.push(x)),
                    Err(e) => Err(named_failure(f.inputs[n - 1], e)),
                },
            },
        }
    }
}

/// The typed arguments that `parameters` give for a call of `f`, or what is
/// said where they give none. An array is read by position and must have as
/// many items as `f` has inputs. An object is read by the inputs' names and
/// must have a field for every input: the first input without one is named
/// before any field is converted.
pub open spec fn arguments(f: FunctionView, parameters: JsonView) -> Result<
    Seq<SolValueView>,
    Seq<char>,
> {
    match parameters {
        JsonView::Array(params) => if params.len() != f.inputs.len() {
            Err(count_mismatch_message(f, params.len()))
        } else {
            positional_upto(params, f.inputs, params.len())
        },
        JsonView::Object(fields) => match first_missing(fields, f.inputs, f.inputs.len()) {
            Some(p) => Err(missing_message(f, p)),
            None => named_upto(fields, f, f.inputs.len()),
        },
        _ => Err(shape_message(f, parameters)),
    }
}

/// The call data for `f` with `parameters`, or the failure.
pub open spec fn call_data(f: FunctionView, parameters: JsonView) -> Result<Seq<u8>, ErrorView> {
    match arguments(f, parameters) {
        Err(m) => Err(ErrorView { kind: ErrorKind::ParameterFormat, message: m }),
        Ok(values) => match abi_encoding(f, values) {
            Ok(b) => Ok(b),
            Err(e) => Err(
                ErrorView {
                    kind: ErrorKind::ParameterFormat,
                    message: "Failed to encode function inputs: "@ + e,
                },
            ),
        },
    }
}

/// An array whose length differs from the number of inputs is refused for
/// that alone: whatever its items are, and whatever the encoder would say.
pub proof fn count_mismatch_is_refused(f: FunctionView, params: Seq<JsonView>)
    requires
        params.len() != f.inputs.len(),
    ensures
        call_data(f, JsonView::Array(params)) == Err::<Seq<u8>, ErrorView>(
            ErrorView {
                kind: ErrorKind::ParameterFormat,
                message: count_mismatch_message(f, params.len()),
            },
        ),
{
}

/// Once one of the first `n` named parameters fails, so do the first `m`, and
/// with the same words.
pub proof fn named_failure_persists(
    fields: Seq<(Seq<char>, JsonView)>,
    f: FunctionView,
    n: nat,
    m: nat,
)
    requires
        n <= m <= f.inputs.len(),
        named_upto(fields, f, n) is Err,
    ensures
        named_upto(fields, f, m) == named_upto(fields, f, n),
    decreases m,
{
    if n < m {
        named_failure_persists(fields, f, n, (m - 1) as nat);
    }
}

/// Once one of the first `n` positional parameters fails, so do the first `m`,
/// and with the same words.
pub proof fn positional_failure_persists(
    params: Seq<JsonView>,
    inputs: Seq<ParameterView>,
    n: nat,
    m: nat,
)
    requires
        n <= m <= inputs.len(),
        m <= params.len(),
        positional_upto(params, inputs, n) is Err,
    ensures
        positional_upto(params, inputs, m) == positional_upto(params, inputs, n),
    decreases m,
{
    if n < m {
        positional_failure_persists(params, inputs, n, (m - 1) as nat);
    }
}

/// Once one of the first `n` inputs is missing, the first missing one of the
/// first `m` is the same.
pub proof fn first_missing_persists(
    fields: Seq<(Seq<char>, JsonView)>,
    inputs: Seq<ParameterView>,
    n: nat,
    m: nat,
)
    requires
        n <= m <= inputs.len(),
        first_missing(fields, inputs, n) is Some,
    ensures
        first_missing(fields, inputs, m) == first_missing(fields, inputs, n),
    decreases m,
{
    if n < m {
        first_missing_persists(fields, inputs, n, (m - 1) as nat);
    }
}

/// Among the first `n` inputs, the first missing one is the first input that
/// no field is named after; there is none exactly if every input has a field.
pub proof fn first_missing_is_the_first(
    fields: Seq<(Seq<char>, JsonView)>,
    inputs: Seq<ParameterView>,
    n: nat,
)
    requires
        n <= inputs.len(),
    ensures
        match first_missing(fields, inputs, n) {
            Some(p) => exists|i: int|
                0 <= i < n && #[trigger] inputs[i] == p && field_of(fields, inputs[i].name)
                    is None && forall|j: int|
                    0 <= j < i ==> field_of(fields, (#[trigger] inputs[j]).name) is Some,
            None => forall|j: int|
                0 <= j < n ==> field_of(fields, (#[trigger] inputs[j]).name) is Some,
        },
    decreases n,
{
    if n > 0 {
        first_missing_is_the_first(fields, inputs, (n - 1) as nat);
        if first_missing(fields, inputs, (n - 1) as nat) is None && field_of(
            fields,
            inputs[n - 1].name,
        ) is None {
            assert(inputs[n - 1] == inputs[n - 1]);
        }
    }
}

/// An object that lacks the field of a declared input is refused, whatever
/// its other fields hold, and the message names the first input that has no
/// field.
pub proof fn missing_field_is_refused(f: FunctionView, fields: Seq<(Seq<char>, JsonView)>, i: int)
    requires
        0 <= i < f.inputs.len(),
        field_of(fields, f.inputs[i].name) is None,
    ensures
        first_missing(fields, f.inputs, f.inputs.len()) is Some,
        field_of(fields, first_missing(fields, f.inputs, f.inputs.len())->0.name) is None,
        call_data(f, JsonView::Object(fields)) == Err::<Seq<u8>, ErrorView>(
            ErrorView {
                kind: ErrorKind::ParameterFormat,
                message: missing_message(
                    f,
                    first_missing(fields, f.inputs, f.inputs.len())->0,
                ),
            },
        ),
        (forall|j: int| 0 <= j < i ==> field_of(fields, (#[trigger] f.inputs[j]).name) is Some)
            ==> first_missing(fields, f.inputs, f.inputs.len()) == Some(f.inputs[i]),
{
    first_missing_is_the_first(fields, f.inputs, f.inputs.len());
    first_missing_is_the_first(fields, f.inputs, i as nat);
    if first_missing(fields, f.inputs, i as nat) is None {
        assert(first_missing(fields, f.inputs, (i + 1) as nat) == Some(f.inputs[i]));
    }
    if first_missing(fields, f.inputs, (i + 1) as nat) is Some {
        first_missing_persists(fields, f.inputs, (i + 1) as nat, f.inputs.len());
    }
}

/// The listing of the inputs, each as `first` of it, `between`, `second` of it.
fn listing(inputs: &Vec<Parameter>, type_first: bool) -> (r: Vec<String>)
    ensures
        type_first ==> views(r@) == positional_listing(crate::interface::param_views(inputs@)),
        !type_first ==> views(r@) == named_listing(crate::interface::param_views(inputs@)),
{
    let mut out: Vec<String> = Vec::new();
    let mut i: usize = 0;
    while i < inputs.len()
        invariant
            i <= inputs.len(),
            out.len() == i,
            forall|k: int|
                0 <= k < i ==> (#[trigger] out@[k])@ == (if type_first {
                    inputs@[k].ty@ + " "@ + inputs@[k].name@
                } else {
                    inputs@[k].name@ + ": "@ + inputs@[k].ty@
                }),
        decreases inputs.len() - i,
    {
        let p = &inputs[i];
        let mut s = String::new();
        if type_first {
            s.append(p.ty.as_str());
            s.append(" ");
            s.append(p.name.as_str());
        } else {
            s.append(p.name.as_str());
            s.append(": ");
            s.append(p.ty.as_str());
        }
        proof {
            assert(Seq::<char>::empty() + p.ty@ =~= p.ty@);
            assert(Seq::<char>::empty() + p.name@ =~= p.name@);
        }
        out.push(s);
        i += 1;
    }
    proof {
        if type_first {
            assert(views(out@) =~= positional_listing(crate::interface::param_views(inputs@)));
        } else {
            assert(views(out@) =~= named_listing(crate::interface::param_views(inputs@)));
        }
    }
    out
}

/// The typed arguments that `parameters` give for a call of `function`.
///
/// An array is read by position: its length must be the number of inputs, and
/// that is checked before any item is converted. An object is read by the
/// inputs' names: every input must have its field, and that is checked before
/// any field is converted. The failure names the first input that has no
/// field, else the first parameter that does not convert.
pub fn convert_parameters(function: &FunctionSignature, parameters: &JsonValue) -> (r: Result<
    Vec<SolValue>,
    EngineError,
>)
    ensures
        match r {
            Ok(values) => arguments(function@, parameters@) == Ok::<Seq<SolValueView>, Seq<char>>(
                sol_views(values@),
            ) && all_encodable(sol_views(values@)),
            Err(e) => e@.kind == ErrorKind::ParameterFormat && arguments(function@, parameters@)
                == Err::<Seq<SolValueView>, Seq<char>>(e@.message),
        },
{
    let ghost f = function@;
    match parameters {
        JsonValue::Array(params) => {
            proof {
                array_view(*params);
            }
            if params.len() != function.inputs.len() {
                let expected = listing(&function.inputs, true);
                let mut m = String::from_str("Parameter count mismatch for function '");
                m.append(function.name.as_str());
                m.append("': expected ");
                m.append(decimal_string(function.inputs.len() as u64).as_str());
                m.append(" parameters, got ");
                m.append(decimal_string(params.len() as u64).as_str());
                m.append(".\nExpected parameters: [");
                m.append(join(&expected, ", ").as_str());
                m.append("]");
                return Err(EngineError::new(ErrorKind::ParameterFormat, m));
            }
            let mut out: Vec<SolValue> = Vec::new();
            let mut i: usize = 0;
            proof {
                assert(sol_views(out@) =~= Seq::<SolValueView>::empty());
            }
            while i < params.len()
                invariant
                    i <= params.len(),
                    params.len() == function.inputs.len(),
                    out.len() == i,
                    f == function@,
                    parameters@ == JsonView::Array(json_views(params@)),
                    positional_upto(json_views(params@), f.inputs, i as nat) == Ok::<
                        Seq<SolValueView>,
                        Seq<char>,
                    >(sol_views(out@)),
                    all_encodable(sol_views(out@)),
                decreases params.len() - i,
            {
                let p = &function.inputs[i];
                let ghost before = sol_views(out@);
                proof {
                    assert(json_views(params@)[i as int] == params@[i as int]@);
                    assert(f.inputs[i as int] == p@);
                }
                match json_to_dyn_sol_value(&params[i], p.ty.as_str()) {
                    Ok(v) => {
                        out.push(v);
                        proof {
                            assert(sol_views(out@) =~= before.push(v@));
                        }
                    },
                    Err(e) => {
                        let mut m = String::from_str("Invalid parameter #");
                        m.append(decimal_string((i + 1) as u64).as_str());
                        m.append(" ('");
                        m.append(p.name.as_str());
                        m.append("' of type '");
                        m.append(p.ty.as_str());
                        m.append("'): ");
                        m.append(e.as_str());
                        proof {
                            positional_failure_persists(
                                json_views(params@),
                                f.inputs,
                                (i + 1) as nat,
                                params@.len(),
                            );
                        }
                        return Err(EngineError::new(ErrorKind::ParameterFormat, m));
                    },
                }
                i += 1;
            }
            Ok(out)
        },
        JsonValue::Object(fields) => {
            proof {
                crate::json::object_view(*fields);
            }
            let ghost given_fields = crate::json::field_views(fields@);
            // Every input must have its field before any field is converted.
            let mut given: Vec<&JsonValue> = Vec::new();
            let mut k: usize = 0;
            while k < function.inputs.len()
                invariant
                    k <= function.inputs.len(),
                    given.len() == k,
                    f == function@,
                    given_fields == crate::json::field_views(fields@),
                    parameters@ == JsonView::Object(given_fields),
                    first_missing(given_fields, f.inputs, k as nat) is None,
                    forall|j: int|
                        0 <= j < k ==> field_of(given_fields, f.inputs[j].name) == Some(
                            (#[trigger] given@[j])@,
                        ),
                decreases function.inputs.len() - k,
            {
                let p = &function.inputs[k];
                proof {
                    assert(f.inputs[k as int] == p@);
                }
                match parameters.get(p.name.as_str()) {
                    None => {
                        let expected = listing(&function.inputs, false);
                        let mut m = String::from_str("Missing required parameter '");
                        m.append(p.name.as_str());
                        m.append("' of type '");
                        m.append(p.ty.as_str());
                        m.append("' for function '");
                        m.append(function.name.as_str());
                        m.append("'.\nExpected parameters: {");
                        m.append(join(&expected, ", ").as_str());
                        m.append("}");
                        proof {
                            first_missing_persists(
                                given_fields,
                                f.inputs,
                                (k + 1) as nat,
                                f.inputs.len(),
                            );
                        }
                        return Err(EngineError::new(ErrorKind::ParameterFormat, m));
                    },
                    Some(v) => {
                        given.push(v);
                    },
                }
                k += 1;
            }
            let mut out: Vec<SolValue> = Vec::new();
            let mut i: usize = 0;
            proof {
                assert(sol_views(out@) =~= Seq::<SolValueView>::empty());
            }
            while i < function.inputs.len()
                invariant
                    i <= function.inputs.len(),
                    out.len() == i,
                    given.len() == function.inputs.len(),
                    f == function@,
                    parameters@ == JsonView::Object(given_fields),
                    first_missing(given_fields, f.inputs, f.inputs.len()) is None,
                    forall|j: int|
                        0 <= j < f.inputs.len() ==> field_of(given_fields, f.inputs[j].name)
                            == Some((#[trigger] given@[j])@),
                    named_upto(given_fields, f, i as nat) == Ok::<Seq<SolValueView>, Seq<char>>(
                        sol_views(out@),
                    ),
                    all_encodable(sol_views(out@)),
                decreases function.inputs.len() - i,
            {
                let p = &function.inputs[i];
                let ghost before = sol_views(out@);
                proof {
                    assert(f.inputs[i as int] == p@);
                    assert(field_of(given_fields, f.inputs[i as int].name) == Some(
                        given@[i as int]@,
                    ));
                }
                match json_to_dyn_sol_value(given[i], p.ty.as_str()) {
                    Ok(v) => {
                        out.push(v);
                        proof {
                            assert(sol_views(out@) =~= before.push(v@));
                        }
                    },
                    Err(e) => {
                        let mut m = String::from_str("Invalid parameter '");
                        m.append(p.name.as_str());
                        m.append("' of type '");
                        m.append(p.ty.as_str());
                        m.append("': ");
                        m.append(e.as_str());
                        proof {
                            named_failure_persists(
                                given_fields,
                                f,
                                (i + 1) as nat,
                                f.inputs.len(),
                            );
                        }
                        return Err(EngineError::new(ErrorKind::ParameterFormat, m));
                    },
                }
                i += 1;
            }
            Ok(out)
        },
        _ => {
            let expected = listing(&function.inputs, false);
            let mut m = String::from_str("Invalid parameter format for function '");
            m.append(function.name.as_str());
            m.append(
                "'. Parameters must be provided as either:\n1. Array: [value1, value2, ...]\n2. Object: {",
            );
            m.append(join(&expected, ", ").as_str());
            m.append("}\nProvided: ");
            m.append(parameters.to_text().as_str());
            Err(EngineError::new(ErrorKind::ParameterFormat, m))
        },
    }
}

/// An encoding outcome, either way, as mathematical values.
pub open spec fn encoding(r: Result<Vec<u8>, EngineError>) -> Result<Seq<u8>, ErrorView> {
    match r {
        Ok(b) => Ok(b@),
        Err(e) => Err(e@),
    }
}

/// The call data for a call of `function` with `parameters`: the selector and
/// the encoded arguments. No partial encoding is produced: the first parameter
/// that is missing or does not convert fails the whole call.
pub fn encode_function_call(function: &FunctionSignature, parameters: &JsonValue) -> (r: Result<
    Vec<u8>,
    EngineError,
>)
    ensures
        encoding(r) == call_data(function@, parameters@),
{
    match convert_parameters(function, parameters) {
        Err(e) => Err(e),
        Ok(values) => match encode_call(function, &values) {
            Ok(bytes) => Ok(bytes),
            Err(e) => Err(
                EngineError::new(
                    ErrorKind::ParameterFormat,
                    concat("Failed to encode function inputs: ", e.as_str()),
                ),
            ),
        },
    }
}

/// What the response `data` to a call of `f` means: nothing where it is empty,
/// else its decoded outputs as an untyped value.
pub open spec fn decoded_result(f: FunctionView, data: Seq<u8>) -> Result<JsonView, ErrorView> {
    if data.len() == 0 {
        Ok(JsonView::Null)
    } else {
        match abi_decoding(f, data) {
            Err(e) => Err(
                ErrorView { kind: ErrorKind::Decoding, message: "Failed to decode output: "@ + e },
            ),
            Ok(values) => match json_of_outputs(values) {
                Ok(v) => Ok(v),
                Err(e) => Err(ErrorView { kind: ErrorKind::Decoding, message: e }),
            },
        }
    }
}

/// A decoding outcome, either way, as mathematical values.
pub open spec fn decoding(r: Result<JsonValue, EngineError>) -> Result<JsonView, ErrorView> {
    match r {
        Ok(v) => Ok(v@),
        Err(e) => Err(e@),
    }
}

/// Decodes the response to a call of `function`. An empty response is no
/// value, not an error.
pub fn decode_function_result(function: &FunctionSignature, result_bytes: &[u8]) -> (r: Result<
    JsonValue,
    EngineError,
>)
    ensures
        decoding(r) == decoded_result(function@, result_bytes@),
{
    if result_bytes.len() == 0 {
        return Ok(JsonValue::Null);
    }
    match decode_outputs(function, result_bytes) {
        Err(e) => Err(
            EngineError::new(
                ErrorKind::Decoding,
                concat("Failed to decode output: ", e.as_str()),
            ),
        ),
        Ok(values) => match dyn_sol_values_to_json(&values) {
            Ok(v) => Ok(v),
            Err(e) => Err(EngineError::new(ErrorKind::Decoding, e)),
        },
    }
}

} // verus!
