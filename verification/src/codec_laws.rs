//! What holds of the value codec as a whole: a value that is read against a
//! type and written back comes out in the documented form.

use vstd::prelude::*;
use crate::address::address_digits;
use crate::codec::{
    converted, converted_upto, counted, json_of, json_of_upto, magnitude, padded_word,
    signed_number_of_text,
};
use crate::hexadecimal::{hex_bytes, hex_text, is_hex_text, without_prefixes};
use crate::json::{JsonNumberView, JsonView};
use crate::soltype::SolType;
use crate::solvalue::SolValueView;
use crate::text::{decimal, hex_digit, hex_value, is_hex_digit};
use crate::word::number_of_text;

verus! {

/// The hexadecimal digit `c` in lower case.
pub open spec fn lower_digit(c: char) -> char {
    if 'A' <= c <= 'F' {
        ((c as u32) + 32) as char
    } else {
        c
    }
}

/// The hexadecimal digits `s` in lower case.
pub open spec fn lower_hex(s: Seq<char>) -> Seq<char> {
    Seq::new(s.len(), |i: int| lower_digit(s[i]))
}

/// The digits `d` cut or filled with zeros at the end to `n` digits.
pub open spec fn fitted(d: Seq<char>, n: nat) -> Seq<char> {
    Seq::new(
        n,
        |i: int|
            if i < d.len() {
                d[i]
            } else {
                '0'
            },
    )
}

/// The documented output form of the untyped value `v` for the declared type
/// `t`: an address and byte strings in lower case behind `0x`, a fixed byte
/// string cut or filled to its size, an integer in decimal, an array item by
/// item, anything else unchanged.
pub open spec fn normalized(v: JsonView, t: SolType) -> JsonView
    decreases t, 0nat,
{
    match t {
        SolType::Address => JsonView::Text("0x"@ + lower_hex(address_digits(v->Text_0))),
        SolType::Uint(_) => match v {
            JsonView::Number(JsonNumberView::Unsigned(n)) => JsonView::Text(decimal(n as nat)),
            _ => JsonView::Text(decimal(number_of_text(v->Text_0)->0)),
        },
        SolType::Int(_) => match v {
            JsonView::Number(JsonNumberView::Unsigned(n)) => JsonView::Text(decimal(n as nat)),
            JsonView::Number(JsonNumberView::Negative(i)) => JsonView::Text(
                if i < 0 {
                    seq!['-'] + decimal(magnitude(i))
                } else {
                    decimal(magnitude(i))
                },
            ),
            _ => {
                let number = signed_number_of_text(v->Text_0).unwrap();
                JsonView::Text(
                    if number.0 {
                        seq!['-'] + decimal(number.1)
                    } else {
                        decimal(number.1)
                    },
                )
            },
        },
        SolType::Bool => v,
        SolType::Text => v,
        SolType::Bytes => JsonView::Text("0x"@ + lower_hex(without_prefixes(v->Text_0))),
        SolType::FixedBytes(n) => JsonView::Text(
            "0x"@ + fitted(lower_hex(without_prefixes(v->Text_0)), 2 * (n as nat)),
        ),
        SolType::Array(inner) => JsonView::Array(
            normalized_upto(v->Array_0, *inner, v->Array_0.len()),
        ),
    }
}

/// The output forms of the first `n` of `items`, each for the type `t`.
pub open spec fn normalized_upto(items: Seq<JsonView>, t: SolType, n: nat) -> Seq<JsonView>
    decreases t, n + 1,
{
    if n == 0 || n > items.len() {
        Seq::empty()
    } else {
        normalized_upto(items, t, (n - 1) as nat).push(normalized(items[n - 1], t))
    }
}

/// Every size in `t` is one that a fixed byte string can have.
pub open spec fn well_sized(t: SolType) -> bool
    decreases t,
{
    match t {
        SolType::FixedBytes(n) => n <= 32,
        SolType::Array(inner) => well_sized(*inner),
        _ => true,
    }
}

proof fn digit_round_trip(a: char, b: char)
    requires
        is_hex_digit(a),
        is_hex_digit(b),
    ensures
        16 * hex_value(a) + hex_value(b) < 256,
        hex_digit((((16 * hex_value(a) + hex_value(b)) as u8) / 16) as nat) == lower_digit(a),
        hex_digit((((16 * hex_value(a) + hex_value(b)) as u8) % 16) as nat) == lower_digit(b),
{
}

/// Bytes read from hexadecimal digits and written back give the same digits
/// in lower case.
pub proof fn hex_round_trip(d: Seq<char>)
    requires
        is_hex_text(d),
    ensures
        hex_text(hex_bytes(d)) == lower_hex(d),
{
    let bytes = hex_bytes(d);
    assert forall|i: int| 0 <= i < d.len() implies hex_text(bytes)[i] == lower_hex(d)[i] by {
        let k = i / 2;
        assert(is_hex_digit(d[2 * k]));
        assert(is_hex_digit(d[2 * k + 1]));
        digit_round_trip(d[2 * k], d[2 * k + 1]);
    }
    assert(hex_text(bytes) =~= lower_hex(d));
}

proof fn fixed_round_trip(d: Seq<char>, n: nat)
    requires
        is_hex_text(d),
        n <= 32,
    ensures
        hex_text(counted(padded_word(hex_bytes(d), n), n)) == fitted(lower_hex(d), 2 * n),
{
    let bytes = hex_bytes(d);
    let word = counted(padded_word(bytes, n), n);
    hex_round_trip(d);
    assert forall|i: int| 0 <= i < 2 * n implies hex_text(word)[i] == fitted(lower_hex(d), 2 * n)[i] by {
        let k = i / 2;
        if k < bytes.len() {
            assert(word[k] == bytes[k]);
            assert(hex_text(bytes)[i] == lower_hex(d)[i]);
        } else {
            assert(word[k] == 0u8);
        }
    }
    assert(hex_text(word) =~= fitted(lower_hex(d), 2 * n));
}

proof fn json_of_upto_of_prefix(a: Seq<SolValueView>, b: Seq<SolValueView>, n: nat)
    requires
        n <= a.len(),
        n <= b.len(),
        forall|i: int| 0 <= i < n ==> a[i] == b[i],
    ensures
        json_of_upto(a, n) == json_of_upto(b, n),
    decreases n,
{
    if n > 0 {
        json_of_upto_of_prefix(a, b, (n - 1) as nat);
    }
}

proof fn converted_upto_len(items: Seq<JsonView>, t: SolType, n: nat)
    requires
        n <= items.len(),
        converted_upto(items, t, n) is Ok,
    ensures
        converted_upto(items, t, n)->Ok_0.len() == n,
        n > 0 ==> converted_upto(items, t, (n - 1) as nat) is Ok && converted(items[n - 1], t) is Ok,
    decreases n,
{
    if n > 0 {
        converted_upto_len(items, t, (n - 1) as nat);
    }
}

/// Round trip: where the untyped value `v` is accepted for the declared type
/// `t`, writing the typed value back gives `v` in its documented output form.
pub proof fn round_trip(v: JsonView, t: SolType)
    requires
        well_sized(t),
        converted(v, t) is Ok,
    ensures
        json_of(converted(v, t)->Ok_0) == Ok::<JsonView, Seq<char>>(normalized(v, t)),
    decreases t, 0nat,
{
    match t {
        SolType::Address => {
            hex_round_trip(address_digits(v->Text_0));
        },
        SolType::Bytes => {
            hex_round_trip(without_prefixes(v->Text_0));
        },
        SolType::FixedBytes(n) => {
            fixed_round_trip(without_prefixes(v->Text_0), n as nat);
        },
        SolType::Array(inner) => {
            let items = v->Array_0;
            round_trip_upto(items, *inner, items.len());
            converted_upto_len(items, *inner, items.len());
        },
        _ => {},
    }
}

/// Round trip, item by item, for the first `n` items of an array.
pub proof fn round_trip_upto(items: Seq<JsonView>, t: SolType, n: nat)
    requires
        well_sized(t),
        n <= items.len(),
        converted_upto(items, t, n) is Ok,
    ensures
        json_of_upto(converted_upto(items, t, n)->Ok_0, n) == Ok::<Seq<JsonView>, Seq<char>>(
            normalized_upto(items, t, n),
        ),
    decreases t, n + 1,
{
    if n > 0 {
        converted_upto_len(items, t, n);
        let before = converted_upto(items, t, (n - 1) as nat)->Ok_0;
        let all = converted_upto(items, t, n)->Ok_0;
        converted_upto_len(items, t, (n - 1) as nat);
        round_trip_upto(items, t, (n - 1) as nat);
        round_trip(items[n - 1], t);
        assert(all == before.push(converted(items[n - 1], t)->Ok_0));
        json_of_upto_of_prefix(all, before, (n - 1) as nat);
    }
}

} // verus!
