//! Typed values: what a parameter holds once it has been read against its
//! declared type, and what a response holds once it has been decoded.

use vstd::prelude::*;
use crate::address::Address;
use crate::word::{pow2_256, U256};

verus! {

/// A typed value.
#[derive(Debug)]
pub enum SolValue {
    /// An address.
    Address(Address),
    /// An unsigned integer and the number of bits of its type.
    Uint(U256, usize),
    /// A signed integer: whether it is negative, its size, and the number of
    /// bits of its type.
    Int(bool, U256, usize),
    /// A boolean.
    Bool(bool),
    /// A string.
    Text(String),
    /// A byte string of any length.
    Bytes(Vec<u8>),
    /// A byte string of fixed length: a word of 32 bytes of which the first
    /// ones count, and how many they are.
    FixedBytes([u8; 32], usize),
    /// An array of values.
    Array(Vec<SolValue>),
    /// A tuple of values.
    Tuple(Vec<SolValue>),
    /// A value of a kind that the codec does not convert, with its description.
    Unsupported(String),
}

/// What a [`SolValue`] holds, as mathematical values.
pub enum SolValueView {
    Address(Seq<u8>),
    Uint(nat, nat),
    Int(bool, nat, nat),
    Bool(bool),
    Text(Seq<char>),
    Bytes(Seq<u8>),
    FixedBytes(Seq<u8>, nat),
    Array(Seq<SolValueView>),
    Tuple(Seq<SolValueView>),
    Unsupported(Seq<char>),
}

/// What `v` holds.
pub open spec fn sol_view(v: SolValue) -> SolValueView
    decreases v, 0nat,
{
    match v {
        SolValue::Address(a) => SolValueView::Address(a.bytes@),
        SolValue::Uint(n, bits) => SolValueView::Uint(n.value(), bits as nat),
        SolValue::Int(negative, n, bits) => SolValueView::Int(negative, n.value(), bits as nat),
        SolValue::Bool(b) => SolValueView::Bool(b),
        SolValue::Text(s) => SolValueView::Text(s@),
        SolValue::Bytes(b) => SolValueView::Bytes(b@),
        SolValue::FixedBytes(word, size) => SolValueView::FixedBytes(word@, size as nat),
        SolValue::Array(items) => SolValueView::Array(sol_views_upto(items@, items@.len())),
        SolValue::Tuple(items) => SolValueView::Tuple(sol_views_upto(items@, items@.len())),
        SolValue::Unsupported(d) => SolValueView::Unsupported(d@),
    }
}

/// What the first `n` values of `items` hold.
pub open spec fn sol_views_upto(items: Seq<SolValue>, n: nat) -> Seq<SolValueView>
    decreases items, n,
{
    if n == 0 || n > items.len() {
        Seq::empty()
    } else {
        sol_views_upto(items, (n - 1) as nat).push(sol_view(items[n - 1]))
    }
}

impl View for SolValue {
    type V = SolValueView;

    open spec fn view(&self) -> SolValueView {
        sol_view(*self)
    }
}

/// The views of the values of `items`, in order.
pub open spec fn sol_views(items: Seq<SolValue>) -> Seq<SolValueView> {
    Seq::new(items.len(), |i: int| items[i]@)
}

proof fn sol_views_upto_is_prefix(items: Seq<SolValue>, n: nat)
    requires
        n <= items.len(),
    ensures
        sol_views_upto(items, n) == sol_views(items).subrange(0, n as int),
    decreases n,
{
    if n > 0 {
        sol_views_upto_is_prefix(items, (n - 1) as nat);
        assert(sol_views(items).subrange(0, n as int) =~= sol_views(items).subrange(0, n - 1).push(
            items[n - 1]@,
        ));
    } else {
        assert(sol_views(items).subrange(0, 0) =~= Seq::<SolValueView>::empty());
    }
}

/// The view of an array is the array of its items' views.
pub proof fn sol_array_view(items: Vec<SolValue>)
    ensures
        SolValue::Array(items)@ == SolValueView::Array(sol_views(items@)),
{
    sol_views_upto_is_prefix(items@, items@.len());
    assert(sol_views(items@).subrange(0, items@.len() as int) =~= sol_views(items@));
}

/// The view of a tuple is the tuple of its items' views.
pub proof fn sol_tuple_view(items: Vec<SolValue>)
    ensures
        SolValue::Tuple(items)@ == SolValueView::Tuple(sol_views(items@)),
{
    sol_views_upto_is_prefix(items@, items@.len());
    assert(sol_views(items@).subrange(0, items@.len() as int) =~= sol_views(items@));
}

/// `v` can be written in the binary calling convention: every signed integer
/// in it fits 256 bits and zero is not negative, every fixed byte string is a
/// word, and nothing in it is of an unconverted kind.
pub open spec fn encodable(v: SolValueView) -> bool
    decreases v,
{
    match v {
        SolValueView::Address(b) => b.len() == 20,
        SolValueView::Uint(n, _) => n < pow2_256(),
        SolValueView::Int(negative, n, _) => if negative {
            0 < n && 2 * n <= pow2_256()
        } else {
            2 * n < pow2_256()
        },
        SolValueView::Bool(_) => true,
        SolValueView::Text(_) => true,
        SolValueView::Bytes(_) => true,
        SolValueView::FixedBytes(word, _) => word.len() == 32,
        SolValueView::Array(items) => forall|i: int|
            0 <= i < items.len() ==> encodable(#[trigger] items[i]),
        SolValueView::Tuple(items) => forall|i: int|
            0 <= i < items.len() ==> encodable(#[trigger] items[i]),
        SolValueView::Unsupported(_) => false,
    }
}

} // verus!
