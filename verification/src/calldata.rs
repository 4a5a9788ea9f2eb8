//! The binary calling convention: typed values to call data and response
//! bytes to typed values, as the `alloy` crates compute them.

use alloy::dyn_abi::{DynSolValue, FunctionExt, JsonAbiExt};
use alloy::primitives::{Sign, I256, U256 as Limbs};
use vstd::prelude::*;
use crate::address::Address;
use crate::interface::{param_views, FunctionSignature, FunctionView, Parameter, ParameterView};
use crate::solvalue::{encodable, sol_views, SolValue, SolValueView};
use crate::word::U256;

verus! {

/// `DynSolValue` of alloy: a typed value as the encoder takes it. Nothing of
/// its inside is known here.
#[verifier::external_type_specification]
#[verifier::external_body]
pub struct ExDynSolValue(DynSolValue);

/// `Function` of alloy: a function item of an interface description. Nothing
/// of its inside is known here.
#[verifier::external_type_specification]
#[verifier::external_body]
pub struct ExFunction(alloy::json_abi::Function);

/// `Param` of alloy: a parameter item of an interface description. Nothing of
/// its inside is known here.
#[verifier::external_type_specification]
#[verifier::external_body]
pub struct ExParam(alloy::json_abi::Param);

/// What a dynamic value of `alloy` holds.
pub uninterp spec fn value_model(v: DynSolValue) -> SolValueView;

/// What a parameter item of `alloy` holds.
pub uninterp spec fn param_model(p: alloy::json_abi::Param) -> ParameterView;

/// What a function item of `alloy` holds.
pub uninterp spec fn function_model(f: alloy::json_abi::Function) -> FunctionView;

/// The call data for `function` applied to `values`: the selector and the
/// encoded arguments, or the encoder's message where the values do not match
/// the declared inputs.
pub uninterp spec fn abi_encoding(function: FunctionView, values: Seq<SolValueView>) -> Result<
    Seq<u8>,
    Seq<char>,
>;

/// The values that `data` holds when read as the outputs of `function`, or the
/// decoder's message where it cannot be read so.
pub uninterp spec fn abi_decoding(function: FunctionView, data: Seq<u8>) -> Result<
    Seq<SolValueView>,
    Seq<char>,
>;

/// The models of the values of `items`, in order.
pub open spec fn value_models(items: Seq<DynSolValue>) -> Seq<SolValueView> {
    Seq::new(items.len(), |i: int| value_model(items[i]))
}

/// The models of the parameters of `items`, in order.
pub open spec fn param_models(items: Seq<alloy::json_abi::Param>) -> Seq<ParameterView> {
    Seq::new(items.len(), |i: int| param_model(items[i]))
}

/// `v` is neither an array nor a tuple.
pub open spec fn is_scalar(v: SolValueView) -> bool {
    !(v is Array) && !(v is Tuple)
}

/// Builds the `DynSolValue` that holds what the scalar `v` holds, variant for
/// variant; none for a variant that has no counterpart. A signed integer goes
/// through `I256::checked_from_sign_and_abs`, which has a result for every
/// size that `encodable` admits.
#[verifier::external_body]
fn dyn_scalar(v: &SolValue) -> (d: Option<DynSolValue>)
    ensures
        encodable(v@) && is_scalar(v@) ==> d is Some && value_model(d->0) == v@,
{
    Some(match v {
        SolValue::Address(a) => DynSolValue::Address(a.bytes.into()),
        SolValue::Uint(n, bits) => DynSolValue::Uint(Limbs::from_limbs(n.limbs), *bits),
        SolValue::Int(neg, n, bits) => {
            let sign = if *neg { Sign::Negative } else { Sign::Positive };
            let abs = Limbs::from_limbs(n.limbs);
            DynSolValue::Int(I256::checked_from_sign_and_abs(sign, abs)?, *bits)
        },
        SolValue::Bool(b) => DynSolValue::Bool(*b),
        SolValue::Bytes(b) => DynSolValue::Bytes(b.clone()),
        SolValue::FixedBytes(w, size) => DynSolValue::FixedBytes(w.into(), *size),
        SolValue::Text(s) => DynSolValue::String(s.clone()),
        _ => return None,
    })
}

/// Builds the `DynSolValue` that holds what `v` holds: an array or a tuple
/// item by item, anything else as `dyn_scalar` builds it; none where an item
/// has no counterpart.
#[verifier::external_body]
fn dyn_value(v: &SolValue) -> (d: Option<DynSolValue>)
    ensures
        encodable(v@) ==> d is Some && value_model(d->0) == v@,
{
    match v {
        SolValue::Array(a) => a.iter().map(dyn_value).collect::<Option<_>>().map(DynSolValue::Array),
        SolValue::Tuple(a) => a.iter().map(dyn_value).collect::<Option<_>>().map(DynSolValue::Tuple),
        other => dyn_scalar(other),
    }
}

/// Reads a scalar `DynSolValue` into the library's value, variant for variant;
/// a signed integer comes as its sign and `I256::unsigned_abs`. A variant that
/// the library has no counterpart for is kept as its `Debug` text.
#[verifier::external_body]
fn sol_scalar(d: &DynSolValue) -> (v: SolValue)
    ensures
        is_scalar(value_model(*d)) ==> v@ == value_model(*d),
{
    match d {
        DynSolValue::Bool(b) => SolValue::Bool(*b),
        DynSolValue::Int(n, bits) => SolValue::Int(n.is_negative(), U256 { limbs: n.unsigned_abs().into_limbs() }, *bits),
        DynSolValue::Uint(n, bits) => SolValue::Uint(U256 { limbs: n.into_limbs() }, *bits),
        DynSolValue::FixedBytes(w, size) => SolValue::FixedBytes(w.0, *size),
        DynSolValue::Address(a) => SolValue::Address(Address { bytes: a.0.0 }),
        DynSolValue::Bytes(b) => SolValue::Bytes(b.clone()),
        DynSolValue::String(s) => SolValue::Text(s.clone()),
        other => SolValue::Unsupported(format!("{:?}", other)),
    }
}

/// Reads a `DynSolValue` into the library's value: an array or a tuple item
/// by item, anything else as `sol_scalar` reads it.
#[verifier::external_body]
fn sol_value(d: &DynSolValue) -> (v: SolValue)
    ensures
        v@ == value_model(*d),
{
    match d {
        DynSolValue::Array(a) => SolValue::Array(a.iter().map(sol_value).collect()),
        DynSolValue::Tuple(a) => SolValue::Tuple(a.iter().map(sol_value).collect()),
        other => sol_scalar(other),
    }
}

/// The `DynSolValue` for `v`: a scalar directly, an array or a tuple item by
/// item.
fn lower_value(v: &SolValue) -> (d: DynSolValue)
    requires
        encodable(v@),
    ensures
        value_model(d) == v@,
{
    match v {
        SolValue::Array(_) => {
            dyn_value(v).unwrap()
        },
        SolValue::Tuple(_) => {
            dyn_value(v).unwrap()
        },
        _ => {
            dyn_scalar(v).unwrap()
        },
    }
}

/// Builds the parameter item that holds what `p` holds, components included.
#[verifier::external_body]
fn alloy_param(p: &Parameter) -> (a: alloy::json_abi::Param)
    ensures
        param_model(a) == p@,
{
    alloy::json_abi::Param {
        ty: p.ty.clone(),
        name: p.name.clone(),
        components: p.components.iter().map(alloy_param).collect(),
        internal_type: None,
    }
}

/// Builds the function item with the given name, inputs and outputs.
#[verifier::external_body]
fn alloy_function(
    name: &str,
    inputs: Vec<alloy::json_abi::Param>,
    outputs: Vec<alloy::json_abi::Param>,
) -> (f: alloy::json_abi::Function)
    ensures
        function_model(f) == (FunctionView {
            name: name@,
            inputs: param_models(inputs@),
            outputs: param_models(outputs@),
        }),
{
    alloy::json_abi::Function {
        name: name.to_string(),
        inputs,
        outputs,
        state_mutability: alloy::json_abi::StateMutability::NonPayable,
    }
}

/// `JsonAbiExt::abi_encode_input` on a function item: the call data, or the
/// encoder's message.
#[verifier::external_body]
fn encode_input(function: &alloy::json_abi::Function, values: &Vec<DynSolValue>) -> (r: Result<
    Vec<u8>,
    String,
>)
    ensures
        match r {
            Ok(b) => abi_encoding(function_model(*function), value_models(values@)) == Ok::<
                Seq<u8>,
                Seq<char>,
            >(b@),
            Err(e) => abi_encoding(function_model(*function), value_models(values@)) == Err::<
                Seq<u8>,
                Seq<char>,
            >(e@),
        },
{
    function.abi_encode_input(values).map_err(|e| e.to_string())
}

/// `FunctionExt::abi_decode_output` on a function item, without validation:
/// the values, or the decoder's message.
#[verifier::external_body]
fn decode_output(function: &alloy::json_abi::Function, data: &[u8]) -> (r: Result<
    Vec<DynSolValue>,
    String,
>)
    ensures
        match r {
            Ok(vs) => abi_decoding(function_model(*function), data@) == Ok::<
                Seq<SolValueView>,
                Seq<char>,
            >(value_models(vs@)),
            Err(e) => abi_decoding(function_model(*function), data@) == Err::<
                Seq<SolValueView>,
                Seq<char>,
            >(e@),
        },
{
    function.abi_decode_output(data, false).map_err(|e| e.to_string())
}

/// The function item of `alloy` for `function`.
fn lower_function(function: &FunctionSignature) -> (f: alloy::json_abi::Function)
    ensures
        function_model(f) == function@,
{
    let inputs = lower_params(&function.inputs);
    let outputs = lower_params(&function.outputs);
    alloy_function(function.name.as_str(), inputs, outputs)
}

/// The parameter items of `alloy` for `params`.
fn lower_params(params: &Vec<Parameter>) -> (r: Vec<alloy::json_abi::Param>)
    ensures
        param_models(r@) == param_views(params@),
{
    let mut out: Vec<alloy::json_abi::Param> = Vec::new();
    let mut i: usize = 0;
    while i < params.len()
        invariant
            i <= params.len(),
            out.len() == i,
            forall|k: int| 0 <= k < i ==> param_model(#[trigger] out@[k]) == params@[k]@,
        decreases params.len() - i,
    {
        out.push(alloy_param(&params[i]));
        i += 1;
    }
    proof {
        assert(param_models(out@) =~= param_views(params@));
    }
    out
}

/// All of `values` can be written in the binary calling convention.
pub open spec fn all_encodable(values: Seq<SolValueView>) -> bool {
    forall|i: int| 0 <= i < values.len() ==> encodable(#[trigger] values[i])
}

/// The call data for `function` applied to `values`: the four bytes of the
/// selector, then the encoded arguments. Fails with the encoder's message
/// where the values do not match the declared inputs.
pub fn encode_call(function: &FunctionSignature, values: &Vec<SolValue>) -> (r: Result<
    Vec<u8>,
    String,
>)
    requires
        all_encodable(sol_views(values@)),
    ensures
        match r {
            Ok(b) => abi_encoding(function@, sol_views(values@)) == Ok::<Seq<u8>, Seq<char>>(b@),
            Err(e) => abi_encoding(function@, sol_views(values@)) == Err::<Seq<u8>, Seq<char>>(
                e@,
            ),
        },
{
    let f = lower_function(function);
    let mut lowered: Vec<DynSolValue> = Vec::new();
    let mut i: usize = 0;
    while i < values.len()
        invariant
            i <= values.len(),
            lowered.len() == i,
            all_encodable(sol_views(values@)),
            forall|k: int| 0 <= k < i ==> value_model(#[trigger] lowered@[k]) == values@[k]@,
        decreases values.len() - i,
    {
        assert(encodable(sol_views(values@)[i as int]));
        lowered.push(lower_value(&values[i]));
        i += 1;
    }
    proof {
        assert(value_models(lowered@) =~= sol_views(values@));
    }
    encode_input(&f, &lowered)
}

/// The values that `data` holds when read as the outputs of `function`. Fails
/// with the decoder's message where the bytes cannot be read so.
pub fn decode_outputs(function: &FunctionSignature, data: &[u8]) -> (r: Result<
    Vec<SolValue>,
    String,
>)
    ensures
        match r {
            Ok(vs) => abi_decoding(function@, data@) == Ok::<Seq<SolValueView>, Seq<char>>(
                sol_views(vs@),
            ),
            Err(e) => abi_decoding(function@, data@) == Err::<Seq<SolValueView>, Seq<char>>(e@),
        },
{
    let f = lower_function(function);
    match decode_output(&f, data) {
        Ok(raw) => {
            let mut out: Vec<SolValue> = Vec::new();
            let mut i: usize = 0;
            while i < raw.len()
                invariant
                    i <= raw.len(),
                    out.len() == i,
                    forall|k: int| 0 <= k < i ==> (#[trigger] out@[k])@ == value_model(raw@[k]),
                decreases raw.len() - i,
            {
                out.push(sol_value(&raw[i]));
                i += 1;
            }
            proof {
                assert(sol_views(out@) =~= value_models(raw@));
            }
            Ok(out)
        },
        Err(e) => Err(e),
    }
}

} // verus!
