//! The contract operation engine: inspect, call, estimate, simulate and send.
//!
//! The engine decides; it performs no network or disk action itself. Each
//! operation starts with a call that validates the request and either ends at
//! once or asks for one action. Whoever runs the engine performs the action
//! and hands the response to [`ContractManager::resume`], until the operation
//! is done.

use vstd::prelude::*;
use crate::abi::{
    apply, file_of, key_of, name_view, parsed_interface, reply_outcome,
    request_url, service_of, AbiLookup, AbiResolver, AbiSource, CacheEvent, RemoteReply,
};
use crate::address::{address_parse_failure, is_address_text, key_address, Address};
use crate::config::GasConfig;
use crate::codec::{call_data, decode_function_result, decoded_result, encode_function_call};
use crate::error::{EngineError, ErrorKind, ErrorView};
use crate::hexadecimal::{hex_bytes, hex_text, to_prefixed_hex};
use crate::interface::{
    function_named, names_of, FunctionSignature, FunctionView, InterfaceDescription, InterfaceView,
};
use crate::json::{JsonValue, JsonView};
use crate::provider::{Connection, ProviderManager};
use crate::text::{concat, decimal, join, joined, lowercase, trimmed, unicode_lowercase};
use crate::types::{
    failed, CallResult, CallResultView, ContractInfo, EventInfo, FunctionCall, LogRecord, Receipt,
    TransactionInfo, TransactionRequest,
};
use crate::utils::{
    abi_error_text, address_failure, function_name_failure, interpret_abi_error,
    interpret_rpc_error, network_failure, rpc_error_text, validate_address,
    validate_function_name, validate_hex_value, validate_network, value_failure,
};
use crate::word::{number_of_text, pow2_64, U256};

verus! {

/// The kind of an operation.
#[derive(Clone, Copy, Debug, PartialEq, Eq, Structural)]
pub enum OperationKind {
    Inspect,
    Call,
    Estimate,
    Simulate,
    Send,
    Events,
}

/// An operation under way: the validated request.
#[derive(Debug)]
pub struct Task {
    pub kind: OperationKind,
    /// The contract's address as the request gave it.
    pub contract_address: String,
    /// The contract's address.
    pub address: Address,
    pub network: Option<String>,
    pub connection: Connection,
    pub call: FunctionCall,
    /// For a send: the address that the signing credential stands for.
    pub sender: Option<Address>,
    /// For a send: the signing credential; empty otherwise.
    pub credential: String,
    /// For an inspection: the code that was found.
    pub code: Vec<u8>,
    /// For a send: the gas limit that the request sets.
    pub gas_limit: Option<u64>,
    /// For a send: the gas price that the request sets.
    pub gas_price: Option<String>,
    /// The gas policy of the network.
    pub gas: GasConfig,
}

/// What an operation under way waits for.
#[derive(Debug)]
pub enum Stage {
    /// The code at the address.
    Code,
    /// The file of the store on disk.
    CacheFile { cache_key: String },
    /// The reply of the lookup service.
    Fetch { cache_key: String },
    /// The write to the store on disk.
    Store { abi: InterfaceDescription },
    /// The response to a read; for a simulation, with the gas estimate.
    Call { function: FunctionSignature, gas: Option<u64> },
    /// The gas estimate.
    Gas { function: FunctionSignature, request: TransactionRequest },
    /// The hash of the submitted transaction.
    Submission,
    /// The receipt of the submitted transaction.
    Receipt { hash: String },
    /// The logs.
    Logs,
}

/// An operation under way and what it waits for.
#[derive(Debug)]
pub struct Pending {
    pub task: Task,
    pub stage: Stage,
}

/// The action that an operation asks for.
#[derive(Debug)]
pub enum Request {
    /// Fetch the code at the address.
    Code { connection: Connection, address: Address },
    /// Read this file of the store on disk.
    ReadCache { file_name: String },
    /// Fetch this address of the lookup service.
    Fetch { url: String },
    /// Write this file of the store on disk.
    Store { file_name: String, content: String },
    /// Perform a stateless read.
    Call { connection: Connection, request: TransactionRequest },
    /// Estimate the gas.
    EstimateGas { connection: Connection, request: TransactionRequest },
    /// Sign with the credential and submit.
    Send { connection: Connection, request: TransactionRequest, credential: String },
    /// Wait for the receipt of the transaction.
    Receipt { connection: Connection, hash: String },
    /// Fetch the logs of the address in the range of blocks.
    Logs { connection: Connection, address: Address, from_block: u64, to_block: u64 },
}

/// What came back from an action.
#[derive(Debug)]
pub enum Response {
    /// The code, or the failure's text.
    Code(Result<Vec<u8>, String>),
    /// The content of the file, or none where it is absent or unreadable.
    CacheFile(Option<String>),
    /// The reply of the lookup service.
    Fetched(RemoteReply),
    /// The write was attempted; a failure of it is of no consequence.
    Stored,
    /// The response bytes, or the failure's text.
    Returned(Result<Vec<u8>, String>),
    /// The estimate, or the failure's text.
    Gas(Result<u64, String>),
    /// The hash of the submitted transaction behind `0x`, or the failure's text.
    Sent(Result<String, String>),
    /// The receipt, or the failure's text.
    Receipt(Result<Receipt, String>),
    /// The logs, or the failure's text.
    Logs(Result<Vec<LogRecord>, String>),
}

/// What an operation gives when it is done.
#[derive(Debug)]
pub enum Outcome {
    Info(ContractInfo),
    Call(CallResult),
    Gas(u64),
    Transaction(TransactionInfo),
    Events(Vec<EventInfo>),
    History(Vec<TransactionInfo>),
}

/// One step of an operation: it is done, or it asks for an action.
#[derive(Debug)]
pub enum Step {
    Done(Result<Outcome, EngineError>),
    Ask(Pending, Request),
}

/// The failure `e` with `prefix` before its message.
pub open spec fn prefixed(prefix: Seq<char>, e: ErrorView) -> ErrorView {
    ErrorView { kind: e.kind, message: prefix + e.message }
}

/// What is said where the function `name` is not among `names`.
pub open spec fn missing_function_message(name: Seq<char>, names: Seq<Seq<char>>) -> Seq<char> {
    if names.len() == 0 {
        "Function '"@ + name + "' not found. The contract ABI contains no functions."@
    } else {
        "Function '"@ + name + "' not found in contract ABI. Available functions: "@ + joined(
            names,
            ", "@,
        )
    }
}

/// What is said where the function `name` is not among `names`, in the course
/// of `purpose`.
pub open spec fn missing_function_for(name: Seq<char>, names: Seq<Seq<char>>, purpose: Seq<char>) -> Seq<
    char,
> {
    "Function '"@ + name + "' not found in contract ABI for "@ + purpose
        + ". Available functions: "@ + joined(names, ", "@)
}

/// The result of a read of `function`, given what came back.
pub open spec fn call_result_of(function: FunctionView, returned: Result<Vec<u8>, String>) -> CallResultView {
    match returned {
        Err(e) => failed(rpc_error_text(e@)),
        Ok(bytes) => match decoded_result(function, bytes@) {
            Ok(v) => CallResultView {
                success: true,
                result: Some(v),
                error: None,
                gas_used: None,
                transaction_hash: None,
            },
            Err(e) => CallResultView {
                success: false,
                result: Some(
                    JsonView::Object(
                        seq![
                            ("raw_result"@, JsonView::Text("0x"@ + hex_text(bytes@))),
                            ("decode_error"@, JsonView::Text(e.message)),
                        ],
                    ),
                ),
                error: Some("Failed to decode result: "@ + e.message),
                gas_used: None,
                transaction_hash: None,
            },
        },
    }
}

/// An object of two fields.
fn object2(k1: &str, v1: JsonValue, k2: &str, v2: JsonValue) -> (r: JsonValue)
    ensures
        r@ == JsonView::Object(seq![(k1@, v1@), (k2@, v2@)]),
{
    let mut fields: Vec<(String, JsonValue)> = Vec::new();
    fields.push((String::from_str(k1), v1));
    fields.push((String::from_str(k2), v2));
    proof {
        crate::json::object_view(fields);
        assert(crate::json::field_views(fields@) =~= seq![(k1@, v1@), (k2@, v2@)]);
    }
    JsonValue::Object(fields)
}

/// An object of three fields.
fn object3(k1: &str, v1: JsonValue, k2: &str, v2: JsonValue, k3: &str, v3: JsonValue) -> (r: JsonValue)
    ensures
        r@ == JsonView::Object(seq![(k1@, v1@), (k2@, v2@), (k3@, v3@)]),
{
    let mut fields: Vec<(String, JsonValue)> = Vec::new();
    fields.push((String::from_str(k1), v1));
    fields.push((String::from_str(k2), v2));
    fields.push((String::from_str(k3), v3));
    proof {
        crate::json::object_view(fields);
        assert(crate::json::field_views(fields@) =~= seq![(k1@, v1@), (k2@, v2@), (k3@, v3@)]);
    }
    JsonValue::Object(fields)
}

/// The result of a read of `function`, given what came back: the decoded
/// value; or, where the bytes cannot be decoded, the bytes themselves beside
/// the decoder's note; or the failure of the read in prose.
pub fn finish_call(function: &FunctionSignature, returned: &Result<Vec<u8>, String>) -> (r: CallResult)
    ensures
        r@ == call_result_of(function@, *returned),
{
    match returned {
        Err(e) => CallResult::failure(interpret_rpc_error(e.as_str())),
        Ok(bytes) => match decode_function_result(function, bytes.as_slice()) {
            Ok(v) => CallResult {
                success: true,
                result: Some(v),
                error: None,
                gas_used: None,
                transaction_hash: None,
            },
            Err(e) => {
                let note = e.message();
                CallResult {
                    success: false,
                    result: Some(
                        object2(
                            "raw_result",
                            JsonValue::Text(to_prefixed_hex(bytes.as_slice())),
                            "decode_error",
                            JsonValue::Text(note.clone()),
                        ),
                    ),
                    error: Some(concat("Failed to decode result: ", note.as_str())),
                    gas_used: None,
                    transaction_hash: None,
                }
            },
        },
    }
}

/// What is said where the function `name` is not in `abi`.
fn missing_function(abi: &InterfaceDescription, name: &str, purpose: Option<&str>) -> (e: EngineError)
    ensures
        e@.kind == ErrorKind::FunctionNotFound,
        e@.message == match purpose {
            None => missing_function_message(name@, names_of(abi@.functions)),
            Some(p) => missing_function_for(name@, names_of(abi@.functions), p@),
        },
{
    let names = abi.function_names();
    let mut m = String::from_str("Function '");
    m.append(name);
    match purpose {
        None => {
            if names.len() == 0 {
                m.append("' not found. The contract ABI contains no functions.");
            } else {
                m.append("' not found in contract ABI. Available functions: ");
                m.append(join(&names, ", ").as_str());
            }
        },
        Some(p) => {
            m.append("' not found in contract ABI for ");
            m.append(p);
            m.append(". Available functions: ");
            m.append(join(&names, ", ").as_str());
        },
    }
    EngineError::new(ErrorKind::FunctionNotFound, m)
}

/// The engine: the network registry and the resolver of interface
/// descriptions.
#[derive(Debug)]
pub struct ContractManager {
    pub provider_manager: ProviderManager,
    pub abi_resolver: AbiResolver,
}

/// The name of a network as an operation speaks of it.
pub open spec fn network_view(network: Option<String>) -> Option<Seq<char>> {
    match network {
        Some(n) => Some(n@),
        None => None,
    }
}

/// The request holds exactly this.
pub open spec fn request_is(
    r: TransactionRequest,
    to: Address,
    input: Seq<u8>,
    from: Option<Seq<u8>>,
    value: Option<nat>,
    gas_limit: Option<u64>,
    gas_price: Option<u128>,
) -> bool {
    &&& r.to.bytes@ == to.bytes@
    &&& r.input@ == input
    &&& match (r.from, from) {
        (Some(a), Some(b)) => a.bytes@ == b,
        (None, None) => true,
        _ => false,
    }
    &&& match (r.value, value) {
        (Some(a), Some(b)) => a.value() == b,
        (None, None) => true,
        _ => false,
    }
    &&& r.gas_limit == gas_limit
    &&& r.gas_price == gas_price
}

/// Two connections lead to the same place.
pub open spec fn same_connection(a: Connection, b: Connection) -> bool {
    a.network@ == b.network@ && a.rpc_url@ == b.rpc_url@
}

/// What planning a read gives, once the interface description is at hand or
/// known to be unavailable.
///
/// An unavailable description and parameters that do not encode end the read
/// with a result that reports the failure. A function that the description
/// lacks is an error. Otherwise the read is asked for.
pub open spec fn call_planned(task: Task, abi: Result<InterfaceView, ErrorView>, r: Step) -> bool {
    match abi {
        Err(e) => r matches Step::Done(Ok(Outcome::Call(c))) && c@ == failed(
            abi_error_text(e.message, task.contract_address@),
        ),
        Ok(d) => match function_named(d.functions, task.call.function_name@) {
            None => r matches Step::Done(Err(e)) && e@ == (ErrorView {
                kind: ErrorKind::FunctionNotFound,
                message: missing_function_message(
                    task.call.function_name@,
                    names_of(d.functions),
                ),
            }),
            Some(f) => match call_data(f, task.call.parameters@) {
                Err(e) => r matches Step::Done(Ok(Outcome::Call(c))) && c@ == failed(
                    "Failed to encode function call: "@ + e.message,
                ),
                Ok(data) => r matches Step::Ask(p, Request::Call { connection, request })
                    && p.task == task && same_connection(connection, task.connection)
                    && request_is(request, task.address, data, None, None, None, None) && (
                p.stage matches Stage::Call { function, gas } && function@ == f && gas is None),
            },
        },
    }
}

/// The sender that the call names, as its bytes.
pub open spec fn from_bytes(call: FunctionCall) -> Option<Seq<u8>> {
    match call.from {
        Some(s) => Some(hex_bytes(trimmed(s@).skip(2))),
        None => None,
    }
}

/// The amount that the call names.
pub open spec fn value_number(call: FunctionCall) -> Option<nat> {
    match call.value {
        Some(v) => number_of_text(v@),
        None => None,
    }
}

/// Why the sender that the call names is no address, if it names one that is none.
pub open spec fn from_failure(call: FunctionCall) -> Option<ErrorView> {
    match call.from {
        Some(s) => address_failure(s@),
        None => None,
    }
}

/// Why the amount that the call names is no number, if it names one that is none.
pub open spec fn amount_failure(call: FunctionCall) -> Option<ErrorView> {
    match call.value {
        Some(v) => value_failure(v@),
        None => None,
    }
}

/// The step asks for a gas estimate of the call of `f` with the call data
/// `data`, from the sender `from`, and keeps the request without a sender for
/// what follows.
pub open spec fn asks_estimate(task: Task, f: FunctionView, data: Seq<u8>, from: Option<Seq<u8>>, r: Step) -> bool {
    r matches Step::Ask(p, Request::EstimateGas { connection, request }) && p.task == task
        && same_connection(connection, task.connection) && request_is(
        request,
        task.address,
        data,
        from,
        value_number(task.call),
        None,
        None,
    ) && (p.stage matches Stage::Gas { function, request: kept } && function@ == f && request_is(
        kept,
        task.address,
        data,
        if task.kind == OperationKind::Send {
            None
        } else {
            from
        },
        value_number(task.call),
        None,
        None,
    ))
}

/// What planning a gas estimate gives. Every failure is an error.
pub open spec fn estimate_planned(task: Task, abi: Result<InterfaceView, ErrorView>, r: Step) -> bool {
    match abi {
        Err(e) => r matches Step::Done(Err(x)) && x@ == (ErrorView {
            kind: e.kind,
            message: "Could not resolve ABI for gas estimation: "@ + abi_error_text(
                e.message,
                task.contract_address@,
            ),
        }),
        Ok(d) => match function_named(d.functions, task.call.function_name@) {
            None => r matches Step::Done(Err(e)) && e@ == (ErrorView {
                kind: ErrorKind::FunctionNotFound,
                message: missing_function_for(
                    task.call.function_name@,
                    names_of(d.functions),
                    "gas estimation"@,
                ),
            }),
            Some(f) => match call_data(f, task.call.parameters@) {
                Err(e) => r matches Step::Done(Err(x)) && x@ == prefixed(
                    "Failed to encode function call for gas estimation: "@,
                    e,
                ),
                Ok(data) => if from_failure(task.call) is Some {
                    r matches Step::Done(Err(x)) && x@ == prefixed(
                        "Invalid 'from' address: "@,
                        from_failure(task.call)->0,
                    )
                } else if amount_failure(task.call) is Some {
                    r matches Step::Done(Err(x)) && x@ == prefixed(
                        "Invalid transaction value: "@,
                        amount_failure(task.call)->0,
                    )
                } else {
                    asks_estimate(task, f, data, from_bytes(task.call), r)
                },
            },
        },
    }
}

/// What planning a simulation gives. An unavailable description, parameters
/// that do not encode and a sender or an amount that cannot be read end the
/// simulation with a result that reports the failure; a function that the
/// description lacks is an error.
pub open spec fn simulate_planned(task: Task, abi: Result<InterfaceView, ErrorView>, r: Step) -> bool {
    match abi {
        Err(e) => r matches Step::Done(Ok(Outcome::Call(c))) && c@ == failed(
            abi_error_text(e.message, task.contract_address@),
        ),
        Ok(d) => match function_named(d.functions, task.call.function_name@) {
            None => r matches Step::Done(Err(e)) && e@ == (ErrorView {
                kind: ErrorKind::FunctionNotFound,
                message: missing_function_for(
                    task.call.function_name@,
                    names_of(d.functions),
                    "simulation"@,
                ),
            }),
            Some(f) => match call_data(f, task.call.parameters@) {
                Err(e) => r matches Step::Done(Ok(Outcome::Call(c))) && c@ == failed(
                    "Failed to encode function call: "@ + e.message,
                ),
                Ok(data) => if from_failure(task.call) is Some {
                    r matches Step::Done(Ok(Outcome::Call(c))) && c@ == failed(
                        "Invalid 'from' address for simulation: "@ + from_failure(
                            task.call,
                        )->0.message,
                    )
                } else if amount_failure(task.call) is Some {
                    r matches Step::Done(Ok(Outcome::Call(c))) && c@ == failed(
                        "Invalid transaction value for simulation: "@ + amount_failure(
                            task.call,
                        )->0.message,
                    )
                } else {
                    asks_estimate(task, f, data, from_bytes(task.call), r)
                },
            },
        },
    }
}

/// The gas price that the request sets, as text.
pub open spec fn price_text(task: Task) -> Option<Seq<char>> {
    match task.gas_price {
        Some(s) => Some(s@),
        None => None,
    }
}

/// What is said of a gas price that is a number but too large.
pub open spec fn price_too_large() -> ErrorView {
    ErrorView {
        kind: ErrorKind::NumericValue,
        message: "Invalid gas price: the value does not fit 128 bits"@,
    }
}

/// What pricing a transaction gives, once its gas limit `gas` is known: the
/// price that the request sets, else the ceiling of the network's gas policy.
/// A price that cannot be read is an error; otherwise the submission is asked
/// for.
pub open spec fn priced(task: Task, kept: TransactionRequest, gas: u64, r: Step) -> bool {
    match price_text(task) {
        Some(s) => if value_failure(s) is Some {
            r matches Step::Done(Err(x)) && x@ == prefixed(
                "Invalid gas price: "@,
                value_failure(s)->0,
            )
        } else if number_of_text(s)->0 >= pow2_64() * pow2_64() {
            r matches Step::Done(Err(x)) && x@ == price_too_large()
        } else {
            asks_submission(task, kept, gas, Some(number_of_text(s)->0 as u128), r)
        },
        None => asks_submission(
            task,
            kept,
            gas,
            match task.gas.max_gas_price {
                Some(ceiling) => Some(ceiling as u128),
                None => None,
            },
            r,
        ),
    }
}

/// The step asks for the submission of `kept` with the gas limit and price,
/// signed with the task's credential.
pub open spec fn asks_submission(
    task: Task,
    kept: TransactionRequest,
    gas: u64,
    price: Option<u128>,
    r: Step,
) -> bool {
    r matches Step::Ask(p, Request::Send { connection, request, credential }) && p.task == task
        && same_connection(connection, task.connection) && request.to.bytes@ == kept.to.bytes@
        && request.input@ == kept.input@ && request.from == kept.from && request.value
        == kept.value && request.gas_limit == Some(gas) && request.gas_price == price
        && credential@ == task.credential@ && p.stage is Submission
}

/// What planning a send gives. Every failure is an error. Where the request
/// sets no gas limit, an estimate is asked for first.
pub open spec fn send_planned(task: Task, abi: Result<InterfaceView, ErrorView>, r: Step) -> bool {
    match abi {
        Err(e) => r matches Step::Done(Err(x)) && x@ == (ErrorView {
            kind: e.kind,
            message: "Could not resolve ABI for transaction: "@ + abi_error_text(
                e.message,
                task.contract_address@,
            ),
        }),
        Ok(d) => match function_named(d.functions, task.call.function_name@) {
            None => r matches Step::Done(Err(e)) && e@ == (ErrorView {
                kind: ErrorKind::FunctionNotFound,
                message: missing_function_message(
                    task.call.function_name@,
                    names_of(d.functions),
                ),
            }),
            Some(f) => match call_data(f, task.call.parameters@) {
                Err(e) => r matches Step::Done(Err(x)) && x@ == prefixed(
                    "Failed to encode function call for transaction: "@,
                    e,
                ),
                Ok(data) => if amount_failure(task.call) is Some {
                    r matches Step::Done(Err(x)) && x@ == prefixed(
                        "Invalid transaction value: "@,
                        amount_failure(task.call)->0,
                    )
                } else {
                    match task.gas_limit {
                        Some(g) => exists|kept: TransactionRequest|
                            request_is(
                                kept,
                                task.address,
                                data,
                                None,
                                value_number(task.call),
                                None,
                                None,
                            ) && #[trigger] priced(task, kept, g, r),
                        None => asks_estimate(
                            task,
                            f,
                            data,
                            match task.sender {
                                Some(a) => Some(a.bytes@),
                                None => None,
                            },
                            r,
                        ),
                    }
                },
            },
        },
    }
}

/// The contract information of an inspection, given whether an interface
/// description could be had.
pub open spec fn inspected(task: Task, abi: Result<InterfaceView, ErrorView>, info: ContractInfo) -> bool {
    &&& info.address@ == crate::address::checksummed(task.address.bytes@)
    &&& info.name is None
    &&& info.abi@ == match abi {
        Ok(d) => d.document,
        Err(_) => "[]"@,
    }
    &&& info.bytecode is Some
    &&& info.bytecode->0@ == "0x"@ + hex_text(task.code@)
    &&& info.deployment_block is None
    &&& info.creator is None
    &&& info.verified == abi is Ok
}

/// What an operation does once the interface description is at hand or known
/// to be unavailable.
pub open spec fn planned(task: Task, abi: Result<InterfaceView, ErrorView>, r: Step) -> bool {
    match task.kind {
        OperationKind::Inspect => r matches Step::Done(Ok(Outcome::Info(info))) && inspected(
            task,
            abi,
            info,
        ),
        OperationKind::Call => call_planned(task, abi, r),
        OperationKind::Estimate => estimate_planned(task, abi, r),
        OperationKind::Simulate => simulate_planned(task, abi, r),
        OperationKind::Send => send_planned(task, abi, r),
        OperationKind::Events => r matches Step::Done(Err(e)) && e@ == unexpected(),
    }
}

/// What is said where a response does not answer what was asked.
pub open spec fn unexpected() -> ErrorView {
    ErrorView {
        kind: ErrorKind::NetworkAction,
        message: "The response does not answer the pending request"@,
    }
}

/// The outcome of resolving an interface description, as mathematical values.
pub open spec fn resolution(abi: Result<InterfaceDescription, EngineError>) -> Result<
    InterfaceView,
    ErrorView,
> {
    match abi {
        Ok(d) => Ok(d@),
        Err(e) => Err(e@),
    }
}

/// What the file of the store on disk leads to: a description that it holds
/// is kept in memory and the operation goes on with it; otherwise the lookup
/// service is asked, or the operation goes on without a description where the
/// network has no lookup service.
pub open spec fn cache_file_read(
    old_cache: Map<Seq<char>, InterfaceView>,
    new_cache: Map<Seq<char>, InterfaceView>,
    api_key: Option<Seq<char>>,
    task: Task,
    cache_key: Seq<char>,
    content: Option<String>,
    r: Step,
) -> bool {
    if content is Some && parsed_interface(content->0@) is Ok {
        let d = parsed_interface(content->0@)->Ok_0;
        new_cache == apply(old_cache, CacheEvent::Resolved(cache_key, d)) && planned(
            task,
            Ok(d),
            r,
        )
    } else {
        new_cache == old_cache && match service_of(task.connection.network@) {
            None => planned(
                task,
                Err(
                    ErrorView {
                        kind: ErrorKind::InterfaceUnavailable,
                        message: "Unsupported network for Etherscan: "@
                            + task.connection.network@,
                    },
                ),
                r,
            ),
            Some(base) => r matches Step::Ask(p, Request::Fetch { url }) && p.task == task
                && url@ == request_url(base, unicode_lowercase(task.contract_address@), api_key)
                && (p.stage matches Stage::Fetch { cache_key: k } && k@ == cache_key),
        }
    }
}

/// What the reply of the lookup service leads to: a description that it
/// carries is kept in memory and its write to the store on disk is asked for;
/// otherwise the operation goes on without a description.
pub open spec fn reply_read(
    old_cache: Map<Seq<char>, InterfaceView>,
    new_cache: Map<Seq<char>, InterfaceView>,
    task: Task,
    cache_key: Seq<char>,
    reply: RemoteReply,
    r: Step,
) -> bool {
    match reply_outcome(reply) {
        Err(e) => new_cache == old_cache && planned(task, Err(e), r),
        Ok(d) => new_cache == apply(old_cache, CacheEvent::Resolved(cache_key, d)) && (
        r matches Step::Ask(p, Request::Store { file_name, content }) && p.task == task
            && file_name@ == file_of(cache_key) && content@ == d.document && (
        p.stage matches Stage::Store { abi } && abi@ == d)),
    }
}

/// The result of a simulation whose gas estimate failed for the reason `why`.
pub open spec fn estimate_failed(why: Seq<char>) -> CallResultView {
    CallResultView {
        success: false,
        result: Some(
            JsonView::Object(
                seq![
                    ("simulated"@, JsonView::Bool(true)),
                    ("gas_estimation_failed"@, JsonView::Bool(true)),
                    ("error"@, JsonView::Text(why)),
                ],
            ),
        ),
        error: Some("Gas estimation failed (transaction would likely revert): "@ + why),
        gas_used: None,
        transaction_hash: None,
    }
}

/// The result of a simulation of `function` whose gas estimate is `gas`,
/// given what the read gave.
pub open spec fn simulation_result_of(function: FunctionView, gas: u64, returned: Result<Vec<u8>, String>) -> CallResultView {
    match returned {
        Ok(bytes) => CallResultView {
            success: true,
            result: Some(
                JsonView::Object(
                    seq![
                        ("simulated"@, JsonView::Bool(true)),
                        (
                            "result"@,
                            match decoded_result(function, bytes@) {
                                Ok(v) => v,
                                Err(_) => JsonView::Object(
                                    seq![("raw_result"@, JsonView::Text("0x"@ + hex_text(bytes@)))],
                                ),
                            },
                        ),
                        ("would_succeed"@, JsonView::Bool(true)),
                    ],
                ),
            ),
            error: None,
            gas_used: Some(gas),
            transaction_hash: None,
        },
        Err(e) => CallResultView {
            success: false,
            result: Some(
                JsonView::Object(
                    seq![
                        ("simulated"@, JsonView::Bool(true)),
                        ("would_succeed"@, JsonView::Bool(false)),
                        ("revert_reason"@, JsonView::Text(rpc_error_text(e@))),
                    ],
                ),
            ),
            error: Some("Transaction simulation failed: "@ + rpc_error_text(e@)),
            gas_used: Some(gas),
            transaction_hash: None,
        },
    }
}

/// What the gas estimate leads to. An estimate ends an estimation. In a
/// simulation a failed estimate means that the transaction would revert, and
/// the read is asked for only after an estimate. In a send a failed estimate
/// gives way to the default gas limit of the network.
pub open spec fn estimated(task: Task, function: FunctionSignature, kept: TransactionRequest, gas: Result<u64, String>, r: Step) -> bool {
    match task.kind {
        OperationKind::Estimate => match gas {
            Ok(g) => r matches Step::Done(Ok(Outcome::Gas(x))) && x == g,
            Err(e) => r matches Step::Done(Err(x)) && x@ == (ErrorView {
                kind: ErrorKind::NetworkAction,
                message: "Gas estimation failed: "@ + rpc_error_text(e@),
            }),
        },
        OperationKind::Simulate => match gas {
            Err(e) => r matches Step::Done(Ok(Outcome::Call(c))) && c@ == estimate_failed(
                rpc_error_text(e@),
            ),
            Ok(g) => r matches Step::Ask(p, Request::Call { connection, request }) && p.task
                == task && same_connection(connection, task.connection) && request.to.bytes@
                == kept.to.bytes@ && request.input@ == kept.input@ && request.from == kept.from
                && request.value == kept.value && request.gas_limit == kept.gas_limit
                && request.gas_price == kept.gas_price && (
            p.stage matches Stage::Call { function: f, gas: known } && f@ == function@ && known
                == Some(g)),
        },
        OperationKind::Send => priced(
            task,
            kept,
            match gas {
                Ok(g) => g,
                Err(_) => task.gas.default_gas_limit,
            },
            r,
        ),
        _ => r matches Step::Done(Err(e)) && e@ == unexpected(),
    }
}

/// What is said where no code stands at the address.
pub open spec fn not_deployed_message(task: Task) -> Seq<char> {
    "No contract found at address '"@ + task.contract_address@ + "' on network '"@ + (
    match task.network {
        Some(n) => n@,
        None => "default"@,
    }) + "'. The address may be incorrect, or the contract may not be deployed yet."@
}

/// The record of a confirmed send.
pub open spec fn confirmed(task: Task, hash: Seq<char>, receipt: Receipt, info: TransactionInfo) -> bool {
    &&& info.hash@ == hash
    &&& info.from@ == "0x"@ + hex_text(
        match task.sender {
            Some(a) => a.bytes@,
            None => Seq::empty(),
        },
    )
    &&& info.to is Some
    &&& info.to->0@ == "0x"@ + hex_text(task.address.bytes@)
    &&& info.value@ == match task.call.value {
        Some(v) => v@,
        None => "0"@,
    }
    &&& info.gas_used == receipt.gas_used
    &&& info.gas_price@ == decimal(receipt.effective_gas_price as nat)
    &&& info.block_number == match receipt.block_number {
        Some(b) => b,
        None => 0,
    }
    &&& info.timestamp == 0
    &&& info.status == receipt.status
}

/// The event that the log `log` at position `index` is reported as.
pub open spec fn reported(log: LogRecord, index: int, event: EventInfo) -> bool {
    &&& event.address@ == "0x"@ + hex_text(log.address.bytes@)
    &&& event.topics.len() == log.topics.len()
    &&& forall|k: int|
        0 <= k < log.topics.len() ==> (#[trigger] event.topics@[k])@ == "0x"@ + hex_text(
            log.topics@[k]@,
        )
    &&& event.data@ == "0x"@ + hex_text(log.data@)
    &&& event.block_number == match log.block_number {
        Some(b) => b,
        None => 0,
    }
    &&& event.transaction_hash@ == "0x"@ + hex_text(
        match log.transaction_hash {
            Some(h) => h@,
            None => Seq::new(32, |i: int| 0u8),
        },
    )
    &&& event.log_index == index
    &&& event.decoded is None
}

/// The task carries what the call holds.
pub open spec fn carries(t: Task, call: FunctionCall) -> bool {
    &&& t.call.function_name@ == call.function_name@
    &&& t.call.parameters@ == call.parameters@
    &&& match (t.call.from, call.from) {
        (Some(a), Some(b)) => a@ == b@,
        (None, None) => true,
        _ => false,
    }
    &&& match (t.call.value, call.value) {
        (Some(a), Some(b)) => a@ == b@,
        (None, None) => true,
        _ => false,
    }
}

/// The signing key that the text `s` gives: trimmed, and without its `0x`.
pub open spec fn key_text(s: Seq<char>) -> Seq<char> {
    crate::hexadecimal::without_prefix(trimmed(s))
}

/// What a response leads to, given what the operation waited for. A response
/// that does not answer what was asked ends the operation with an error.
pub open spec fn resumed(
    before: ContractManager,
    after: ContractManager,
    pending: Pending,
    response: Response,
    r: Step,
) -> bool {
    match (pending.stage, response) {
        (Stage::Code, Response::Code(code)) => after.abi_resolver.cache()
            == before.abi_resolver.cache() && (match code {
            Err(e) => r matches Step::Done(Err(x)) && x@ == (ErrorView {
                kind: ErrorKind::NetworkAction,
                message: "Failed to fetch contract bytecode: "@ + rpc_error_text(e@),
            }),
            Ok(bytes) => if bytes@.len() == 0 {
                r matches Step::Done(Err(x)) && x@ == (ErrorView {
                    kind: ErrorKind::NotDeployed,
                    message: not_deployed_message(pending.task),
                })
            } else {
                before.resolving(Task { code: bytes, ..pending.task }, r)
            },
        }),
        (Stage::CacheFile { cache_key }, Response::CacheFile(content)) => cache_file_read(
            before.abi_resolver.cache(),
            after.abi_resolver.cache(),
            before.abi_resolver.api_key(),
            pending.task,
            cache_key@,
            content,
            r,
        ),
        (Stage::Fetch { cache_key }, Response::Fetched(reply)) => reply_read(
            before.abi_resolver.cache(),
            after.abi_resolver.cache(),
            pending.task,
            cache_key@,
            reply,
            r,
        ),
        (Stage::Store { abi }, Response::Stored) => after.abi_resolver.cache()
            == before.abi_resolver.cache() && planned(pending.task, Ok(abi@), r),
        (Stage::Gas { function, request }, Response::Gas(gas)) => after.abi_resolver.cache()
            == before.abi_resolver.cache() && estimated(pending.task, function, request, gas, r),
        (Stage::Call { function, gas }, Response::Returned(returned)) => after.abi_resolver.cache()
            == before.abi_resolver.cache() && (r matches Step::Done(Ok(Outcome::Call(c))) && c@
            == match gas {
            None => call_result_of(function@, returned),
            Some(g) => simulation_result_of(function@, g, returned),
        }),
        (Stage::Submission, Response::Sent(sent)) => after.abi_resolver.cache()
            == before.abi_resolver.cache() && (match sent {
            Ok(hash) => r matches Step::Ask(p, Request::Receipt { connection, hash: asked })
                && p.task == pending.task && same_connection(connection, pending.task.connection)
                && asked@ == hash@ && (p.stage matches Stage::Receipt { hash: kept } && kept@
                == hash@),
            Err(e) => r matches Step::Done(Err(x)) && x@ == (ErrorView {
                kind: ErrorKind::NetworkAction,
                message: "Failed to send transaction: "@ + rpc_error_text(e@),
            }),
        }),
        (Stage::Receipt { hash }, Response::Receipt(receipt)) => after.abi_resolver.cache()
            == before.abi_resolver.cache() && (match receipt {
            Ok(x) => r matches Step::Done(Ok(Outcome::Transaction(info))) && confirmed(
                pending.task,
                hash@,
                x,
                info,
            ),
            Err(e) => r matches Step::Done(Err(x)) && x@ == (ErrorView {
                kind: ErrorKind::ReceiptUnavailable,
                message: "Transaction was sent but confirmation failed: "@ + e@
                    + ". Transaction hash: "@ + hash@,
            }),
        }),
        (Stage::Logs, Response::Logs(logs)) => after.abi_resolver.cache()
            == before.abi_resolver.cache() && (match logs {
            Ok(list) => r matches Step::Done(Ok(Outcome::Events(events))) && events.len()
                == list.len() && forall|i: int|
                0 <= i < list.len() ==> reported(list@[i], i, #[trigger] events@[i]),
            Err(e) => r matches Step::Done(Err(x)) && x@ == (ErrorView {
                kind: ErrorKind::NetworkAction,
                message: e@,
            }),
        }),
        _ => after.abi_resolver.cache() == before.abi_resolver.cache() && (
        r matches Step::Done(Err(e)) && e@ == unexpected()),
    }
}

impl ContractManager {
    /// An engine over the given registry, with a resolver that has nothing in
    /// memory.
    pub fn new(provider_manager: ProviderManager, source: AbiSource) -> (r: Self)
        ensures
            r.provider_manager == provider_manager,
            r.abi_resolver.cache() == Map::<Seq<char>, InterfaceView>::empty(),
            r.abi_resolver.store() == source.cache_dir@,
            r.abi_resolver.default_network() == provider_manager.default_network(),
            r.abi_resolver.api_key() == match source.etherscan_api_key {
                Some(k) => Some(k@),
                None => None,
            },
    {
        let default_network = provider_manager.default_network_name();
        ContractManager {
            provider_manager,
            abi_resolver: AbiResolver::new(source, default_network.as_str()),
        }
    }

    /// Plans a read.
    pub fn plan_call(task: Task, abi: Result<InterfaceDescription, EngineError>) -> (r: Step)
        ensures
            call_planned(task, resolution(abi), r),
    {
        match abi {
            Err(e) => Step::Done(
                Ok(
                    Outcome::Call(
                        CallResult::failure(
                            interpret_abi_error(e.message.as_str(), task.contract_address.as_str()),
                        ),
                    ),
                ),
            ),
            Ok(d) => match d.find_function(task.call.function_name.as_str()) {
                None => Step::Done(
                    Err(missing_function(&d, task.call.function_name.as_str(), None)),
                ),
                Some(f) => match encode_function_call(f, &task.call.parameters) {
                    Err(e) => Step::Done(
                        Ok(
                            Outcome::Call(
                                CallResult::failure(
                                    concat("Failed to encode function call: ", e.message.as_str()),
                                ),
                            ),
                        ),
                    ),
                    Ok(data) => {
                        let request = TransactionRequest {
                            to: task.address,
                            input: data,
                            from: None,
                            value: None,
                            gas_limit: None,
                            gas_price: None,
                        };
                        let connection = task.connection.clone();
                        let function = f.clone();
                        Step::Ask(
                            Pending { task, stage: Stage::Call { function, gas: None } },
                            Request::Call { connection, request },
                        )
                    },
                },
            },
        }
    }

    /// The sender and the amount that the call names, or which of the two
    /// cannot be read and why.
    fn sender_and_amount(call: &FunctionCall) -> (r: Result<(Option<Address>, Option<U256>), (bool, EngineError)>)
        ensures
            match r {
                Ok(p) => from_failure(*call) is None && amount_failure(*call) is None && (match (
                    p.0,
                    from_bytes(*call),
                ) {
                    (Some(a), Some(b)) => a.bytes@ == b,
                    (None, None) => true,
                    _ => false,
                }) && (match (p.1, value_number(*call)) {
                    (Some(a), Some(b)) => a.value() == b,
                    (None, None) => true,
                    _ => false,
                }),
                Err(p) => if p.0 {
                    from_failure(*call) == Some(p.1@)
                } else {
                    from_failure(*call) is None && amount_failure(*call) == Some(p.1@)
                },
            },
    {
        let from = match &call.from {
            Some(s) => match validate_address(s.as_str()) {
                Ok(a) => Some(a),
                Err(e) => {
                    return Err((true, e));
                },
            },
            None => None,
        };
        let value = match &call.value {
            Some(v) => match validate_hex_value(v.as_str()) {
                Ok(n) => Some(n),
                Err(e) => {
                    return Err((false, e));
                },
            },
            None => None,
        };
        Ok((from, value))
    }

    /// Asks for the gas estimate of the call of `f` with the call data `data`.
    fn ask_estimate(
        task: Task,
        f: &FunctionSignature,
        data: Vec<u8>,
        from: Option<Address>,
        value: Option<U256>,
    ) -> (r: Step)
        requires
            match (value, value_number(task.call)) {
                (Some(a), Some(b)) => a.value() == b,
                (None, None) => true,
                _ => false,
            },
        ensures
            asks_estimate(
                task,
                f@,
                data@,
                match from {
                    Some(a) => Some(a.bytes@),
                    None => None,
                },
                r,
            ),
    {
        let kept = TransactionRequest {
            to: task.address,
            input: data.clone(),
            from: match task.kind {
                OperationKind::Send => None,
                _ => from,
            },
            value,
            gas_limit: None,
            gas_price: None,
        };
        let request = TransactionRequest {
            to: task.address,
            input: data,
            from,
            value,
            gas_limit: None,
            gas_price: None,
        };
        let connection = task.connection.clone();
        let function = f.clone();
        Step::Ask(
            Pending { task, stage: Stage::Gas { function, request: kept } },
            Request::EstimateGas { connection, request },
        )
    }

    /// Plans a gas estimate.
    pub fn plan_estimate(task: Task, abi: Result<InterfaceDescription, EngineError>) -> (r: Step)
        ensures
            estimate_planned(task, resolution(abi), r),
    {
        match abi {
            Err(e) => {
                let mut m = String::from_str("Could not resolve ABI for gas estimation: ");
                m.append(
                    interpret_abi_error(
                        e.message.as_str(),
                        task.contract_address.as_str(),
                    ).as_str(),
                );
                Step::Done(Err(EngineError::new(e.kind, m)))
            },
            Ok(d) => match d.find_function(task.call.function_name.as_str()) {
                None => Step::Done(
                    Err(
                        missing_function(
                            &d,
                            task.call.function_name.as_str(),
                            Some("gas estimation"),
                        ),
                    ),
                ),
                Some(f) => match encode_function_call(f, &task.call.parameters) {
                    Err(e) => Step::Done(
                        Err(e.context("Failed to encode function call for gas estimation: ")),
                    ),
                    Ok(data) => match Self::sender_and_amount(&task.call) {
                        Err(p) => if p.0 {
                            Step::Done(Err(p.1.context("Invalid 'from' address: ")))
                        } else {
                            Step::Done(Err(p.1.context("Invalid transaction value: ")))
                        },
                        Ok(p) => Self::ask_estimate(task, f, data, p.0, p.1),
                    },
                },
            },
        }
    }

    /// Plans a simulation.
    pub fn plan_simulate(task: Task, abi: Result<InterfaceDescription, EngineError>) -> (r: Step)
        ensures
            simulate_planned(task, resolution(abi), r),
    {
        match abi {
            Err(e) => Step::Done(
                Ok(
                    Outcome::Call(
                        CallResult::failure(
                            interpret_abi_error(e.message.as_str(), task.contract_address.as_str()),
                        ),
                    ),
                ),
            ),
            Ok(d) => match d.find_function(task.call.function_name.as_str()) {
                None => Step::Done(
                    Err(
                        missing_function(&d, task.call.function_name.as_str(), Some("simulation")),
                    ),
                ),
                Some(f) => match encode_function_call(f, &task.call.parameters) {
                    Err(e) => Step::Done(
                        Ok(
                            Outcome::Call(
                                CallResult::failure(
                                    concat("Failed to encode function call: ", e.message.as_str()),
                                ),
                            ),
                        ),
                    ),
                    Ok(data) => match Self::sender_and_amount(&task.call) {
                        Err(p) => if p.0 {
                            Step::Done(
                                Ok(
                                    Outcome::Call(
                                        CallResult::failure(
                                            concat(
                                                "Invalid 'from' address for simulation: ",
                                                p.1.message.as_str(),
                                            ),
                                        ),
                                    ),
                                ),
                            )
                        } else {
                            Step::Done(
                                Ok(
                                    Outcome::Call(
                                        CallResult::failure(
                                            concat(
                                                "Invalid transaction value for simulation: ",
                                                p.1.message.as_str(),
                                            ),
                                        ),
                                    ),
                                ),
                            )
                        },
                        Ok(p) => Self::ask_estimate(task, f, data, p.0, p.1),
                    },
                },
            },
        }
    }

    /// Prices a transaction whose gas limit is known, and asks for its
    /// submission.
    pub fn price(task: Task, kept: TransactionRequest, gas: u64) -> (r: Step)
        ensures
            priced(task, kept, gas, r),
    {
        let price: Option<u128> = match &task.gas_price {
            Some(s) => match validate_hex_value(s.as_str()) {
                Err(e) => {
                    return Step::Done(Err(e.context("Invalid gas price: ")));
                },
                Ok(n) => match n.to_u128() {
                    Some(p) => Some(p),
                    None => {
                        return Step::Done(
                            Err(
                                EngineError::new(
                                    ErrorKind::NumericValue,
                                    String::from_str(
                                        "Invalid gas price: the value does not fit 128 bits",
                                    ),
                                ),
                            ),
                        );
                    },
                },
            },
            None => match task.gas.max_gas_price {
                Some(p) => Some(p as u128),
                None => None,
            },
        };
        let credential = task.credential.clone();
        let request = TransactionRequest {
            to: kept.to,
            input: kept.input,
            from: kept.from,
            value: kept.value,
            gas_limit: Some(gas),
            gas_price: price,
        };
        let connection = task.connection.clone();
        Step::Ask(
            Pending { task, stage: Stage::Submission },
            Request::Send { connection, request, credential },
        )
    }

    /// Plans a send.
    pub fn plan_send(task: Task, abi: Result<InterfaceDescription, EngineError>) -> (r: Step)
        ensures
            send_planned(task, resolution(abi), r),
    {
        match abi {
            Err(e) => {
                let mut m = String::from_str("Could not resolve ABI for transaction: ");
                m.append(
                    interpret_abi_error(
                        e.message.as_str(),
                        task.contract_address.as_str(),
                    ).as_str(),
                );
                Step::Done(Err(EngineError::new(e.kind, m)))
            },
            Ok(d) => match d.find_function(task.call.function_name.as_str()) {
                None => Step::Done(
                    Err(missing_function(&d, task.call.function_name.as_str(), None)),
                ),
                Some(f) => match encode_function_call(f, &task.call.parameters) {
                    Err(e) => Step::Done(
                        Err(e.context("Failed to encode function call for transaction: ")),
                    ),
                    Ok(data) => {
                        let value = match &task.call.value {
                            Some(v) => match validate_hex_value(v.as_str()) {
                                Ok(n) => Some(n),
                                Err(e) => {
                                    return Step::Done(
                                        Err(e.context("Invalid transaction value: ")),
                                    );
                                },
                            },
                            None => None,
                        };
                        match task.gas_limit {
                            Some(g) => {
                                let kept = TransactionRequest {
                                    to: task.address,
                                    input: data,
                                    from: None,
                                    value,
                                    gas_limit: None,
                                    gas_price: None,
                                };
                                let r = Self::price(task, kept, g);
                                proof {
                                    assert(priced(task, kept, g, r));
                                }
                                r
                            },
                            None => {
                                let sender = task.sender;
                                Self::ask_estimate(task, f, data, sender, value)
                            },
                        }
                    },
                },
            },
        }
    }

    /// Finishes an inspection.
    pub fn plan_inspect(task: Task, abi: Result<InterfaceDescription, EngineError>) -> (r: Step)
        ensures
            r matches Step::Done(Ok(Outcome::Info(info))) && inspected(
                task,
                resolution(abi),
                info,
            ),
    {
        let (document, verified) = match abi {
            Ok(d) => (d.document, true),
            Err(_) => (String::from_str("[]"), false),
        };
        Step::Done(
            Ok(
                Outcome::Info(
                    ContractInfo {
                        address: task.address.to_checksum(),
                        name: None,
                        abi: document,
                        bytecode: Some(to_prefixed_hex(task.code.as_slice())),
                        deployment_block: None,
                        creator: None,
                        verified,
                    },
                ),
            ),
        )
    }

    /// What is said where a response does not answer what was asked.
    fn out_of_turn() -> (r: Step)
        ensures
            r matches Step::Done(Err(e)) && e@ == unexpected(),
    {
        Step::Done(
            Err(
                EngineError::new(
                    ErrorKind::NetworkAction,
                    String::from_str("The response does not answer the pending request"),
                ),
            ),
        )
    }

    /// Goes on with an operation once the interface description is at hand or
    /// known to be unavailable.
    pub fn plan(task: Task, abi: Result<InterfaceDescription, EngineError>) -> (r: Step)
        ensures
            planned(task, resolution(abi), r),
    {
        match task.kind {
            OperationKind::Inspect => Self::plan_inspect(task, abi),
            OperationKind::Call => Self::plan_call(task, abi),
            OperationKind::Estimate => Self::plan_estimate(task, abi),
            OperationKind::Simulate => Self::plan_simulate(task, abi),
            OperationKind::Send => Self::plan_send(task, abi),
            OperationKind::Events => Self::out_of_turn(),
        }
    }

    /// What resolving the interface description for `task` begins with: with
    /// the description from memory the operation goes on at once; without it
    /// the file of the store on disk is asked for. The description is kept
    /// under the name of the network that the task is routed to: the given
    /// one, or the default network where none was given.
    pub open spec fn resolving(&self, task: Task, r: Step) -> bool {
        let key = key_of(task.contract_address@, task.connection.network@);
        if self.abi_resolver.cache().contains_key(key) {
            planned(task, Ok(self.abi_resolver.cache()[key]), r)
        } else {
            r matches Step::Ask(p, Request::ReadCache { file_name }) && p.task == task
                && file_name@ == file_of(key) && (p.stage matches Stage::CacheFile { cache_key }
                && cache_key@ == key)
        }
    }

    /// Begins to resolve the interface description for `task`.
    pub fn resolve(&self, task: Task) -> (r: Step)
        ensures
            self.resolving(task, r),
    {
        let lookup = self.abi_resolver.get_abi(
            task.contract_address.as_str(),
            Some(task.connection.network.as_str()),
        );
        match lookup {
            AbiLookup::Cached(d) => Self::plan(task, Ok(d)),
            AbiLookup::ReadCache { cache_key, file_name } => Step::Ask(
                Pending { task, stage: Stage::CacheFile { cache_key } },
                Request::ReadCache { file_name },
            ),
        }
    }

    /// Takes the content of the file of the store on disk.
    pub fn on_cache_file(&mut self, task: Task, cache_key: String, content: Option<String>) -> (r: Step)
        ensures
            cache_file_read(
                old(self).abi_resolver.cache(),
                final(self).abi_resolver.cache(),
                old(self).abi_resolver.api_key(),
                task,
                cache_key@,
                content,
                r,
            ),
            final(self).provider_manager == old(self).provider_manager,
            final(self).abi_resolver.api_key() == old(self).abi_resolver.api_key(),
            final(self).abi_resolver.store() == old(self).abi_resolver.store(),
            final(self).abi_resolver.default_network()
                == old(self).abi_resolver.default_network(),
    {
        let loaded = match &content {
            Some(text) => self.abi_resolver.load_cached_abi(cache_key.as_str(), Some(text.as_str())),
            None => self.abi_resolver.load_cached_abi(cache_key.as_str(), None),
        };
        match loaded {
            Some(d) => Self::plan(task, Ok(d)),
            None => {
                let address = lowercase(task.contract_address.as_str());
                let url = self.abi_resolver.fetch_from_etherscan(
                    address.as_str(),
                    Some(task.connection.network.as_str()),
                );
                match url {
                    Ok(url) => Step::Ask(
                        Pending { task, stage: Stage::Fetch { cache_key } },
                        Request::Fetch { url },
                    ),
                    Err(e) => Self::plan(task, Err(e)),
                }
            },
        }
    }

    /// Takes the reply of the lookup service.
    pub fn on_fetched(&mut self, task: Task, cache_key: String, reply: RemoteReply) -> (r: Step)
        ensures
            reply_read(
                old(self).abi_resolver.cache(),
                final(self).abi_resolver.cache(),
                task,
                cache_key@,
                reply,
                r,
            ),
            final(self).provider_manager == old(self).provider_manager,
            final(self).abi_resolver.api_key() == old(self).abi_resolver.api_key(),
            final(self).abi_resolver.store() == old(self).abi_resolver.store(),
            final(self).abi_resolver.default_network()
                == old(self).abi_resolver.default_network(),
    {
        match AbiResolver::read_reply(&reply) {
            Err(e) => Self::plan(task, Err(e)),
            Ok(d) => {
                let write = self.abi_resolver.cache_abi(cache_key.as_str(), &d);
                Step::Ask(
                    Pending { task, stage: Stage::Store { abi: d } },
                    Request::Store { file_name: write.file_name, content: write.content },
                )
            },
        }
    }

    /// Takes the code at the address of an inspection: a failure to fetch it
    /// and an address without code end the inspection; with code, the
    /// interface description is resolved.
    pub fn on_code(&self, task: Task, code: Result<Vec<u8>, String>) -> (r: Step)
        ensures
            match code {
                Err(e) => r matches Step::Done(Err(x)) && x@ == (ErrorView {
                    kind: ErrorKind::NetworkAction,
                    message: "Failed to fetch contract bytecode: "@ + rpc_error_text(e@),
                }),
                Ok(bytes) => if bytes@.len() == 0 {
                    r matches Step::Done(Err(x)) && x@ == (ErrorView {
                        kind: ErrorKind::NotDeployed,
                        message: not_deployed_message(task),
                    })
                } else {
                    self.resolving(Task { code: bytes, ..task }, r)
                },
            },
    {
        match code {
            Err(e) => Step::Done(
                Err(
                    EngineError::new(
                        ErrorKind::NetworkAction,
                        concat(
                            "Failed to fetch contract bytecode: ",
                            interpret_rpc_error(e.as_str()).as_str(),
                        ),
                    ),
                ),
            ),
            Ok(bytes) => {
                if bytes.len() == 0 {
                    let mut m = String::from_str("No contract found at address '");
                    m.append(task.contract_address.as_str());
                    m.append("' on network '");
                    match &task.network {
                        Some(n) => {
                            m.append(n.as_str());
                        },
                        None => {
                            m.append("default");
                        },
                    }
                    m.append(
                        "'. The address may be incorrect, or the contract may not be deployed yet.",
                    );
                    Step::Done(Err(EngineError::new(ErrorKind::NotDeployed, m)))
                } else {
                    let mut task = task;
                    task.code = bytes;
                    self.resolve(task)
                }
            },
        }
    }

    /// Takes the gas estimate.
    pub fn on_gas(task: Task, function: FunctionSignature, kept: TransactionRequest, gas: Result<u64, String>) -> (r: Step)
        ensures
            estimated(task, function, kept, gas, r),
    {
        match task.kind {
            OperationKind::Estimate => match gas {
                Ok(g) => Step::Done(Ok(Outcome::Gas(g))),
                Err(e) => Step::Done(
                    Err(
                        EngineError::new(
                            ErrorKind::NetworkAction,
                            concat(
                                "Gas estimation failed: ",
                                interpret_rpc_error(e.as_str()).as_str(),
                            ),
                        ),
                    ),
                ),
            },
            OperationKind::Simulate => match gas {
                Err(e) => {
                    let why = interpret_rpc_error(e.as_str());
                    Step::Done(
                        Ok(
                            Outcome::Call(
                                CallResult {
                                    success: false,
                                    result: Some(
                                        object3(
                                            "simulated",
                                            JsonValue::Bool(true),
                                            "gas_estimation_failed",
                                            JsonValue::Bool(true),
                                            "error",
                                            JsonValue::Text(why.clone()),
                                        ),
                                    ),
                                    error: Some(
                                        concat(
                                            "Gas estimation failed (transaction would likely revert): ",
                                            why.as_str(),
                                        ),
                                    ),
                                    gas_used: None,
                                    transaction_hash: None,
                                },
                            ),
                        ),
                    )
                },
                Ok(g) => {
                    let connection = task.connection.clone();
                    Step::Ask(
                        Pending { task, stage: Stage::Call { function, gas: Some(g) } },
                        Request::Call { connection, request: kept },
                    )
                },
            },
            OperationKind::Send => {
                let limit = match gas {
                    Ok(g) => g,
                    Err(_) => task.gas.default_gas_limit,
                };
                Self::price(task, kept, limit)
            },
            _ => Self::out_of_turn(),
        }
    }

    /// The result of a simulation of `function` whose gas estimate is `gas`,
    /// given what the read gave.
    pub fn finish_simulation(function: &FunctionSignature, gas: u64, returned: &Result<Vec<u8>, String>) -> (r: CallResult)
        ensures
            r@ == simulation_result_of(function@, gas, *returned),
    {
        match returned {
            Ok(bytes) => {
                let decoded = match decode_function_result(function, bytes.as_slice()) {
                    Ok(v) => v,
                    Err(_) => {
                        let mut fields: Vec<(String, JsonValue)> = Vec::new();
                        fields.push(
                            (
                                String::from_str("raw_result"),
                                JsonValue::Text(to_prefixed_hex(bytes.as_slice())),
                            ),
                        );
                        proof {
                            crate::json::object_view(fields);
                            assert(crate::json::field_views(fields@) =~= seq![
                                ("raw_result"@, JsonView::Text("0x"@ + hex_text(bytes@))),
                            ]);
                        }
                        JsonValue::Object(fields)
                    },
                };
                proof {
                    assert(decoded@ == (match decoded_result(function@, bytes@) {
                        Ok(v) => v,
                        Err(_) => JsonView::Object(
                            seq![("raw_result"@, JsonView::Text("0x"@ + hex_text(bytes@)))],
                        ),
                    }));
                }
                let ghost inner = decoded@;
                let envelope = object3(
                    "simulated",
                    JsonValue::Bool(true),
                    "result",
                    decoded,
                    "would_succeed",
                    JsonValue::Bool(true),
                );
                proof {
                    assert(envelope@ == JsonView::Object(
                        seq![
                            ("simulated"@, JsonView::Bool(true)),
                            ("result"@, inner),
                            ("would_succeed"@, JsonView::Bool(true)),
                        ],
                    ));
                    let expected = simulation_result_of(function@, gas, *returned).result->0;
                    assert(expected is Object);
                    assert(expected->Object_0.len() == 3);
                    assert(expected->Object_0[0] == ("simulated"@, JsonView::Bool(true)));
                    assert(expected->Object_0[1] == ("result"@, inner));
                    assert(expected->Object_0[2] == ("would_succeed"@, JsonView::Bool(true)));
                    assert(expected->Object_0 =~= envelope@->Object_0);
                    assert(envelope@ == expected);
                }
                CallResult {
                    success: true,
                    result: Some(envelope),
                    error: None,
                    gas_used: Some(gas),
                    transaction_hash: None,
                }
            },
            Err(e) => {
                let why = interpret_rpc_error(e.as_str());
                CallResult {
                    success: false,
                    result: Some(
                        object3(
                            "simulated",
                            JsonValue::Bool(true),
                            "would_succeed",
                            JsonValue::Bool(false),
                            "revert_reason",
                            JsonValue::Text(why.clone()),
                        ),
                    ),
                    error: Some(concat("Transaction simulation failed: ", why.as_str())),
                    gas_used: Some(gas),
                    transaction_hash: None,
                }
            },
        }
    }

    /// Takes what a read gave: the result of a read, or of a simulation where
    /// a gas estimate `gas` came before.
    pub fn on_returned(function: &FunctionSignature, gas: Option<u64>, returned: &Result<Vec<u8>, String>) -> (r: Step)
        ensures
            r matches Step::Done(Ok(Outcome::Call(c))) && c@ == match gas {
                None => call_result_of(function@, *returned),
                Some(g) => simulation_result_of(function@, g, *returned),
            },
    {
        match gas {
            None => Step::Done(Ok(Outcome::Call(finish_call(function, returned)))),
            Some(g) => Step::Done(
                Ok(Outcome::Call(Self::finish_simulation(function, g, returned))),
            ),
        }
    }

    /// Takes the outcome of the submission: with the hash, the receipt is
    /// asked for; a failure is an error.
    pub fn on_sent(task: Task, sent: Result<String, String>) -> (r: Step)
        ensures
            match sent {
                Ok(hash) => r matches Step::Ask(p, Request::Receipt { connection, hash: asked })
                    && p.task == task && same_connection(connection, task.connection)
                    && asked@ == hash@ && (p.stage matches Stage::Receipt { hash: kept }
                    && kept@ == hash@),
                Err(e) => r matches Step::Done(Err(x)) && x@ == (ErrorView {
                    kind: ErrorKind::NetworkAction,
                    message: "Failed to send transaction: "@ + rpc_error_text(e@),
                }),
            },
    {
        match sent {
            Ok(hash) => {
                let connection = task.connection.clone();
                let asked = hash.clone();
                Step::Ask(
                    Pending { task, stage: Stage::Receipt { hash } },
                    Request::Receipt { connection, hash: asked },
                )
            },
            Err(e) => Step::Done(
                Err(
                    EngineError::new(
                        ErrorKind::NetworkAction,
                        concat(
                            "Failed to send transaction: ",
                            interpret_rpc_error(e.as_str()).as_str(),
                        ),
                    ),
                ),
            ),
        }
    }

    /// Takes the receipt of a submitted transaction. Without a receipt the
    /// send fails, and the failure carries the hash: the transaction may still
    /// be included.
    pub fn on_receipt(task: &Task, hash: &str, receipt: Result<Receipt, String>) -> (r: Step)
        ensures
            match receipt {
                Ok(x) => r matches Step::Done(Ok(Outcome::Transaction(info))) && confirmed(
                    *task,
                    hash@,
                    x,
                    info,
                ),
                Err(e) => r matches Step::Done(Err(x)) && x@ == (ErrorView {
                    kind: ErrorKind::ReceiptUnavailable,
                    message: "Transaction was sent but confirmation failed: "@ + e@
                        + ". Transaction hash: "@ + hash@,
                }),
            },
    {
        match receipt {
            Ok(x) => {
                let from = match task.sender {
                    Some(a) => a.to_hex(),
                    None => {
                        let none: Vec<u8> = Vec::new();
                        to_prefixed_hex(none.as_slice())
                    },
                };
                Step::Done(
                    Ok(
                        Outcome::Transaction(
                            TransactionInfo {
                                hash: String::from_str(hash),
                                from,
                                to: Some(task.address.to_hex()),
                                value: match &task.call.value {
                                    Some(v) => v.clone(),
                                    None => String::from_str("0"),
                                },
                                gas_used: x.gas_used,
                                gas_price: crate::text::decimal_string_wide(x.effective_gas_price),
                                block_number: match x.block_number {
                                    Some(b) => b,
                                    None => 0,
                                },
                                timestamp: 0,
                                status: x.status,
                            },
                        ),
                    ),
                )
            },
            Err(e) => {
                let mut m = String::from_str("Transaction was sent but confirmation failed: ");
                m.append(e.as_str());
                m.append(". Transaction hash: ");
                m.append(hash);
                Step::Done(Err(EngineError::new(ErrorKind::ReceiptUnavailable, m)))
            },
        }
    }

    /// Takes the logs: each is reported as an event, numbered from 0 in the
    /// order in which they came.
    pub fn on_logs(logs: Result<Vec<LogRecord>, String>) -> (r: Step)
        ensures
            match logs {
                Ok(list) => r matches Step::Done(Ok(Outcome::Events(events))) && events.len()
                    == list.len() && forall|i: int|
                    0 <= i < list.len() ==> reported(list@[i], i, #[trigger] events@[i]),
                Err(e) => r matches Step::Done(Err(x)) && x@ == (ErrorView {
                    kind: ErrorKind::NetworkAction,
                    message: e@,
                }),
            },
    {
        match logs {
            Err(e) => Step::Done(Err(EngineError::new(ErrorKind::NetworkAction, e))),
            Ok(list) => {
                let mut events: Vec<EventInfo> = Vec::new();
                let mut i: usize = 0;
                while i < list.len()
                    invariant
                        i <= list.len(),
                        events.len() == i,
                        forall|k: int| 0 <= k < i ==> reported(list@[k], k, #[trigger] events@[k]),
                    decreases list.len() - i,
                {
                    let log = &list[i];
                    let mut topics: Vec<String> = Vec::new();
                    let mut j: usize = 0;
                    while j < log.topics.len()
                        invariant
                            j <= log.topics.len(),
                            topics.len() == j,
                            forall|k: int|
                                0 <= k < j ==> (#[trigger] topics@[k])@ == "0x"@ + hex_text(
                                    log.topics@[k]@,
                                ),
                        decreases log.topics.len() - j,
                    {
                        topics.push(to_prefixed_hex(log.topics[j].as_slice()));
                        j += 1;
                    }
                    let zero: [u8; 32] = [0u8; 32];
                    let hash = match &log.transaction_hash {
                        Some(h) => to_prefixed_hex(h.as_slice()),
                        None => {
                            proof {
                                assert(zero@ =~= Seq::new(32, |i: int| 0u8));
                            }
                            to_prefixed_hex(zero.as_slice())
                        },
                    };
                    events.push(
                        EventInfo {
                            address: log.address.to_hex(),
                            topics,
                            data: to_prefixed_hex(log.data.as_slice()),
                            block_number: match log.block_number {
                                Some(b) => b,
                                None => 0,
                            },
                            transaction_hash: hash,
                            log_index: i as u64,
                            decoded: None,
                        },
                    );
                    i += 1;
                }
                Step::Done(Ok(Outcome::Events(events)))
            },
        }
    }

    /// Why no connection can be had for `network`, if none can: a name that is
    /// given must be one of the configured ones, and the network that is meant
    /// must have a profile.
    pub open spec fn route_failure(&self, network: Option<Seq<char>>, said: Seq<char>) -> Option<
        ErrorView,
    > {
        if network is Some && network_failure(network->0, self.provider_manager.names())
            is Some {
            Some(
                prefixed(
                    "Network validation failed: "@,
                    network_failure(network->0, self.provider_manager.names())->0,
                ),
            )
        } else if self.provider_manager.profile(self.provider_manager.resolved_name(network))
            is None {
            Some(
                ErrorView {
                    kind: ErrorKind::UnknownNetwork,
                    message: said + "Network '"@ + self.provider_manager.resolved_name(network)
                        + "' not found"@,
                },
            )
        } else {
            None
        }
    }

    /// The task stands for a request of the kind `kind` for the contract at
    /// `contract_address` on `network`, with the connection and the gas policy
    /// of that network.
    pub open spec fn begun(
        &self,
        t: Task,
        kind: OperationKind,
        contract_address: Seq<char>,
        network: Option<Seq<char>>,
    ) -> bool {
        let name = self.provider_manager.resolved_name(network);
        &&& t.kind == kind
        &&& t.contract_address@ == contract_address
        &&& network_view(t.network) == network
        &&& t.connection.network@ == name
        &&& self.provider_manager.profile(name) is Some
        &&& t.connection.rpc_url@ == self.provider_manager.profile(name)->0.rpc_url
        &&& t.gas == self.provider_manager.profile(name)->0.gas
        &&& t.code@.len() == 0
    }

    /// The connection and the gas policy for `network`.
    fn route(&self, network: Option<&str>, said: &str) -> (r: Result<(Connection, GasConfig), EngineError>)
        ensures
            match self.route_failure(name_view(network), said@) {
                Some(e) => r is Err && r->Err_0@ == e,
                None => r matches Ok(p) && p.0.network@ == self.provider_manager.resolved_name(
                    name_view(network),
                ) && p.0.rpc_url@ == self.provider_manager.profile(
                    self.provider_manager.resolved_name(name_view(network)),
                )->0.rpc_url && p.1 == self.provider_manager.profile(
                    self.provider_manager.resolved_name(name_view(network)),
                )->0.gas,
            },
    {
        match network {
            Some(n) => {
                let available = self.provider_manager.get_available_networks();
                match validate_network(n, available.as_slice()) {
                    Ok(_) => {},
                    Err(e) => {
                        return Err(e.context("Network validation failed: "));
                    },
                }
            },
            None => {},
        }
        let ghost name = self.provider_manager.resolved_name(name_view(network));
        match self.provider_manager.get_provider(network) {
            Err(e) => {
                let r = e.context(said);
                proof {
                    assert(r@.message =~= said@ + "Network '"@ + name + "' not found"@);
                }
                Err(r)
            },
            Ok(connection) => match self.provider_manager.get_network_config(network) {
                Ok(profile) => Ok((connection, profile.gas)),
                Err(e) => Err(e),
            },
        }
    }

    /// A copy of the call.
    fn copy_call(call: &FunctionCall) -> (r: FunctionCall)
        ensures
            r.function_name@ == call.function_name@,
            r.parameters@ == call.parameters@,
            match (r.from, call.from) {
                (Some(a), Some(b)) => a@ == b@,
                (None, None) => true,
                _ => false,
            },
            match (r.value, call.value) {
                (Some(a), Some(b)) => a@ == b@,
                (None, None) => true,
                _ => false,
            },
    {
        FunctionCall {
            function_name: call.function_name.clone(),
            parameters: call.parameters.duplicate(),
            from: match &call.from {
                Some(s) => Some(s.clone()),
                None => None,
            },
            gas_limit: call.gas_limit,
            gas_price: match &call.gas_price {
                Some(s) => Some(s.clone()),
                None => None,
            },
            value: match &call.value {
                Some(s) => Some(s.clone()),
                None => None,
            },
        }
    }

    /// A call of no function, for an operation that calls none.
    fn no_call() -> (r: FunctionCall)
        ensures
            r.function_name@ == Seq::<char>::empty(),
            r.parameters@ == JsonView::Null,
            r.from is None,
            r.gas_limit is None,
            r.gas_price is None,
            r.value is None,
    {
        FunctionCall {
            function_name: String::new(),
            parameters: JsonValue::Null,
            from: None,
            gas_limit: None,
            gas_price: None,
            value: None,
        }
    }

    /// The name of a network as a value of its own.
    fn own(network: Option<&str>) -> (r: Option<String>)
        ensures
            network_view(r) == name_view(network),
    {
        match network {
            Some(n) => Some(String::from_str(n)),
            None => None,
        }
    }

    /// Begins an inspection of the contract at `address`: validates the
    /// address and the network, and asks for the code at the address.
    pub fn get_contract_info(&self, address: &str, network: Option<&str>) -> (r: Step)
        ensures
            if address_failure(address@) is Some {
                r matches Step::Done(Err(e)) && e@ == prefixed(
                    "Invalid contract address: "@,
                    address_failure(address@)->0,
                )
            } else if self.route_failure(
                name_view(network),
                "Failed to get provider for network '"@ + (match network {
                    Some(n) => n@,
                    None => "default"@,
                }) + "': "@,
            ) is Some {
                r matches Step::Done(Err(e)) && e@ == self.route_failure(
                    name_view(network),
                    "Failed to get provider for network '"@ + (match network {
                        Some(n) => n@,
                        None => "default"@,
                    }) + "': "@,
                )->0
            } else {
                r matches Step::Ask(p, Request::Code { connection, address: asked }) && self.begun(
                    p.task,
                    OperationKind::Inspect,
                    address@,
                    name_view(network),
                ) && p.task.address.bytes@ == hex_bytes(trimmed(address@).skip(2)) && asked.bytes@
                    == p.task.address.bytes@ && same_connection(connection, p.task.connection)
                    && p.stage is Code
            },
    {
        let contract = match validate_address(address) {
            Ok(a) => a,
            Err(e) => {
                return Step::Done(Err(e.context("Invalid contract address: ")));
            },
        };
        let mut said = String::from_str("Failed to get provider for network '");
        match network {
            Some(n) => {
                said.append(n);
            },
            None => {
                said.append("default");
            },
        }
        said.append("': ");
        let (connection, gas) = match self.route(network, said.as_str()) {
            Ok(p) => p,
            Err(e) => {
                return Step::Done(Err(e));
            },
        };
        let asked = connection.clone();
        let task = Task {
            kind: OperationKind::Inspect,
            contract_address: String::from_str(address),
            address: contract,
            network: Self::own(network),
            connection,
            call: Self::no_call(),
            sender: None,
            credential: String::new(),
            code: Vec::new(),
            gas_limit: None,
            gas_price: None,
            gas,
        };
        Step::Ask(
            Pending { task, stage: Stage::Code },
            Request::Code { connection: asked, address: contract },
        )
    }

    /// Why a read or a simulation of the function `name` of the contract at
    /// `address` on `network` cannot begin, if it cannot: the address, the
    /// function name and the network are validated in this order.
    pub open spec fn entry_failure(
        &self,
        address: Seq<char>,
        address_said: Seq<char>,
        name: Seq<char>,
        network: Option<Seq<char>>,
    ) -> Option<ErrorView> {
        if address_failure(address) is Some {
            Some(prefixed(address_said, address_failure(address)->0))
        } else if function_name_failure(name) is Some {
            Some(prefixed("Invalid function name: "@, function_name_failure(name)->0))
        } else {
            self.route_failure(network, "Failed to get provider: "@)
        }
    }

    /// Validates a read or a simulation and makes its task.
    fn enter(
        &self,
        kind: OperationKind,
        contract_address: &str,
        address_said: &str,
        function_call: &FunctionCall,
        network: Option<&str>,
    ) -> (r: Result<Task, EngineError>)
        ensures
            match self.entry_failure(
                contract_address@,
                address_said@,
                function_call.function_name@,
                name_view(network),
            ) {
                Some(e) => r is Err && r->Err_0@ == e,
                None => r matches Ok(t) && self.begun(
                    t,
                    kind,
                    contract_address@,
                    name_view(network),
                ) && carries(t, *function_call) && t.address.bytes@ == hex_bytes(
                    trimmed(contract_address@).skip(2),
                ) && t.sender is None && t.gas_limit is None && t.gas_price is None,
            },
    {
        let address = match validate_address(contract_address) {
            Ok(a) => a,
            Err(e) => {
                return Err(e.context(address_said));
            },
        };
        match validate_function_name(function_call.function_name.as_str()) {
            Ok(_) => {},
            Err(e) => {
                return Err(e.context("Invalid function name: "));
            },
        }
        let (connection, gas) = match self.route(network, "Failed to get provider: ") {
            Ok(p) => p,
            Err(e) => {
                return Err(e);
            },
        };
        Ok(
            Task {
                kind,
                contract_address: String::from_str(contract_address),
                address,
                network: Self::own(network),
                connection,
                call: Self::copy_call(function_call),
                sender: None,
                credential: String::new(),
                code: Vec::new(),
                gas_limit: None,
                gas_price: None,
                gas,
            },
        )
    }

    /// Begins a read of a function of the contract at `contract_address`.
    ///
    /// The address, the function name and the network are validated before
    /// anything else is done; a failure of these is an error. Then the
    /// interface description is resolved, from memory where it is there.
    pub fn call_view_function(
        &self,
        contract_address: &str,
        function_call: &FunctionCall,
        network: Option<&str>,
    ) -> (r: Step)
        ensures
            match self.entry_failure(
                contract_address@,
                "Invalid contract address: "@,
                function_call.function_name@,
                name_view(network),
            ) {
                Some(e) => r matches Step::Done(Err(x)) && x@ == e,
                None => exists|t: Task|
                    self.begun(t, OperationKind::Call, contract_address@, name_view(network))
                        && carries(t, *function_call) && t.address.bytes@ == hex_bytes(
                        trimmed(contract_address@).skip(2),
                    ) && #[trigger] self.resolving(t, r),
            },
    {
        match self.enter(
            OperationKind::Call,
            contract_address,
            "Invalid contract address: ",
            function_call,
            network,
        ) {
            Err(e) => Step::Done(Err(e)),
            Ok(task) => {
                let r = self.resolve(task);
                proof {
                    assert(self.resolving(task, r));
                }
                r
            },
        }
    }

    /// Begins a simulation of a call of a function of the contract at
    /// `contract_address`.
    pub fn simulate_transaction(
        &self,
        contract_address: &str,
        function_call: &FunctionCall,
        network: Option<&str>,
    ) -> (r: Step)
        ensures
            match self.entry_failure(
                contract_address@,
                "Invalid contract address for simulation: "@,
                function_call.function_name@,
                name_view(network),
            ) {
                Some(e) => r matches Step::Done(Err(x)) && x@ == e,
                None => exists|t: Task|
                    self.begun(t, OperationKind::Simulate, contract_address@, name_view(network))
                        && carries(t, *function_call) && t.address.bytes@ == hex_bytes(
                        trimmed(contract_address@).skip(2),
                    ) && #[trigger] self.resolving(t, r),
            },
    {
        match self.enter(
            OperationKind::Simulate,
            contract_address,
            "Invalid contract address for simulation: ",
            function_call,
            network,
        ) {
            Err(e) => Step::Done(Err(e)),
            Ok(task) => {
                let r = self.resolve(task);
                proof {
                    assert(self.resolving(task, r));
                }
                r
            },
        }
    }

    /// The gas that a plain transfer of value takes.
    pub open spec fn transfer_gas() -> u64 {
        21000
    }

    /// Begins a gas estimate.
    ///
    /// The address and the network are validated first. An empty function
    /// name stands for a plain transfer of value, which takes the fixed amount
    /// of [`Self::transfer_gas`]: the estimate is done at once, and no
    /// interface description is resolved for it. Any other function name is
    /// validated, and the interface description is resolved.
    pub fn estimate_gas(
        &self,
        contract_address: &str,
        function_call: &FunctionCall,
        network: Option<&str>,
    ) -> (r: Step)
        ensures
            if address_failure(contract_address@) is Some {
                r matches Step::Done(Err(x)) && x@ == prefixed(
                    "Invalid contract address for gas estimation: "@,
                    address_failure(contract_address@)->0,
                )
            } else if self.route_failure(name_view(network), "Failed to get provider: "@)
                is Some {
                r matches Step::Done(Err(x)) && x@ == self.route_failure(
                    name_view(network),
                    "Failed to get provider: "@,
                )->0
            } else if function_call.function_name@.len() == 0 {
                r matches Step::Done(Ok(Outcome::Gas(g))) && g == Self::transfer_gas()
            } else if function_name_failure(function_call.function_name@) is Some {
                r matches Step::Done(Err(x)) && x@ == prefixed(
                    "Invalid function name: "@,
                    function_name_failure(function_call.function_name@)->0,
                )
            } else {
                exists|t: Task|
                    self.begun(t, OperationKind::Estimate, contract_address@, name_view(network))
                        && carries(t, *function_call) && t.address.bytes@ == hex_bytes(
                        trimmed(contract_address@).skip(2),
                    ) && #[trigger] self.resolving(t, r)
            },
    {
        let address = match validate_address(contract_address) {
            Ok(a) => a,
            Err(e) => {
                return Step::Done(Err(e.context("Invalid contract address for gas estimation: ")));
            },
        };
        let (connection, gas) = match self.route(network, "Failed to get provider: ") {
            Ok(p) => p,
            Err(e) => {
                return Step::Done(Err(e));
            },
        };
        if function_call.function_name.as_str().unicode_len() == 0 {
            return Step::Done(Ok(Outcome::Gas(21000)));
        }
        match validate_function_name(function_call.function_name.as_str()) {
            Ok(_) => {},
            Err(e) => {
                return Step::Done(Err(e.context("Invalid function name: ")));
            },
        }
        let task = Task {
            kind: OperationKind::Estimate,
            contract_address: String::from_str(contract_address),
            address,
            network: Self::own(network),
            connection,
            call: Self::copy_call(function_call),
            sender: None,
            credential: String::new(),
            code: Vec::new(),
            gas_limit: None,
            gas_price: None,
            gas,
        };
        let r = self.resolve(task);
        proof {
            assert(self.resolving(task, r));
        }
        r
    }

    /// Why a send cannot begin, if it cannot: the address, the function name,
    /// the network's name, the signing credential and the network's profile
    /// are validated in this order.
    pub open spec fn send_failure(
        &self,
        address: Seq<char>,
        name: Seq<char>,
        private_key: Seq<char>,
        network: Option<Seq<char>>,
    ) -> Option<ErrorView> {
        if address_failure(address) is Some {
            Some(prefixed("Invalid contract address: "@, address_failure(address)->0))
        } else if function_name_failure(name) is Some {
            Some(prefixed("Invalid function name: "@, function_name_failure(name)->0))
        } else if network is Some && network_failure(network->0, self.provider_manager.names())
            is Some {
            Some(
                prefixed(
                    "Network validation failed: "@,
                    network_failure(network->0, self.provider_manager.names())->0,
                ),
            )
        } else if key_address(key_text(private_key)) is Err {
            Some(
                ErrorView {
                    kind: ErrorKind::Credential,
                    message: "Invalid private key: "@ + key_address(key_text(private_key))->Err_0,
                },
            )
        } else {
            self.route_failure(network, Seq::empty())
        }
    }

    /// Begins a send: validates the request, derives the sender from the
    /// signing credential, and resolves the interface description.
    pub fn send_transaction(
        &self,
        contract_address: &str,
        function_call: &FunctionCall,
        private_key: &str,
        gas_limit: Option<u64>,
        gas_price: Option<&str>,
        network: Option<&str>,
    ) -> (r: Step)
        ensures
            match self.send_failure(
                contract_address@,
                function_call.function_name@,
                private_key@,
                name_view(network),
            ) {
                Some(e) => r matches Step::Done(Err(x)) && x@ == e,
                None => exists|t: Task|
                    self.begun(t, OperationKind::Send, contract_address@, name_view(network))
                        && carries(t, *function_call) && t.address.bytes@ == hex_bytes(
                        trimmed(contract_address@).skip(2),
                    ) && t.credential@ == key_text(private_key@) && (t.sender matches Some(a)
                        && key_address(key_text(private_key@)) == Ok::<Seq<u8>, Seq<char>>(
                        a.bytes@,
                    )) && t.gas_limit == gas_limit && network_view(t.gas_price) == name_view(
                        gas_price,
                    ) && #[trigger] self.resolving(t, r),
            },
    {
        let address = match validate_address(contract_address) {
            Ok(a) => a,
            Err(e) => {
                return Step::Done(Err(e.context("Invalid contract address: ")));
            },
        };
        match validate_function_name(function_call.function_name.as_str()) {
            Ok(_) => {},
            Err(e) => {
                return Step::Done(Err(e.context("Invalid function name: ")));
            },
        }
        match network {
            Some(n) => {
                let available = self.provider_manager.get_available_networks();
                match validate_network(n, available.as_slice()) {
                    Ok(_) => {},
                    Err(e) => {
                        return Step::Done(Err(e.context("Network validation failed: ")));
                    },
                }
            },
            None => {},
        }
        let key = Self::signing_key(private_key);
        let sender = match Address::of_signing_key(key.as_str()) {
            Ok(a) => a,
            Err(e) => {
                return Step::Done(
                    Err(
                        EngineError::new(
                            ErrorKind::Credential,
                            concat("Invalid private key: ", e.as_str()),
                        ),
                    ),
                );
            },
        };
        let (connection, gas) = match self.route(network, "") {
            Ok(p) => p,
            Err(e) => {
                proof {
                    reveal_strlit("");
                    assert(""@ =~= Seq::<char>::empty());
                }
                return Step::Done(Err(e));
            },
        };
        proof {
            reveal_strlit("");
            assert(""@ =~= Seq::<char>::empty());
        }
        let task = Task {
            kind: OperationKind::Send,
            contract_address: String::from_str(contract_address),
            address,
            network: Self::own(network),
            connection,
            call: Self::copy_call(function_call),
            sender: Some(sender),
            credential: key,
            code: Vec::new(),
            gas_limit,
            gas_price: Self::own(gas_price),
            gas,
        };
        let r = self.resolve(task);
        proof {
            assert(self.resolving(task, r));
        }
        r
    }

    /// The signing key that the text `s` gives: trimmed, and without its `0x`.
    fn signing_key(s: &str) -> (r: String)
        ensures
            r@ == key_text(s@),
    {
        let t = crate::text::trim(s);
        let chars = crate::text::to_chars(t.as_str());
        if chars.len() >= 2 && chars[0] == '0' && chars[1] == 'x' {
            let r = crate::text::from_chars(&chars, 2, chars.len());
            proof {
                assert(chars@.subrange(2, chars.len() as int) == chars@.skip(2));
            }
            r
        } else {
            t
        }
    }

    /// Begins the retrieval of the events that the contract at
    /// `contract_address` emitted between two blocks: from block 0 and to the
    /// last block where the range is open.
    pub fn get_contract_events(
        &self,
        contract_address: &str,
        from_block: Option<u64>,
        to_block: Option<u64>,
        network: Option<&str>,
    ) -> (r: Step)
        ensures
            if self.provider_manager.profile(
                self.provider_manager.resolved_name(name_view(network)),
            ) is None {
                r matches Step::Done(Err(e)) && e@ == (ErrorView {
                    kind: ErrorKind::UnknownNetwork,
                    message: "Network '"@ + self.provider_manager.resolved_name(
                        name_view(network),
                    ) + "' not found"@,
                })
            } else if !is_address_text(contract_address@) {
                r matches Step::Done(Err(e)) && e@ == (ErrorView {
                    kind: ErrorKind::AddressFormat,
                    message: address_parse_failure(contract_address@),
                })
            } else {
                r matches Step::Ask(
                    p,
                    Request::Logs { connection, address, from_block: first, to_block: last },
                ) && address.bytes@ == hex_bytes(
                    crate::address::address_digits(contract_address@),
                ) && first == (match from_block {
                    Some(b) => b,
                    None => 0,
                }) && last == (match to_block {
                    Some(b) => b,
                    None => u64::MAX,
                }) && connection.network@ == self.provider_manager.resolved_name(
                    name_view(network),
                ) && connection.rpc_url@ == self.provider_manager.profile(
                    self.provider_manager.resolved_name(name_view(network)),
                )->0.rpc_url && same_connection(connection, p.task.connection) && p.stage is Logs
                    && p.task.kind == OperationKind::Events && p.task.address.bytes@
                    == address.bytes@ && p.task.contract_address@ == contract_address@
            },
    {
        let connection = match self.provider_manager.get_provider(network) {
            Ok(c) => c,
            Err(e) => {
                return Step::Done(Err(e));
            },
        };
        let address = match Address::parse(contract_address) {
            Ok(a) => a,
            Err(e) => {
                return Step::Done(Err(EngineError::new(ErrorKind::AddressFormat, e)));
            },
        };
        let asked = connection.clone();
        let task = Task {
            kind: OperationKind::Events,
            contract_address: String::from_str(contract_address),
            address,
            network: Self::own(network),
            connection,
            call: Self::no_call(),
            sender: None,
            credential: String::new(),
            code: Vec::new(),
            gas_limit: None,
            gas_price: None,
            gas: GasConfig { default_gas_limit: 0, max_gas_price: None, priority_fee: None },
        };
        Step::Ask(
            Pending { task, stage: Stage::Logs },
            Request::Logs {
                connection: asked,
                address,
                from_block: match from_block {
                    Some(b) => b,
                    None => 0,
                },
                to_block: match to_block {
                    Some(b) => b,
                    None => u64::MAX,
                },
            },
        )
    }

    /// The transactions of a contract: none, as long as no index of
    /// transactions is at hand.
    pub fn get_transaction_history(
        &self,
        _contract_address: &str,
        _limit: Option<usize>,
        _network: Option<&str>,
    ) -> (r: Result<Vec<TransactionInfo>, EngineError>)
        ensures
            r is Ok,
            r->Ok_0@.len() == 0,
    {
        Ok(Vec::new())
    }

    /// Goes on with an operation: takes the response to what it asked for,
    /// and gives the next step.
    pub fn resume(&mut self, pending: Pending, response: Response) -> (r: Step)
        ensures
            resumed(*old(self), *final(self), pending, response, r),
            final(self).provider_manager == old(self).provider_manager,
            final(self).abi_resolver.api_key() == old(self).abi_resolver.api_key(),
            final(self).abi_resolver.store() == old(self).abi_resolver.store(),
            final(self).abi_resolver.default_network()
                == old(self).abi_resolver.default_network(),
    {
        let Pending { task, stage } = pending;
        match stage {
            Stage::Code => match response {
                Response::Code(code) => self.on_code(task, code),
                _ => Self::out_of_turn(),
            },
            Stage::CacheFile { cache_key } => match response {
                Response::CacheFile(content) => self.on_cache_file(task, cache_key, content),
                _ => Self::out_of_turn(),
            },
            Stage::Fetch { cache_key } => match response {
                Response::Fetched(reply) => self.on_fetched(task, cache_key, reply),
                _ => Self::out_of_turn(),
            },
            Stage::Store { abi } => match response {
                Response::Stored => Self::plan(task, Ok(abi)),
                _ => Self::out_of_turn(),
            },
            Stage::Gas { function, request } => match response {
                Response::Gas(gas) => Self::on_gas(task, function, request, gas),
                _ => Self::out_of_turn(),
            },
            Stage::Call { function, gas } => match response {
                Response::Returned(returned) => Self::on_returned(&function, gas, &returned),
                _ => Self::out_of_turn(),
            },
            Stage::Submission => match response {
                Response::Sent(sent) => Self::on_sent(task, sent),
                _ => Self::out_of_turn(),
            },
            Stage::Receipt { hash } => match response {
                Response::Receipt(receipt) => Self::on_receipt(&task, hash.as_str(), receipt),
                _ => Self::out_of_turn(),
            },
            Stage::Logs => match response {
                Response::Logs(logs) => Self::on_logs(logs),
                _ => Self::out_of_turn(),
            },
        }
    }
}

} // verus!
