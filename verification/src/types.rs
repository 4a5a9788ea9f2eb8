//! What a request carries and what comes back: calls, results, contract
//! information, transactions and events.

use vstd::prelude::*;
use crate::address::Address;
use crate::json::{JsonValue, JsonView};
use crate::word::U256;

verus! {

/// What is known of a contract.
#[derive(Debug)]
pub struct ContractInfo {
    /// The address, with its checksum in the case of the letters.
    pub address: String,
    pub name: Option<String>,
    /// The interface description as a JSON document; an empty array where
    /// none could be had.
    pub abi: String,
    /// The code behind `0x`.
    pub bytecode: Option<String>,
    pub deployment_block: Option<u64>,
    pub creator: Option<String>,
    /// Whether an interface description could be had.
    pub verified: bool,
}

/// The outcome of a state-changing send.
#[derive(Debug)]
pub struct TransactionInfo {
    pub hash: String,
    pub from: String,
    pub to: Option<String>,
    pub value: String,
    pub gas_used: u64,
    pub gas_price: String,
    pub block_number: u64,
    pub timestamp: u64,
    pub status: bool,
}

/// One event that a contract emitted.
#[derive(Debug)]
pub struct EventInfo {
    pub address: String,
    pub topics: Vec<String>,
    pub data: String,
    pub block_number: u64,
    pub transaction_hash: String,
    pub log_index: u64,
    pub decoded: Option<JsonValue>,
}

/// One intended contract interaction.
#[derive(Debug)]
pub struct FunctionCall {
    pub function_name: String,
    pub parameters: JsonValue,
    pub from: Option<String>,
    pub gas_limit: Option<u64>,
    pub gas_price: Option<String>,
    pub value: Option<String>,
}

/// The outcome of a read or a simulation.
#[derive(Debug)]
pub struct CallResult {
    pub success: bool,
    pub result: Option<JsonValue>,
    pub error: Option<String>,
    pub gas_used: Option<u64>,
    pub transaction_hash: Option<String>,
}

/// What a [`CallResult`] holds, as mathematical values.
pub struct CallResultView {
    pub success: bool,
    pub result: Option<JsonView>,
    pub error: Option<Seq<char>>,
    pub gas_used: Option<u64>,
    pub transaction_hash: Option<Seq<char>>,
}

impl View for CallResult {
    type V = CallResultView;

    open spec fn view(&self) -> CallResultView {
        CallResultView {
            success: self.success,
            result: match self.result {
                Some(v) => Some(v@),
                None => None,
            },
            error: match self.error {
                Some(e) => Some(e@),
                None => None,
            },
            gas_used: self.gas_used,
            transaction_hash: match self.transaction_hash {
                Some(h) => Some(h@),
                None => None,
            },
        }
    }
}

/// The result that reports the failure `message` and nothing else.
pub open spec fn failed(message: Seq<char>) -> CallResultView {
    CallResultView {
        success: false,
        result: None,
        error: Some(message),
        gas_used: None,
        transaction_hash: None,
    }
}

impl CallResult {
    /// The result that reports the failure `message` and nothing else.
    pub fn failure(message: String) -> (r: CallResult)
        ensures
            r@ == failed(message@),
    {
        CallResult {
            success: false,
            result: None,
            error: Some(message),
            gas_used: None,
            transaction_hash: None,
        }
    }
}

/// What is sent to a contract: the recipient, the call data, and what else
/// the sender sets.
#[derive(Debug)]
pub struct TransactionRequest {
    pub to: Address,
    pub input: Vec<u8>,
    pub from: Option<Address>,
    pub value: Option<U256>,
    pub gas_limit: Option<u64>,
    pub gas_price: Option<u128>,
}

impl Clone for TransactionRequest {
    fn clone(&self) -> (r: Self)
        ensures
            r.to == self.to,
            r.input@ == self.input@,
            r.from == self.from,
            r.value == self.value,
            r.gas_limit == self.gas_limit,
            r.gas_price == self.gas_price,
    {
        TransactionRequest {
            to: self.to,
            input: self.input.clone(),
            from: self.from,
            value: self.value,
            gas_limit: self.gas_limit,
            gas_price: self.gas_price,
        }
    }
}

/// What the chain reports of a transaction that was included in a block.
#[derive(Clone, Copy, Debug)]
pub struct Receipt {
    pub status: bool,
    pub gas_used: u64,
    pub effective_gas_price: u128,
    pub block_number: Option<u64>,
}

/// One log entry as the chain reports it.
#[derive(Debug)]
pub struct LogRecord {
    pub address: Address,
    pub topics: Vec<[u8; 32]>,
    pub data: Vec<u8>,
    pub block_number: Option<u64>,
    pub transaction_hash: Option<[u8; 32]>,
}

} // verus!
