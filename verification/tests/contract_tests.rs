use contract_mcp::abi::{AbiSource, RemoteReply};
use contract_mcp::config::Config;
use contract_mcp::contract::{
    finish_call, ContractManager, Outcome, Pending, Request, Response, Stage, Step,
};
use contract_mcp::error::{EngineError, ErrorKind};
use contract_mcp::hexadecimal::to_prefixed_hex;
use contract_mcp::interface::InterfaceDescription;
use contract_mcp::json::{JsonNumber, JsonValue};
use contract_mcp::provider::ProviderManager;
use contract_mcp::types::{CallResult, FunctionCall, LogRecord, Receipt};

const ERC20: &str = r#"[{"type":"function","name":"balanceOf","inputs":[{"name":"owner","type":"address"}],"outputs":[{"name":"","type":"uint256"}],"stateMutability":"view"},{"type":"function","name":"transfer","inputs":[{"name":"to","type":"address"},{"name":"amount","type":"uint256"}],"outputs":[{"name":"","type":"bool"}],"stateMutability":"nonpayable"}]"#;

const TOKEN: &str = "0x6B175474E89094C44Da98b954EedeAC495271d0F";
const HOLDER: &str = "0xAAAAaaaaAAAAaaaaAAAAaaaaAAAAaaaaAAAAaaaa";
const ZERO: &str = "0x0000000000000000000000000000000000000000";
const KEY_ONE: &str = "0x0000000000000000000000000000000000000000000000000000000000000001";
const SENDER_ONE: &str = "0x7e5f4552091a69125d5dfcb7b8c2659029395bdf";
const BALANCE_OF_HOLDER: &str =
    "0x70a08231000000000000000000000000aaaaaaaaaaaaaaaaaaaaaaaaaaaaaaaaaaaaaaaa";
const TRANSFER_TO_HOLDER: &str = "0xa9059cbb000000000000000000000000aaaaaaaaaaaaaaaaaaaaaaaaaaaaaaaaaaaaaaaa0000000000000000000000000000000000000000000000000000000000000005";

fn manager() -> ContractManager {
    ContractManager::new(
        ProviderManager::new(Config::default()).unwrap(),
        AbiSource { etherscan_api_key: None, cache_dir: "abi-cache".to_string() },
    )
}

fn manager_with_token() -> ContractManager {
    let mut m = manager();
    m.abi_resolver.add_manual_abi(
        TOKEN,
        Some("ethereum"),
        InterfaceDescription::from_json(ERC20).unwrap(),
    );
    m
}

fn call(name: &str, parameters: JsonValue) -> FunctionCall {
    FunctionCall {
        function_name: name.to_string(),
        parameters,
        from: None,
        gas_limit: None,
        gas_price: None,
        value: None,
    }
}

fn balance_of_holder() -> FunctionCall {
    call("balanceOf", JsonValue::Array(vec![JsonValue::Text(HOLDER.to_string())]))
}

fn transfer_five() -> FunctionCall {
    call(
        "transfer",
        JsonValue::Array(vec![
            JsonValue::Text(HOLDER.to_string()),
            JsonValue::Number(JsonNumber::Unsigned(5)),
        ]),
    )
}

fn word(n: u8) -> Vec<u8> {
    let mut w = vec![0u8; 32];
    w[31] = n;
    w
}

fn unverified() -> RemoteReply {
    RemoteReply::Envelope(JsonValue::Object(vec![
        ("status".to_string(), JsonValue::Text("0".to_string())),
        ("message".to_string(), JsonValue::Text("NOTOK".to_string())),
        (
            "result".to_string(),
            JsonValue::Text("Contract source code not verified".to_string()),
        ),
    ]))
}

fn verified() -> RemoteReply {
    RemoteReply::Envelope(JsonValue::Object(vec![
        ("status".to_string(), JsonValue::Text("1".to_string())),
        ("message".to_string(), JsonValue::Text("OK".to_string())),
        ("result".to_string(), JsonValue::Text(ERC20.to_string())),
    ]))
}

fn failure(step: Step) -> EngineError {
    match step {
        Step::Done(Err(e)) => e,
        other => panic!("an error was expected, not {:?}", other),
    }
}

fn result(step: Step) -> CallResult {
    match step {
        Step::Done(Ok(Outcome::Call(c))) => c,
        other => panic!("a call result was expected, not {:?}", other),
    }
}

fn asked(step: Step) -> (Pending, Request) {
    match step {
        Step::Ask(p, r) => (p, r),
        other => panic!("a request was expected, not {:?}", other),
    }
}

fn text_of(v: &Option<JsonValue>) -> String {
    v.as_ref().unwrap().to_text()
}

/// The fields of an object, each with its name and the text of its value.
fn fields_of(v: &Option<JsonValue>) -> Vec<(String, String)> {
    match v {
        Some(JsonValue::Object(fields)) => {
            fields.iter().map(|(k, x)| (k.clone(), x.to_text())).collect()
        }
        other => panic!("an object was expected, not {:?}", other),
    }
}

fn pairs(items: &[(&str, &str)]) -> Vec<(String, String)> {
    items.iter().map(|(k, x)| (k.to_string(), x.to_string())).collect()
}

// An address without code is not deployed.
#[test]
fn an_address_without_code_is_not_deployed() {
    let mut m = manager();
    let (pending, request) = asked(m.get_contract_info(ZERO, Some("ethereum")));
    match request {
        Request::Code { connection, address } => {
            assert_eq!(connection.network, "ethereum");
            assert_eq!(connection.rpc_url, "https://eth-mainnet.g.alchemy.com/v2/demo");
            assert_eq!(address.bytes, [0u8; 20]);
        }
        other => panic!("the code was expected to be asked for, not {:?}", other),
    }
    let e = failure(m.resume(pending, Response::Code(Ok(vec![]))));
    assert_eq!(e.kind(), ErrorKind::NotDeployed);
    assert_eq!(
        e.message(),
        "No contract found at address '0x0000000000000000000000000000000000000000' on network 'ethereum'. The address may be incorrect, or the contract may not be deployed yet."
    );
}

#[test]
fn inspect_reports_a_failure_to_fetch_the_code() {
    let mut m = manager();
    let (pending, _) = asked(m.get_contract_info(ZERO, None));
    let e = failure(m.resume(pending, Response::Code(Err("connection refused".to_string()))));
    assert_eq!(e.kind(), ErrorKind::NetworkAction);
    assert_eq!(
        e.message(),
        "Failed to fetch contract bytecode: Network error: Cannot connect to RPC endpoint. Check your internet connection and RPC URL configuration."
    );
}

#[test]
fn inspect_validates_before_it_asks() {
    let m = manager();
    assert_eq!(
        failure(m.get_contract_info("0x12", None)).message(),
        "Invalid contract address: Invalid address length: '0x12'. Ethereum addresses must be exactly 42 characters (0x + 40 hex characters)"
    );
    assert_eq!(
        failure(m.get_contract_info(ZERO, Some("base"))).message(),
        "Network validation failed: Unknown network: 'base'. Available networks: ethereum, sepolia, polygon, arbitrum"
    );
    let mut config = Config::default();
    config.default_network = "nowhere".to_string();
    let lost = ContractManager::new(
        ProviderManager::new(config).unwrap(),
        AbiSource { etherscan_api_key: None, cache_dir: "c".to_string() },
    );
    assert_eq!(
        failure(lost.get_contract_info(ZERO, None)).message(),
        "Failed to get provider for network 'default': Network 'nowhere' not found"
    );
}

#[test]
fn inspect_of_a_known_contract() {
    let mut m = manager_with_token();
    let (pending, _) = asked(m.get_contract_info(TOKEN, Some("ethereum")));
    match m.resume(pending, Response::Code(Ok(vec![0x60, 0x80]))) {
        Step::Done(Ok(Outcome::Info(info))) => {
            assert_eq!(info.address, TOKEN);
            assert_eq!(info.abi, ERC20);
            assert_eq!(info.bytecode, Some("0x6080".to_string()));
            assert!(info.verified);
            assert!(info.name.is_none());
            assert!(info.deployment_block.is_none());
            assert!(info.creator.is_none());
        }
        other => panic!("the information was expected, not {:?}", other),
    }
}

// A read of balanceOf with one address against a description that is in memory.
#[test]
fn a_read_with_a_description_in_memory() {
    let mut m = manager_with_token();
    let (pending, request) =
        asked(m.call_view_function(TOKEN, &balance_of_holder(), Some("ethereum")));
    match request {
        Request::Call { connection, request } => {
            assert_eq!(connection.network, "ethereum");
            assert_eq!(to_prefixed_hex(&request.input), BALANCE_OF_HOLDER);
            assert_eq!(request.to.to_hex(), TOKEN.to_lowercase());
            assert!(request.from.is_none());
            assert!(request.value.is_none());
        }
        other => panic!("the read was expected to be asked for, not {:?}", other),
    }
    assert!(matches!(pending.stage, Stage::Call { gas: None, .. }));

    // A response of no bytes is no value.
    let c = result(m.resume(pending, Response::Returned(Ok(vec![]))));
    assert!(c.success);
    assert!(matches!(c.result, Some(JsonValue::Null)));
    assert!(c.error.is_none());
    assert!(c.gas_used.is_none());
    assert!(c.transaction_hash.is_none());

    // A response of one word is a decimal string.
    let (pending, _) = asked(m.call_view_function(TOKEN, &balance_of_holder(), Some("ethereum")));
    let c = result(m.resume(pending, Response::Returned(Ok(word(42)))));
    assert!(c.success);
    assert_eq!(text_of(&c.result), "\"42\"");
}

#[test]
fn a_read_that_fails_or_cannot_be_decoded_is_a_result() {
    let mut m = manager_with_token();
    let (pending, _) = asked(m.call_view_function(TOKEN, &balance_of_holder(), Some("ethereum")));
    let c = result(m.resume(pending, Response::Returned(Err("execution reverted".to_string()))));
    assert!(!c.success);
    assert!(c.result.is_none());
    assert_eq!(
        c.error.unwrap(),
        "Transaction failed: The contract function reverted execution. This usually means the function's requirements were not met or an assertion failed."
    );

    let (pending, _) = asked(m.call_view_function(TOKEN, &balance_of_holder(), Some("ethereum")));
    let c = result(m.resume(pending, Response::Returned(Ok(vec![1, 2, 3]))));
    assert!(!c.success);
    let error = c.error.unwrap();
    assert!(error.starts_with("Failed to decode result: Failed to decode output: "));
    match c.result {
        Some(JsonValue::Object(fields)) => {
            assert_eq!(fields.len(), 2);
            assert_eq!(fields[0].0, "raw_result");
            assert_eq!(fields[0].1.to_text(), "\"0x010203\"");
            assert_eq!(fields[1].0, "decode_error");
            assert_eq!(
                format!("Failed to decode result: {}", fields[1].1.as_str().unwrap()),
                error
            );
        }
        other => panic!("the raw bytes were expected, not {:?}", other),
    }
}

#[test]
fn a_read_validates_before_anything_else() {
    let m = manager_with_token();
    assert_eq!(
        failure(m.call_view_function("", &balance_of_holder(), None)).message(),
        "Invalid contract address: Address cannot be empty"
    );
    assert_eq!(
        failure(m.call_view_function(TOKEN, &call("", JsonValue::Null), None)).message(),
        "Invalid function name: Function name cannot be empty"
    );
    assert_eq!(
        failure(m.call_view_function(TOKEN, &balance_of_holder(), Some(""))).message(),
        "Network validation failed: Network name cannot be empty"
    );
    let e = failure(m.call_view_function(
        TOKEN,
        &call("allowance", JsonValue::Array(vec![])),
        Some("ethereum"),
    ));
    assert_eq!(e.kind(), ErrorKind::FunctionNotFound);
    assert_eq!(
        e.message(),
        "Function 'allowance' not found in contract ABI. Available functions: balanceOf, transfer"
    );
}

#[test]
fn a_read_of_a_contract_without_functions() {
    let mut m = manager();
    m.abi_resolver.add_manual_abi(TOKEN, None, InterfaceDescription::from_json("[]").unwrap());
    // Without a network the description is kept under the default network.
    assert_eq!(
        failure(m.call_view_function(TOKEN, &balance_of_holder(), None)).message(),
        "Function 'balanceOf' not found. The contract ABI contains no functions."
    );
    assert_eq!(
        failure(m.call_view_function(TOKEN, &balance_of_holder(), Some("ethereum"))).message(),
        "Function 'balanceOf' not found. The contract ABI contains no functions."
    );
    let (pending, request) =
        asked(m.call_view_function(TOKEN, &balance_of_holder(), Some("sepolia")));
    match request {
        Request::ReadCache { file_name } => assert_eq!(
            file_name,
            "sepolia_0x6b175474e89094c44da98b954eedeac495271d0f.json"
        ),
        other => panic!("the file was expected to be asked for, not {:?}", other),
    }
    assert!(matches!(pending.stage, Stage::CacheFile { .. }));
}

#[test]
fn parameters_that_do_not_encode_are_a_result() {
    let m = manager_with_token();
    let c = result(m.call_view_function(
        TOKEN,
        &call("balanceOf", JsonValue::Array(vec![])),
        Some("ethereum"),
    ));
    assert!(!c.success);
    assert_eq!(
        c.error.unwrap(),
        "Failed to encode function call: Parameter count mismatch for function 'balanceOf': expected 1 parameters, got 0.\nExpected parameters: [address owner]"
    );
}

// An empty function name is a plain transfer of value.
#[test]
fn an_estimate_of_a_plain_transfer_is_fixed() {
    let m = manager();
    // No description is in memory, and none is asked for.
    match m.estimate_gas(TOKEN, &call("", JsonValue::Null), Some("ethereum")) {
        Step::Done(Ok(Outcome::Gas(g))) => assert_eq!(g, 21000),
        other => panic!("the fixed amount was expected, not {:?}", other),
    }
    match m.estimate_gas(ZERO, &call("", JsonValue::Array(vec![])), None) {
        Step::Done(Ok(Outcome::Gas(g))) => assert_eq!(g, 21000),
        other => panic!("the fixed amount was expected, not {:?}", other),
    }
    // The address and the network are validated all the same.
    assert_eq!(
        failure(m.estimate_gas("0x", &call("", JsonValue::Null), None)).message(),
        "Invalid contract address for gas estimation: Invalid address length: '0x'. Ethereum addresses must be exactly 42 characters (0x + 40 hex characters)"
    );
    assert!(matches!(
        m.estimate_gas(TOKEN, &call("", JsonValue::Null), Some("base")),
        Step::Done(Err(_))
    ));
}

#[test]
fn an_estimate_asks_and_hands_the_answer_on() {
    let mut m = manager_with_token();
    let mut wanted = transfer_five();
    wanted.from = Some(HOLDER.to_string());
    wanted.value = Some("0x10".to_string());
    let (pending, request) = asked(m.estimate_gas(TOKEN, &wanted, Some("ethereum")));
    match request {
        Request::EstimateGas { request, .. } => {
            assert_eq!(to_prefixed_hex(&request.input), TRANSFER_TO_HOLDER);
            assert_eq!(request.from.unwrap().to_hex(), HOLDER.to_lowercase());
            assert_eq!(request.value.unwrap().limbs, [16, 0, 0, 0]);
        }
        other => panic!("an estimate was expected to be asked for, not {:?}", other),
    }
    match m.resume(pending, Response::Gas(Ok(51234))) {
        Step::Done(Ok(Outcome::Gas(g))) => assert_eq!(g, 51234),
        other => panic!("the estimate was expected, not {:?}", other),
    }
    let (pending, _) = asked(m.estimate_gas(TOKEN, &wanted, Some("ethereum")));
    let e = failure(m.resume(pending, Response::Gas(Err("insufficient funds".to_string()))));
    assert_eq!(e.kind(), ErrorKind::NetworkAction);
    assert_eq!(
        e.message(),
        "Gas estimation failed: Transaction failed: Insufficient funds to cover gas costs. Make sure your account has enough ETH for gas fees."
    );
}

#[test]
fn every_failure_of_an_estimate_is_an_error() {
    let m = manager_with_token();
    assert_eq!(
        failure(m.estimate_gas(TOKEN, &call("9", JsonValue::Null), None)).message(),
        "Invalid function name: Invalid function name: '9'. Function names must start with a letter or underscore"
    );
    assert_eq!(
        failure(m.estimate_gas(TOKEN, &call("mint", JsonValue::Null), Some("ethereum"))).message(),
        "Function 'mint' not found in contract ABI for gas estimation. Available functions: balanceOf, transfer"
    );
    assert_eq!(
        failure(m.estimate_gas(TOKEN, &call("transfer", JsonValue::Null), Some("ethereum")))
            .message(),
        "Failed to encode function call for gas estimation: Invalid parameter format for function 'transfer'. Parameters must be provided as either:\n1. Array: [value1, value2, ...]\n2. Object: {to: address, amount: uint256}\nProvided: null"
    );
    let mut bad_from = transfer_five();
    bad_from.from = Some("me".to_string());
    assert_eq!(
        failure(m.estimate_gas(TOKEN, &bad_from, Some("ethereum"))).message(),
        "Invalid 'from' address: Invalid address format: 'me'. Ethereum addresses must start with '0x'"
    );
    let mut bad_value = transfer_five();
    bad_value.value = Some("lots".to_string());
    assert_eq!(
        failure(m.estimate_gas(TOKEN, &bad_value, Some("ethereum"))).message(),
        "Invalid transaction value: Invalid numeric value: 'lots'. Use decimal format or '0x' prefixed hex"
    );
}

// The lookup service says that the source is not verified.
#[test]
fn an_unverified_contract_has_no_description() {
    let mut m = manager();
    let (pending, request) =
        asked(m.call_view_function(TOKEN, &balance_of_holder(), Some("ethereum")));
    match request {
        Request::ReadCache { file_name } => assert_eq!(
            file_name,
            "ethereum_0x6b175474e89094c44da98b954eedeac495271d0f.json"
        ),
        other => panic!("the file was expected to be asked for, not {:?}", other),
    }
    let (pending, request) = asked(m.resume(pending, Response::CacheFile(None)));
    match request {
        Request::Fetch { url } => assert_eq!(
            url,
            "https://api.etherscan.io/api?module=contract&action=getabi&address=0x6b175474e89094c44da98b954eedeac495271d0f&format=json"
        ),
        other => panic!("the lookup was expected to be asked for, not {:?}", other),
    }
    // The read ends with the categorized failure; nothing more is asked for.
    let c = result(m.resume(pending, Response::Fetched(unverified())));
    assert!(!c.success);
    assert!(c.result.is_none());
    assert_eq!(
        c.error.unwrap(),
        "Contract verification not found: The contract at 0x6B175474E89094C44Da98b954EedeAC495271d0F is not verified on Etherscan. Verified contracts are required for automatic ABI resolution."
    );

    // An inspection of the same contract reports it as not verified.
    let (pending, _) = asked(m.get_contract_info(TOKEN, Some("ethereum")));
    let (pending, request) = asked(m.resume(pending, Response::Code(Ok(vec![0xfe]))));
    assert!(matches!(request, Request::ReadCache { .. }));
    let (pending, request) = asked(m.resume(pending, Response::CacheFile(None)));
    assert!(matches!(request, Request::Fetch { .. }));
    match m.resume(pending, Response::Fetched(unverified())) {
        Step::Done(Ok(Outcome::Info(info))) => {
            assert!(!info.verified);
            assert_eq!(info.abi, "[]");
            assert_eq!(info.bytecode, Some("0xfe".to_string()));
            assert_eq!(info.address, TOKEN);
        }
        other => panic!("the information was expected, not {:?}", other),
    }
}

#[test]
fn a_description_from_disk_is_kept_in_memory() {
    let mut m = manager();
    let (pending, _) = asked(m.call_view_function(TOKEN, &balance_of_holder(), Some("sepolia")));
    let (pending, request) =
        asked(m.resume(pending, Response::CacheFile(Some(ERC20.to_string()))));
    assert!(matches!(request, Request::Call { .. }));
    let c = result(m.resume(pending, Response::Returned(Ok(word(7)))));
    assert_eq!(text_of(&c.result), "\"7\"");
    // The second resolution asks for no file and no lookup.
    let (_, request) = asked(m.call_view_function(TOKEN, &balance_of_holder(), Some("sepolia")));
    assert!(matches!(request, Request::Call { .. }));
}

#[test]
fn a_description_from_the_service_is_written_through_and_kept() {
    let mut m = manager();
    let (pending, _) = asked(m.call_view_function(TOKEN, &balance_of_holder(), Some("polygon")));
    let (pending, request) =
        asked(m.resume(pending, Response::CacheFile(Some("garbage".to_string()))));
    match request {
        Request::Fetch { url } => assert!(url.starts_with("https://api.polygonscan.com/api?")),
        other => panic!("the lookup was expected to be asked for, not {:?}", other),
    }
    let (pending, request) = asked(m.resume(pending, Response::Fetched(verified())));
    match request {
        Request::Store { file_name, content } => {
            assert_eq!(file_name, "polygon_0x6b175474e89094c44da98b954eedeac495271d0f.json");
            assert_eq!(content, ERC20);
        }
        other => panic!("the write was expected to be asked for, not {:?}", other),
    }
    let (_, request) = asked(m.resume(pending, Response::Stored));
    match request {
        Request::Call { connection, request } => {
            assert_eq!(connection.network, "polygon");
            assert_eq!(to_prefixed_hex(&request.input), BALANCE_OF_HOLDER);
        }
        other => panic!("the read was expected to be asked for, not {:?}", other),
    }
    let (_, request) = asked(m.call_view_function(TOKEN, &balance_of_holder(), Some("polygon")));
    assert!(matches!(request, Request::Call { .. }));
}

#[test]
fn a_network_without_a_service_ends_the_resolution() {
    let mut config = Config::default();
    config.add_network(
        "base".to_string(),
        contract_mcp::config::NetworkConfig {
            rpc_url: "https://base.example".to_string(),
            chain_id: 8453,
            explorer_url: None,
            gas: contract_mcp::config::GasConfig {
                default_gas_limit: 1,
                max_gas_price: None,
                priority_fee: None,
            },
        },
    );
    let mut m = ContractManager::new(
        ProviderManager::new(config).unwrap(),
        AbiSource { etherscan_api_key: None, cache_dir: "c".to_string() },
    );
    let (pending, _) = asked(m.call_view_function(TOKEN, &balance_of_holder(), Some("base")));
    let c = result(m.resume(pending, Response::CacheFile(None)));
    assert_eq!(
        c.error.unwrap(),
        "Network error: Cannot connect to Etherscan API. Check your internet connection."
    );
}

#[test]
fn a_simulation_estimates_before_it_reads() {
    let mut m = manager_with_token();
    let (pending, request) =
        asked(m.simulate_transaction(TOKEN, &transfer_five(), Some("ethereum")));
    assert!(matches!(request, Request::EstimateGas { .. }));
    let (pending, request) = asked(m.resume(pending, Response::Gas(Ok(40000))));
    match request {
        Request::Call { request, .. } => {
            assert_eq!(to_prefixed_hex(&request.input), TRANSFER_TO_HOLDER)
        }
        other => panic!("the read was expected to be asked for, not {:?}", other),
    }
    let c = result(m.resume(pending, Response::Returned(Ok(word(1)))));
    assert!(c.success);
    assert_eq!(c.gas_used, Some(40000));
    assert!(c.error.is_none());
    assert_eq!(
        fields_of(&c.result),
        pairs(&[("simulated", "true"), ("result", "true"), ("would_succeed", "true")])
    );
}

#[test]
fn a_simulation_whose_estimate_fails_would_revert() {
    let mut m = manager_with_token();
    let (pending, _) = asked(m.simulate_transaction(TOKEN, &transfer_five(), Some("ethereum")));
    let c = result(m.resume(pending, Response::Gas(Err("execution reverted".to_string()))));
    assert!(!c.success);
    assert!(c.gas_used.is_none());
    let why = "Transaction failed: The contract function reverted execution. This usually means the function's requirements were not met or an assertion failed.";
    assert_eq!(
        c.error.unwrap(),
        format!("Gas estimation failed (transaction would likely revert): {}", why)
    );
    assert_eq!(
        fields_of(&c.result),
        pairs(&[
            ("simulated", "true"),
            ("gas_estimation_failed", "true"),
            ("error", &format!("\"{}\"", why)),
        ])
    );
}

#[test]
fn a_simulation_whose_read_fails_or_cannot_be_decoded() {
    let mut m = manager_with_token();
    let (pending, _) = asked(m.simulate_transaction(TOKEN, &transfer_five(), Some("ethereum")));
    let (pending, _) = asked(m.resume(pending, Response::Gas(Ok(9))));
    let c = result(m.resume(pending, Response::Returned(Err("nonce too low".to_string()))));
    assert!(!c.success);
    assert_eq!(c.gas_used, Some(9));
    assert_eq!(
        c.error.unwrap(),
        "Transaction simulation failed: Transaction failed: Nonce too low. This usually means another transaction was already mined with this nonce."
    );
    assert_eq!(
        fields_of(&c.result),
        pairs(&[
            ("simulated", "true"),
            ("would_succeed", "false"),
            (
                "revert_reason",
                "\"Transaction failed: Nonce too low. This usually means another transaction was already mined with this nonce.\""
            ),
        ])
    );

    let (pending, _) = asked(m.simulate_transaction(TOKEN, &transfer_five(), Some("ethereum")));
    let (pending, _) = asked(m.resume(pending, Response::Gas(Ok(9))));
    let c = result(m.resume(pending, Response::Returned(Ok(vec![0xab]))));
    assert!(c.success);
    assert_eq!(
        fields_of(&c.result),
        pairs(&[
            ("simulated", "true"),
            ("result", "{\"raw_result\":\"0xab\"}"),
            ("would_succeed", "true"),
        ])
    );
}

#[test]
fn a_simulation_reports_what_it_cannot_read() {
    let m = manager_with_token();
    let mut bad_from = transfer_five();
    bad_from.from = Some("0x1".to_string());
    let c = result(m.simulate_transaction(TOKEN, &bad_from, Some("ethereum")));
    assert_eq!(
        c.error.unwrap(),
        "Invalid 'from' address for simulation: Invalid address length: '0x1'. Ethereum addresses must be exactly 42 characters (0x + 40 hex characters)"
    );
    let mut bad_value = transfer_five();
    bad_value.value = Some("0xq".to_string());
    let c = result(m.simulate_transaction(TOKEN, &bad_value, Some("ethereum")));
    assert_eq!(
        c.error.unwrap(),
        "Invalid transaction value for simulation: Invalid hexadecimal value: '0xq'"
    );
    assert_eq!(
        failure(m.simulate_transaction(TOKEN, &call("burn", JsonValue::Null), Some("ethereum")))
            .message(),
        "Function 'burn' not found in contract ABI for simulation. Available functions: balanceOf, transfer"
    );
    assert_eq!(
        failure(m.simulate_transaction("x", &transfer_five(), None)).message(),
        "Invalid contract address for simulation: Invalid address format: 'x'. Ethereum addresses must start with '0x'"
    );
}

#[test]
fn a_send_with_a_gas_limit_and_a_gas_price() {
    let mut m = manager_with_token();
    let mut wanted = transfer_five();
    wanted.value = Some("1000".to_string());
    let (pending, request) = asked(m.send_transaction(
        TOKEN,
        &wanted,
        &format!("  {}\n", KEY_ONE),
        Some(60000),
        Some("0x3b9aca00"),
        Some("ethereum"),
    ));
    match request {
        Request::Send { connection, request, credential } => {
            assert_eq!(connection.network, "ethereum");
            assert_eq!(credential, &KEY_ONE[2..]);
            assert_eq!(to_prefixed_hex(&request.input), TRANSFER_TO_HOLDER);
            assert_eq!(request.to.to_hex(), TOKEN.to_lowercase());
            assert!(request.from.is_none());
            assert_eq!(request.value.unwrap().limbs, [1000, 0, 0, 0]);
            assert_eq!(request.gas_limit, Some(60000));
            assert_eq!(request.gas_price, Some(1_000_000_000));
        }
        other => panic!("the submission was expected to be asked for, not {:?}", other),
    }
    assert_eq!(pending.task.sender.unwrap().to_hex(), SENDER_ONE);
    let (pending, request) =
        asked(m.resume(pending, Response::Sent(Ok("0xabc123".to_string()))));
    match request {
        Request::Receipt { hash, .. } => assert_eq!(hash, "0xabc123"),
        other => panic!("the receipt was expected to be asked for, not {:?}", other),
    }
    let receipt = Receipt {
        status: true,
        gas_used: 51000,
        effective_gas_price: 1_000_000_007,
        block_number: Some(19),
    };
    match m.resume(pending, Response::Receipt(Ok(receipt))) {
        Step::Done(Ok(Outcome::Transaction(info))) => {
            assert_eq!(info.hash, "0xabc123");
            assert_eq!(info.from, SENDER_ONE);
            assert_eq!(info.to, Some(TOKEN.to_lowercase()));
            assert_eq!(info.value, "1000");
            assert_eq!(info.gas_used, 51000);
            assert_eq!(info.gas_price, "1000000007");
            assert_eq!(info.block_number, 19);
            assert_eq!(info.timestamp, 0);
            assert!(info.status);
        }
        other => panic!("the record was expected, not {:?}", other),
    }
}

#[test]
fn a_send_without_a_gas_limit_estimates_first() {
    let mut m = manager_with_token();
    let (pending, request) = asked(m.send_transaction(
        TOKEN,
        &transfer_five(),
        KEY_ONE,
        None,
        None,
        Some("sepolia"),
    ));
    // Nothing is in memory for sepolia.
    assert!(matches!(request, Request::ReadCache { .. }));
    let (pending, request) =
        asked(m.resume(pending, Response::CacheFile(Some(ERC20.to_string()))));
    match request {
        Request::EstimateGas { request, .. } => {
            assert_eq!(request.from.unwrap().to_hex(), SENDER_ONE);
            assert!(request.gas_limit.is_none());
        }
        other => panic!("an estimate was expected to be asked for, not {:?}", other),
    }
    let (_, request) = asked(m.resume(pending, Response::Gas(Ok(33333))));
    match request {
        Request::Send { request, .. } => {
            assert_eq!(request.gas_limit, Some(33333));
            // The ceiling of the network's gas policy.
            assert_eq!(request.gas_price, Some(20_000_000_000));
            assert!(request.from.is_none());
            assert!(request.value.is_none());
        }
        other => panic!("the submission was expected to be asked for, not {:?}", other),
    }
}

#[test]
fn a_send_whose_estimate_fails_takes_the_default_gas_limit() {
    let mut m = manager_with_token();
    let (pending, _) = asked(m.send_transaction(
        TOKEN,
        &transfer_five(),
        KEY_ONE,
        None,
        Some("7"),
        Some("ethereum"),
    ));
    let (_, request) = asked(m.resume(pending, Response::Gas(Err("timeout".to_string()))));
    match request {
        Request::Send { request, .. } => {
            assert_eq!(request.gas_limit, Some(100000));
            assert_eq!(request.gas_price, Some(7));
        }
        other => panic!("the submission was expected to be asked for, not {:?}", other),
    }
}

#[test]
fn a_send_fails_on_what_it_cannot_read() {
    let mut m = manager_with_token();
    let e = failure(m.send_transaction(TOKEN, &transfer_five(), "0x12", None, None, None));
    assert_eq!(e.kind(), ErrorKind::Credential);
    assert!(e.message().starts_with("Invalid private key: "));
    assert_eq!(
        failure(m.send_transaction("0x", &transfer_five(), KEY_ONE, None, None, None)).message(),
        "Invalid contract address: Invalid address length: '0x'. Ethereum addresses must be exactly 42 characters (0x + 40 hex characters)"
    );
    assert_eq!(
        failure(m.send_transaction(TOKEN, &call("1", JsonValue::Null), KEY_ONE, None, None, None))
            .message(),
        "Invalid function name: Invalid function name: '1'. Function names must start with a letter or underscore"
    );
    assert_eq!(
        failure(m.send_transaction(TOKEN, &transfer_five(), KEY_ONE, None, None, Some("base")))
            .message(),
        "Network validation failed: Unknown network: 'base'. Available networks: ethereum, sepolia, polygon, arbitrum"
    );
    assert_eq!(
        failure(m.send_transaction(
            TOKEN,
            &call("mint", JsonValue::Null),
            KEY_ONE,
            None,
            None,
            Some("ethereum")
        ))
        .message(),
        "Function 'mint' not found in contract ABI. Available functions: balanceOf, transfer"
    );
    assert_eq!(
        failure(m.send_transaction(
            TOKEN,
            &call("transfer", JsonValue::Array(vec![])),
            KEY_ONE,
            None,
            None,
            Some("ethereum")
        ))
        .message(),
        "Failed to encode function call for transaction: Parameter count mismatch for function 'transfer': expected 2 parameters, got 0.\nExpected parameters: [address to, uint256 amount]"
    );
    let mut bad_value = transfer_five();
    bad_value.value = Some("".to_string());
    assert_eq!(
        failure(m.send_transaction(TOKEN, &bad_value, KEY_ONE, Some(1), None, Some("ethereum")))
            .message(),
        "Invalid transaction value: Value cannot be empty"
    );
    assert_eq!(
        failure(m.send_transaction(
            TOKEN,
            &transfer_five(),
            KEY_ONE,
            Some(1),
            Some("much"),
            Some("ethereum")
        ))
        .message(),
        "Invalid gas price: Invalid numeric value: 'much'. Use decimal format or '0x' prefixed hex"
    );
    let e = failure(m.send_transaction(
        TOKEN,
        &transfer_five(),
        KEY_ONE,
        Some(1),
        Some("0x100000000000000000000000000000000"),
        Some("ethereum"),
    ));
    assert_eq!(e.kind(), ErrorKind::NumericValue);
    assert_eq!(e.message(), "Invalid gas price: the value does not fit 128 bits");

    // Without a description the send fails.
    let (pending, _) =
        asked(m.send_transaction(TOKEN, &transfer_five(), KEY_ONE, None, None, Some("polygon")));
    let (pending, _) = asked(m.resume(pending, Response::CacheFile(None)));
    let e = failure(m.resume(pending, Response::Fetched(unverified())));
    assert_eq!(e.kind(), ErrorKind::InterfaceUnavailable);
    assert_eq!(
        e.message(),
        "Could not resolve ABI for transaction: Contract verification not found: The contract at 0x6B175474E89094C44Da98b954EedeAC495271d0F is not verified on Etherscan. Verified contracts are required for automatic ABI resolution."
    );
}

#[test]
fn a_send_that_is_not_accepted_or_not_confirmed() {
    let mut m = manager_with_token();
    let (pending, _) = asked(m.send_transaction(
        TOKEN,
        &transfer_five(),
        KEY_ONE,
        Some(1),
        None,
        Some("ethereum"),
    ));
    let e = failure(m.resume(pending, Response::Sent(Err("nonce too low".to_string()))));
    assert_eq!(e.kind(), ErrorKind::NetworkAction);
    assert_eq!(
        e.message(),
        "Failed to send transaction: Transaction failed: Nonce too low. This usually means another transaction was already mined with this nonce."
    );

    let (pending, _) = asked(m.send_transaction(
        TOKEN,
        &transfer_five(),
        KEY_ONE,
        Some(1),
        None,
        Some("ethereum"),
    ));
    let (pending, _) = asked(m.resume(pending, Response::Sent(Ok("0xfeed".to_string()))));
    let e = failure(m.resume(pending, Response::Receipt(Err("dropped".to_string()))));
    assert_eq!(e.kind(), ErrorKind::ReceiptUnavailable);
    assert_eq!(
        e.message(),
        "Transaction was sent but confirmation failed: dropped. Transaction hash: 0xfeed"
    );
}

#[test]
fn events_are_numbered_in_the_order_in_which_they_came() {
    let mut m = manager();
    let (pending, request) = asked(m.get_contract_events(TOKEN, None, None, None));
    match request {
        Request::Logs { connection, address, from_block, to_block } => {
            assert_eq!(connection.network, "ethereum");
            assert_eq!(address.to_hex(), TOKEN.to_lowercase());
            assert_eq!(from_block, 0);
            assert_eq!(to_block, u64::MAX);
        }
        other => panic!("the logs were expected to be asked for, not {:?}", other),
    }
    let address = pending.task.address;
    let mut topic = [0u8; 32];
    topic[0] = 0xdd;
    let mut hash = [0u8; 32];
    hash[31] = 0x01;
    let logs = vec![
        LogRecord {
            address,
            topics: vec![topic, [0u8; 32]],
            data: vec![1, 2],
            block_number: Some(100),
            transaction_hash: Some(hash),
        },
        LogRecord {
            address,
            topics: vec![],
            data: vec![],
            block_number: None,
            transaction_hash: None,
        },
    ];
    match m.resume(pending, Response::Logs(Ok(logs))) {
        Step::Done(Ok(Outcome::Events(events))) => {
            assert_eq!(events.len(), 2);
            assert_eq!(events[0].address, TOKEN.to_lowercase());
            assert_eq!(events[0].topics.len(), 2);
            assert_eq!(events[0].topics[0], format!("0xdd{}", "0".repeat(62)));
            assert_eq!(events[0].data, "0x0102");
            assert_eq!(events[0].block_number, 100);
            assert_eq!(events[0].transaction_hash, format!("0x{}01", "0".repeat(62)));
            assert_eq!(events[0].log_index, 0);
            assert!(events[0].decoded.is_none());
            assert_eq!(events[1].log_index, 1);
            assert_eq!(events[1].block_number, 0);
            assert_eq!(events[1].data, "0x");
            assert_eq!(events[1].transaction_hash, format!("0x{}", "0".repeat(64)));
        }
        other => panic!("the events were expected, not {:?}", other),
    }

    let (pending, request) =
        asked(m.get_contract_events(&TOKEN[2..], Some(5), Some(9), Some("sepolia")));
    assert!(matches!(request, Request::Logs { from_block: 5, to_block: 9, .. }));
    let e = failure(m.resume(pending, Response::Logs(Err("rate limit".to_string()))));
    assert_eq!(e.message(), "rate limit");

    assert_eq!(
        failure(m.get_contract_events(TOKEN, None, None, Some("base"))).message(),
        "Network 'base' not found"
    );
    assert_eq!(
        failure(m.get_contract_events("0x12", None, None, None)).kind(),
        ErrorKind::AddressFormat
    );
}

#[test]
fn there_is_no_transaction_history() {
    let m = manager();
    assert!(m.get_transaction_history(TOKEN, Some(10), None).unwrap().is_empty());
}

#[test]
fn a_response_out_of_turn_ends_the_operation() {
    let mut m = manager_with_token();
    let (pending, _) = asked(m.call_view_function(TOKEN, &balance_of_holder(), Some("ethereum")));
    let e = failure(m.resume(pending, Response::Gas(Ok(1))));
    assert_eq!(e.kind(), ErrorKind::NetworkAction);
    assert_eq!(e.message(), "The response does not answer the pending request");
}

#[test]
fn the_result_of_a_read_on_its_own() {
    let abi = InterfaceDescription::from_json(ERC20).unwrap();
    let f = abi.find_function("transfer").unwrap();
    let c = finish_call(f, &Ok(word(0)));
    assert!(c.success);
    assert_eq!(text_of(&c.result), "false");
    let c = finish_call(f, &Err("method not found".to_string()));
    assert_eq!(
        c.error.unwrap(),
        "RPC error: The requested method is not supported by this RPC endpoint. Try using a different endpoint."
    );
}
