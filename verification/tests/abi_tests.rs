use contract_mcp::abi::{AbiLookup, AbiResolver, AbiSource, RemoteReply};
use contract_mcp::config::{Config, GasConfig, NetworkConfig};
use contract_mcp::error::ErrorKind;
use contract_mcp::interface::InterfaceDescription;
use contract_mcp::json::JsonValue;
use contract_mcp::provider::ProviderManager;

const ERC20: &str = r#"[{"type":"function","name":"transfer","inputs":[{"name":"to","type":"address"},{"name":"amount","type":"uint256"}],"outputs":[{"name":"","type":"bool"}],"stateMutability":"nonpayable"},{"type":"function","name":"balanceOf","inputs":[{"name":"owner","type":"address"}],"outputs":[{"name":"","type":"uint256"}],"stateMutability":"view"},{"type":"event","name":"Transfer","inputs":[{"name":"from","type":"address","indexed":true},{"name":"to","type":"address","indexed":true},{"name":"value","type":"uint256","indexed":false}],"anonymous":false}]"#;

fn source() -> AbiSource {
    AbiSource { etherscan_api_key: None, cache_dir: "abi-cache".to_string() }
}

fn envelope(status: &str, message: &str, result: JsonValue) -> RemoteReply {
    RemoteReply::Envelope(JsonValue::Object(vec![
        ("status".to_string(), JsonValue::Text(status.to_string())),
        ("message".to_string(), JsonValue::Text(message.to_string())),
        ("result".to_string(), result),
    ]))
}

#[test]
fn test_abi_resolver_creation() {
    let resolver = AbiResolver::new(source(), "ethereum");
    assert!(!resolver.has_abi("0x123", Some("mainnet"), false));
    assert!(matches!(
        resolver.get_abi("0x123", Some("mainnet")),
        AbiLookup::ReadCache { .. }
    ));
}

#[test]
fn test_manual_abi_addition() {
    let mut resolver = AbiResolver::new(source(), "ethereum");
    let test_abi = InterfaceDescription::from_json("[]").unwrap();

    resolver.add_manual_abi("0x123", Some("mainnet"), test_abi.clone());

    assert!(resolver.has_abi("0x123", Some("mainnet"), false));
    match resolver.get_abi("0x123", Some("mainnet")) {
        AbiLookup::Cached(retrieved_abi) => {
            assert_eq!(retrieved_abi.functions.len(), test_abi.functions.len());
        }
        AbiLookup::ReadCache { .. } => panic!("a registered description is in memory"),
    }
}

#[test]
fn an_interface_description_is_read_from_its_document() {
    let abi = InterfaceDescription::from_json(ERC20).unwrap();
    assert_eq!(abi.document, ERC20);
    let names: Vec<String> = abi.function_names();
    assert_eq!(names, vec!["balanceOf".to_string(), "transfer".to_string()]);
    let f = abi.find_function("transfer").unwrap();
    assert_eq!(f.inputs.len(), 2);
    assert_eq!(f.inputs[0].name, "to");
    assert_eq!(f.inputs[0].ty, "address");
    assert_eq!(f.inputs[1].ty, "uint256");
    assert_eq!(f.outputs[0].ty, "bool");
    assert!(abi.find_function("Transfer").is_none());
    assert_eq!(abi.events.len(), 1);
    assert_eq!(abi.events[0].name, "Transfer");
    assert_eq!(abi.events[0].inputs[2].name, "value");

    let e = InterfaceDescription::from_json("not json").unwrap_err();
    assert_eq!(e.kind(), ErrorKind::InterfaceUnavailable);
    assert!(e.message().starts_with("Failed to parse ABI JSON: "));
}

#[test]
fn overloaded_functions_give_the_first_declared() {
    let abi = InterfaceDescription::from_json(
        r#"[{"type":"function","name":"f","inputs":[{"name":"a","type":"uint256"}],"outputs":[],"stateMutability":"view"},{"type":"function","name":"f","inputs":[],"outputs":[],"stateMutability":"view"}]"#,
    )
    .unwrap();
    assert_eq!(abi.functions.len(), 2);
    assert_eq!(abi.find_function("f").unwrap().inputs.len(), 1);
}

#[test]
fn the_key_is_the_network_and_the_address_in_lower_case() {
    let resolver = AbiResolver::new(source(), "ethereum");
    assert_eq!(resolver.cache_key("0xABcd", Some("sepolia")), "sepolia_0xabcd");
    assert_eq!(resolver.cache_key("0xABcd", None), "ethereum_0xabcd");
    assert_eq!(resolver.cache_key("ÀB", Some("x")), "x_àb");
    assert_eq!(AbiResolver::cache_file_name("mainnet_0xabcd"), "mainnet_0xabcd.json");
    let other = AbiResolver::new(source(), "polygon");
    assert_eq!(other.cache_key("0xABcd", None), "polygon_0xabcd");
}

#[test]
fn a_miss_names_the_file_to_read() {
    let resolver = AbiResolver::new(source(), "ethereum");
    match resolver.get_abi("0xABcd", None) {
        AbiLookup::ReadCache { cache_key, file_name } => {
            assert_eq!(cache_key, "ethereum_0xabcd");
            assert_eq!(file_name, "ethereum_0xabcd.json");
        }
        AbiLookup::Cached(_) => panic!("nothing is in memory"),
    }
    assert_eq!(resolver.cache_dir(), "abi-cache");
}

#[test]
fn an_absent_network_is_the_default_network() {
    let mut resolver = AbiResolver::new(source(), "ethereum");
    resolver.add_manual_abi("0xABCD", Some("ethereum"), InterfaceDescription::from_json(ERC20).unwrap());
    assert!(matches!(resolver.get_abi("0xabcd", None), AbiLookup::Cached(_)));
    assert!(resolver.has_abi("0xabcd", None, false));
    resolver.add_manual_abi("0x1", None, InterfaceDescription::from_json("[]").unwrap());
    assert!(matches!(resolver.get_abi("0x1", Some("ethereum")), AbiLookup::Cached(_)));
    assert!(matches!(resolver.get_abi("0x1", Some("mainnet")), AbiLookup::ReadCache { .. }));
}

#[test]
fn a_registered_description_is_found_whatever_the_case_of_the_address() {
    let mut resolver = AbiResolver::new(source(), "ethereum");
    resolver.add_manual_abi("0xABCD", None, InterfaceDescription::from_json(ERC20).unwrap());
    assert!(matches!(resolver.get_abi("0xabcd", None), AbiLookup::Cached(_)));
    assert!(matches!(resolver.get_abi("0xabcd", Some("ethereum")), AbiLookup::Cached(_)));
    assert!(matches!(resolver.get_abi("0xabcd", Some("sepolia")), AbiLookup::ReadCache { .. }));
    assert!(matches!(resolver.get_abi("0xabce", None), AbiLookup::ReadCache { .. }));
}

#[test]
fn resolving_twice_gives_the_same_description() {
    let mut resolver = AbiResolver::new(source(), "ethereum");
    let first = resolver.load_cached_abi("ethereum_0xabcd", Some(ERC20)).unwrap();
    match resolver.get_abi("0xABCD", None) {
        AbiLookup::Cached(second) => {
            assert_eq!(second.document, first.document);
            assert_eq!(second.function_names(), first.function_names());
        }
        AbiLookup::ReadCache { .. } => panic!("what was read from disk is in memory"),
    }
    match resolver.get_abi("0xABCD", None) {
        AbiLookup::Cached(third) => assert_eq!(third.document, first.document),
        AbiLookup::ReadCache { .. } => panic!("what was read from disk is in memory"),
    }
}

#[test]
fn a_later_registration_takes_the_place_of_an_earlier_one() {
    let mut resolver = AbiResolver::new(source(), "ethereum");
    resolver.add_manual_abi("0x1", None, InterfaceDescription::from_json("[]").unwrap());
    resolver.add_manual_abi("0x1", None, InterfaceDescription::from_json(ERC20).unwrap());
    match resolver.get_abi("0x1", None) {
        AbiLookup::Cached(d) => assert_eq!(d.functions.len(), 2),
        AbiLookup::ReadCache { .. } => panic!("a registered description is in memory"),
    }
}

#[test]
fn a_file_that_is_absent_or_unreadable_is_a_miss() {
    let mut resolver = AbiResolver::new(source(), "ethereum");
    assert!(resolver.load_cached_abi("ethereum_0x1", None).is_none());
    assert!(resolver.load_cached_abi("ethereum_0x1", Some("{")).is_none());
    assert!(!resolver.has_abi("0x1", None, false));
    assert!(resolver.has_abi("0x1", None, true));
}

#[test]
fn the_lookup_request_goes_to_the_service_of_the_network() {
    let resolver = AbiResolver::new(source(), "ethereum");
    let cases = [
        // Without a network: the default network.
        (None, "https://api.etherscan.io"),
        (Some("mainnet"), "https://api.etherscan.io"),
        (Some("ethereum"), "https://api.etherscan.io"),
        (Some("sepolia"), "https://api-sepolia.etherscan.io"),
        (Some("goerli"), "https://api-goerli.etherscan.io"),
        (Some("polygon"), "https://api.polygonscan.com"),
        (Some("arbitrum"), "https://api.arbiscan.io"),
        (Some("optimism"), "https://api-optimistic.etherscan.io"),
    ];
    for (network, base) in cases {
        assert_eq!(
            resolver.fetch_from_etherscan("0xabc", network).unwrap(),
            format!("{}/api?module=contract&action=getabi&address=0xabc&format=json", base)
        );
    }
    let keyed = AbiResolver::new(
        AbiSource { etherscan_api_key: Some("K3Y".to_string()), cache_dir: "c".to_string() },
        "ethereum",
    );
    assert_eq!(
        keyed.fetch_from_etherscan("0xabc", Some("polygon")).unwrap(),
        "https://api.polygonscan.com/api?module=contract&action=getabi&address=0xabc&format=json&apikey=K3Y"
    );
}

#[test]
fn the_lookup_request_without_a_network_goes_to_the_default_network() {
    let resolver = AbiResolver::new(source(), "polygon");
    assert_eq!(
        resolver.fetch_from_etherscan("0xabc", None).unwrap(),
        "https://api.polygonscan.com/api?module=contract&action=getabi&address=0xabc&format=json"
    );
    let lost = AbiResolver::new(source(), "base");
    assert_eq!(
        lost.fetch_from_etherscan("0xabc", None).unwrap_err().message(),
        "Unsupported network for Etherscan: base"
    );
}

#[test]
fn a_network_without_a_service_fails_at_once() {
    let resolver = AbiResolver::new(source(), "ethereum");
    let e = resolver.fetch_from_etherscan("0xabc", Some("base")).unwrap_err();
    assert_eq!(e.kind(), ErrorKind::InterfaceUnavailable);
    assert_eq!(e.message(), "Unsupported network for Etherscan: base");
}

#[test]
fn an_unverified_source_is_an_unavailable_interface() {
    let e = AbiResolver::read_reply(&envelope(
        "0",
        "NOTOK",
        JsonValue::Text("Contract source code not verified".to_string()),
    ))
    .unwrap_err();
    assert_eq!(e.kind(), ErrorKind::InterfaceUnavailable);
    assert_eq!(e.message(), "Contract source code is not verified on Etherscan");

    let e = AbiResolver::read_reply(&envelope(
        "1",
        "OK",
        JsonValue::Text("Contract source code not verified".to_string()),
    ))
    .unwrap_err();
    assert_eq!(e.kind(), ErrorKind::InterfaceUnavailable);
    assert_eq!(e.message(), "Contract source code is not verified on Etherscan");
}

#[test]
fn other_replies_of_the_service() {
    let e = AbiResolver::read_reply(&envelope(
        "0",
        "NOTOK",
        JsonValue::Text("Max rate limit reached".to_string()),
    ))
    .unwrap_err();
    assert_eq!(e.kind(), ErrorKind::RemoteService);
    assert_eq!(e.message(), "Etherscan API error: NOTOK");

    let e = AbiResolver::read_reply(&RemoteReply::Envelope(JsonValue::Object(vec![(
        "status".to_string(),
        JsonValue::Text("0".to_string()),
    )])))
    .unwrap_err();
    assert_eq!(e.message(), "Etherscan API error: Unknown error");

    let e = AbiResolver::read_reply(&RemoteReply::Envelope(JsonValue::Null)).unwrap_err();
    assert_eq!(e.message(), "Etherscan API error: Unknown error");

    let e = AbiResolver::read_reply(&envelope("1", "OK", JsonValue::Null)).unwrap_err();
    assert_eq!(e.kind(), ErrorKind::RemoteService);
    assert_eq!(e.message(), "No ABI found in response");

    let e = AbiResolver::read_reply(&envelope("1", "OK", JsonValue::Text("{".to_string())))
        .unwrap_err();
    assert_eq!(e.kind(), ErrorKind::InterfaceUnavailable);
    assert!(e.message().starts_with("Failed to parse ABI JSON: "));

    let e = AbiResolver::read_reply(&RemoteReply::Unreachable("dns".to_string())).unwrap_err();
    assert_eq!(e.kind(), ErrorKind::RemoteService);
    assert_eq!(e.message(), "Failed to fetch from Etherscan: dns");

    let e = AbiResolver::read_reply(&RemoteReply::Unreadable("eof".to_string())).unwrap_err();
    assert_eq!(e.message(), "Failed to parse Etherscan response: eof");

    let d = AbiResolver::read_reply(&envelope("1", "OK", JsonValue::Text(ERC20.to_string())))
        .unwrap();
    assert_eq!(d.functions.len(), 2);
}

#[test]
fn what_the_service_gave_is_kept_and_written_through() {
    let mut resolver = AbiResolver::new(source(), "ethereum");
    let d = InterfaceDescription::from_json(ERC20).unwrap();
    let write = resolver.cache_abi("sepolia_0xabc", &d);
    assert_eq!(write.file_name, "sepolia_0xabc.json");
    assert_eq!(write.content, ERC20);
    assert!(matches!(resolver.get_abi("0xABC", Some("sepolia")), AbiLookup::Cached(_)));
}

#[test]
fn clearing_empties_the_memory_and_reports_a_failed_removal() {
    let mut resolver = AbiResolver::new(source(), "ethereum");
    resolver.add_manual_abi("0x1", None, InterfaceDescription::from_json("[]").unwrap());
    assert!(resolver.clear_cache(None).is_ok());
    assert!(!resolver.has_abi("0x1", None, false));

    resolver.add_manual_abi("0x1", None, InterfaceDescription::from_json("[]").unwrap());
    let e = resolver.clear_cache(Some("permission denied")).unwrap_err();
    assert_eq!(e.message(), "Failed to clear cache directory: permission denied");
    assert!(!resolver.has_abi("0x1", None, false));
}

#[test]
fn the_default_configuration() {
    let config = Config::default();
    assert_eq!(config.default_network, "ethereum");
    assert_eq!(
        config.networks.names_list(),
        vec!["ethereum".to_string(), "sepolia".to_string(), "polygon".to_string(), "arbitrum".to_string()]
    );
    let ethereum = config.networks.get("ethereum").unwrap();
    assert_eq!(ethereum.rpc_url, "https://eth-mainnet.g.alchemy.com/v2/demo");
    assert_eq!(ethereum.chain_id, 1);
    assert_eq!(ethereum.explorer_url, Some("https://etherscan.io".to_string()));
    assert_eq!(ethereum.gas.default_gas_limit, 100000);
    assert_eq!(ethereum.gas.max_gas_price, Some(50_000_000_000));
    assert_eq!(ethereum.gas.priority_fee, Some(2_000_000_000));
    let sepolia = config.networks.get("sepolia").unwrap();
    assert_eq!(sepolia.chain_id, 11155111);
    assert_eq!(sepolia.gas.max_gas_price, Some(20_000_000_000));
    let polygon = config.networks.get("polygon").unwrap();
    assert_eq!(polygon.chain_id, 137);
    assert_eq!(polygon.gas.priority_fee, Some(30_000_000_000));
    let arbitrum = config.networks.get("arbitrum").unwrap();
    assert_eq!(arbitrum.chain_id, 42161);
    assert_eq!(arbitrum.rpc_url, "https://arb-mainnet.g.alchemy.com/v2/demo");
    assert!(config.networks.get("goerli").is_none());
    assert!(!config.security.allow_write_operations);
    assert!(config.security.require_confirmation);
    assert!(config.security.max_transaction_value.is_none());
    assert_eq!(config.server.transport, "stdio");
    assert_eq!(config.server.stdio.buffer_size, Some(1024 * 1024));
}

fn local() -> NetworkConfig {
    NetworkConfig {
        rpc_url: "http://localhost:8545".to_string(),
        chain_id: 31337,
        explorer_url: None,
        gas: GasConfig { default_gas_limit: 5, max_gas_price: None, priority_fee: None },
    }
}

#[test]
fn a_network_is_added_or_given_a_new_profile() {
    let mut config = Config::default();
    config.add_network("local".to_string(), local());
    assert_eq!(config.networks.len(), 5);
    assert_eq!(config.networks.names_list()[4], "local");
    assert_eq!(config.networks.get("local").unwrap().chain_id, 31337);

    config.add_network("sepolia".to_string(), local());
    assert_eq!(config.networks.len(), 5);
    assert_eq!(config.networks.names_list()[1], "sepolia");
    assert_eq!(config.networks.get("sepolia").unwrap().chain_id, 31337);
    assert_eq!(config.networks.get("ethereum").unwrap().chain_id, 1);
    assert!(config.networks.contains("polygon"));
    assert!(!config.networks.contains("Polygon"));
}

#[test]
fn the_key_of_the_node_service_is_put_into_the_addresses() {
    let mut config = Config::default();
    config.add_network("local".to_string(), local());
    config.add_network(
        "custom".to_string(),
        NetworkConfig {
            rpc_url: "https://node.example/YOUR_API_KEY_HERE/rpc".to_string(),
            ..local()
        },
    );
    config.apply_env_vars(Some("s3cret"));
    assert_eq!(
        config.networks.get("ethereum").unwrap().rpc_url,
        "https://eth-mainnet.g.alchemy.com/v2/s3cret"
    );
    assert_eq!(
        config.networks.get("arbitrum").unwrap().rpc_url,
        "https://arb-mainnet.g.alchemy.com/v2/s3cret"
    );
    assert_eq!(config.networks.get("local").unwrap().rpc_url, "http://localhost:8545");
    assert_eq!(
        config.networks.get("custom").unwrap().rpc_url,
        "https://node.example/s3cret/rpc"
    );
    assert_eq!(config.networks.get("ethereum").unwrap().chain_id, 1);

    let mut untouched = Config::default();
    untouched.apply_env_vars(None);
    assert_eq!(
        untouched.networks.get("ethereum").unwrap().rpc_url,
        "https://eth-mainnet.g.alchemy.com/v2/demo"
    );
}

#[test]
fn the_configuration_that_was_loaded_is_used() {
    let mut loaded = Config::default();
    loaded.default_network = "local".to_string();
    loaded.add_network("local".to_string(), local());
    let config = Config::load_or_default(Some(loaded), Some("k"));
    assert_eq!(config.default_network, "local");
    assert_eq!(config.networks.len(), 5);
    assert_eq!(
        config.networks.get("sepolia").unwrap().rpc_url,
        "https://eth-sepolia.g.alchemy.com/v2/k"
    );
    let fallback = Config::load_or_default(None, None);
    assert_eq!(fallback.default_network, "ethereum");
    assert_eq!(fallback.networks.len(), 4);
}

#[test]
fn the_sample_configuration() {
    let sample = Config::generate_sample();
    assert!(sample.starts_with("# Contract MCP Server Configuration File\n"));
    assert!(sample.contains("default_network = \"ethereum\""));
    assert!(sample.contains("[networks.arbitrum.gas]"));
    assert!(sample.contains("rpc_url = \"https://eth-mainnet.g.alchemy.com/v2/YOUR_API_KEY_HERE\""));
    assert!(sample.ends_with("# INFURA_API_KEY - Your Infura API key (alternative to Alchemy)\n"));
    assert_eq!(sample.lines().count(), 64);
}

#[test]
fn the_registry_gives_the_connection_of_a_network() {
    let manager = ProviderManager::new(Config::default()).unwrap();
    let c = manager.get_provider(Some("sepolia")).unwrap();
    assert_eq!(c.network, "sepolia");
    assert_eq!(c.rpc_url, "https://eth-sepolia.g.alchemy.com/v2/demo");
    let d = manager.get_provider(None).unwrap();
    assert_eq!(d.network, "ethereum");
    let e = manager.get_provider(Some("Sepolia")).unwrap_err();
    assert_eq!(e.kind(), ErrorKind::UnknownNetwork);
    assert_eq!(e.message(), "Network 'Sepolia' not found");
    assert_eq!(manager.get_network_config(Some("polygon")).unwrap().chain_id, 137);
    assert_eq!(
        manager.get_network_config(Some("base")).unwrap_err().message(),
        "Network 'base' not configured"
    );
    assert_eq!(manager.list_networks().len(), 4);
    assert_eq!(manager.get_available_networks()[0], "ethereum");
}

#[test]
fn the_registry_refuses_an_address_that_is_none() {
    let mut config = Config::default();
    config.add_network("bad".to_string(), NetworkConfig { rpc_url: "not a url".to_string(), ..local() });
    let e = ProviderManager::new(config).unwrap_err();
    assert_eq!(e.kind(), ErrorKind::Configuration);
    assert!(!e.message().is_empty());

    let mut missing = Config::default();
    missing.default_network = "nowhere".to_string();
    let manager = ProviderManager::new(missing).unwrap();
    assert_eq!(manager.get_provider(None).unwrap_err().message(), "Network 'nowhere' not found");
}

#[test]
fn the_liveness_probe_is_put_in_prose() {
    let manager = ProviderManager::new(Config::default()).unwrap();
    assert!(manager.check_connection(Some("ethereum")).is_ok());
    assert_eq!(
        manager.check_connection(Some("base")).unwrap_err().message(),
        "Failed to get provider for connection check: Network 'base' not found"
    );
    assert!(ProviderManager::connection_alive(&Ok(19_000_000)));
    assert!(!ProviderManager::connection_alive(&Err("connection refused".to_string())));
    assert!(manager.validate_network_connection(Some("ethereum"), &Ok(1)).is_ok());
    let e = manager
        .validate_network_connection(None, &Err("connection refused".to_string()))
        .unwrap_err();
    assert_eq!(e.kind(), ErrorKind::NetworkAction);
    assert_eq!(
        e.message(),
        "Cannot connect to network 'ethereum': Network error: Cannot connect to RPC endpoint. Check your internet connection and RPC URL configuration.. Please check your RPC endpoint configuration and network connectivity."
    );
    assert_eq!(manager.get_chain_id(Some("sepolia"), Ok(11155111)).unwrap(), 11155111);
    assert_eq!(
        manager.get_chain_id(Some("sepolia"), Err("boom".to_string())).unwrap_err().message(),
        "boom"
    );
    assert_eq!(
        manager.get_chain_id(Some("base"), Ok(1)).unwrap_err().message(),
        "Network 'base' not found"
    );
}
