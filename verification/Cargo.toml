[package]
name = "contract_mcp"
version = "0.1.0"
edition = "2021"
publish = false

[dependencies]
alloy = { version = "0.8", default-features = false, features = ["std", "hyper", "provider-http", "rpc-types", "signer-local", "network", "dyn-abi", "json-abi"] }
anyhow = "1"
hex = "0.4"
reqwest = { version = "0.12", default-features = false, features = ["json"] }
rmcp = { version = "0.1", features = ["server", "transport-io"] }
schemars = "0.8"
serde = { version = "1", features = ["derive"] }
serde_json = "1"
tokio = { version = "1", features = ["rt-multi-thread", "macros", "fs", "sync", "io-std"] }
tracing = "0.1"
