//! Calls to smart contracts that are known only by address and network.
//!
//! The library resolves the interface description of a contract through a
//! cache, converts untyped parameters to typed call data and responses back,
//! routes a request to the connection of its network, and puts failures into
//! categorized prose. It decides and computes; whoever uses it performs the
//! network and disk actions that it asks for.

pub mod abi;
pub mod abi_laws;
pub mod address;
pub mod calldata;
pub mod codec;
pub mod codec_laws;
pub mod config;
pub mod contract;
pub mod error;
pub mod hexadecimal;
pub mod interface;
pub mod json;
pub mod provider;
pub mod soltype;
pub mod solvalue;
pub mod text;
pub mod types;
pub mod utils;
pub mod word;
