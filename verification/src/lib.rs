//! Verified core of the Casper x402 payment protocol.
pub mod bytes;
pub mod contract;
pub mod crypto;
pub mod eip712;
pub mod serde_address;
pub mod message;
pub mod text;
pub mod uint;
pub mod types;
pub mod facilitator;
pub mod client;
pub mod b64;
pub mod config;
pub mod resource;
pub mod flow;
