//! Core of a token faucet gateway: address validation, a per-address
//! cooldown, the JSON-RPC envelopes sent upstream, and the wording of the
//! gateway's replies to claims and status queries.

pub mod address;
pub mod airdrop;
pub mod config;
pub mod json;
pub mod rate_limit;
pub mod rpc;
pub mod status;
pub mod text;
