//! Resolution of social identities bound to a Starknet identity token.
//!
//! The crate builds the aggregated contract call that probes a list of
//! verifier contracts, decodes the flat result buffer into the one social id
//! that matters, and turns that id into a display name through the lookup
//! strategy configured for the field.

pub mod call;
pub mod config;
pub mod decode;
pub mod felt;
pub mod handler;
pub mod http;
pub mod json;
pub mod models;
pub mod renewal;
pub mod selector;
pub mod short_string;
pub mod text_records;
