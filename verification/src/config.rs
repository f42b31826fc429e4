//! What a deployment configures: the contracts to call, the social APIs to
//! ask, and for each field the verifiers to probe and the handler to run.

use crate::felt::Felt;
use crate::handler::HandlerType;
use vstd::prelude::*;

verus! {

/// Addresses of the contracts that a resolution calls.
#[derive(Clone, Copy, Debug)]
pub struct Contracts {
    /// The identity registry.
    pub starknetid: Felt,
    /// The aggregator through which several calls go out as one.
    pub argent_multicall: Felt,
}

/// Base URLs and credentials of the social APIs.
#[derive(Clone, Debug)]
pub struct Variables {
    pub discord_api_url: String,
    pub discord_token: String,
    pub github_api_url: String,
    pub twitter_api_url: String,
    pub twitter_api_key: String,
}

/// The configuration of a deployment.
#[derive(Clone, Debug)]
pub struct Config {
    pub contracts: Contracts,
    pub variables: Variables,
}

/// How one field of an identity is resolved.
#[derive(Clone, Debug)]
pub struct EvmRecordVerifier {
    /// The verifier contracts to probe. Their order is the order of
    /// preference: the first one that has set a value wins.
    pub verifier_contracts: Vec<Felt>,
    /// The field's name, a Cairo short string.
    pub field: String,
    /// What turns the social id found into a name.
    pub handler: HandlerType,
}

} // verus!
