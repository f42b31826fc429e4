//! What a resolved identity looks like to the outside.

use vstd::prelude::*;

verus! {

/// The profile of a domain, with the social names that were resolved for it.
/// A name that could not be resolved is absent.
#[derive(Clone, Debug)]
pub struct Data {
    pub domain: String,
    pub addr: Option<String>,
    pub domain_expiry: Option<i32>,
    pub is_owner_main: bool,
    pub owner_addr: String,
    pub github: Option<String>,
    pub twitter: Option<String>,
    pub discord: Option<String>,
    pub old_github: Option<String>,
    pub old_twitter: Option<String>,
    pub old_discord: Option<String>,
    pub proof_of_personhood: Option<String>,
    pub starknet_id: String,
}

} // verus!
