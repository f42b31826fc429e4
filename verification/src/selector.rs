//! Entry point selectors: the field element by which a contract function is
//! called, derived from the function's name.

use crate::felt::{be_value, felt_prime, Felt};
use vstd::prelude::*;
use vstd::utf8::is_ascii_chars;

verus! {

/// A function name holds a character outside ASCII.
#[derive(Clone, Copy, Debug, PartialEq, Eq, Structural)]
pub struct NonAsciiNameError;

/// The value of the selector of the function named `name`, an ASCII name:
/// what `starknet::core::utils::get_selector_from_name` gives for it.
pub uninterp spec fn selector_value(name: Seq<char>) -> nat;

/// Calls `starknet::core::utils::get_selector_from_name` and hands back the
/// big-endian bytes of the selector.
///
/// Trusted: the call fails exactly on a name with a character outside
/// ASCII, and what it gives for a name depends on the name alone.
#[verifier::external_body]
fn selector_bytes(name: &str) -> (r: Option<[u8; 32]>)
    ensures
        r is Some <==> is_ascii_chars(name@),
        r matches Some(bytes) ==> be_value(bytes@) == selector_value(name@) && be_value(bytes@)
            < felt_prime(),
{
    match starknet::core::utils::get_selector_from_name(name) {
        Ok(felt) => Some(felt.to_bytes_be()),
        Err(_) => None,
    }
}

/// The selector of the function named `name`.
///
/// Fails exactly on a name with a character outside ASCII.
pub fn get_selector_from_name(name: &str) -> (r: Result<Felt, NonAsciiNameError>)
    ensures
        r is Ok <==> is_ascii_chars(name@),
        r matches Ok(felt) ==> felt@ == selector_value(name@),
{
    match selector_bytes(name) {
        Some(bytes) => Ok(Felt::from_canonical_bytes(bytes)),
        None => Err(NonAsciiNameError),
    }
}

} // verus!
