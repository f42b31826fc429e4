//! The contract calls of a resolution, as flat buffers of field elements.
//!
//! The aggregated call carries the number of calls and then one group per
//! call: the contract to call, the selector of its function, the number of
//! arguments, the arguments, and a closing zero.

use crate::config::{Config, EvmRecordVerifier};
use crate::decode::felt_values;
use crate::felt::Felt;
use crate::selector::{get_selector_from_name, selector_value};
use crate::short_string::{cairo_short_string_to_felt, spec_short_string_to_felt, ShortStringError};
use vstd::prelude::*;
use vstd::utf8::is_ascii_chars;

verus! {

/// Number of elements of one group of the aggregated call.
pub const GROUP_LEN: usize = 7;

/// Number of arguments of `get_verifier_data`, with the closing zero.
pub const VERIFIER_DATA_ARGS: u64 = 4;

/// A call of a contract function, to be made on the latest block.
#[derive(Clone, Debug)]
pub struct FunctionCall {
    pub contract_address: Felt,
    pub entry_point_selector: Felt,
    pub calldata: Vec<Felt>,
}

/// A `FunctionCall` as numbers.
pub struct FunctionCallView {
    pub contract_address: nat,
    pub entry_point_selector: nat,
    pub calldata: Seq<nat>,
}

impl View for FunctionCall {
    type V = FunctionCallView;

    open spec fn view(&self) -> FunctionCallView {
        FunctionCallView {
            contract_address: self.contract_address@,
            entry_point_selector: self.entry_point_selector@,
            calldata: felt_values(self.calldata@),
        }
    }
}

/// The group that asks the registry for what `verifier` has set under
/// `field` for the identity `id`.
pub open spec fn verifier_group(registry: nat, id: nat, field: nat, verifier: nat) -> Seq<nat> {
    seq![
        registry,
        selector_value("get_verifier_data"@),
        VERIFIER_DATA_ARGS as nat,
        id,
        field,
        verifier,
        0,
    ]
}

/// The groups for a list of verifiers, in the list's order.
pub open spec fn verifier_groups(registry: nat, id: nat, field: nat, verifiers: Seq<nat>) -> Seq<
    nat,
>
    decreases verifiers.len(),
{
    if verifiers.len() == 0 {
        Seq::empty()
    } else {
        verifier_groups(registry, id, field, verifiers.drop_last()) + verifier_group(
            registry,
            id,
            field,
            verifiers.last(),
        )
    }
}

/// The payload of the aggregated call: the number of verifiers, then their
/// groups.
pub open spec fn spec_verifier_calldata(registry: nat, id: nat, field: nat, verifiers: Seq<nat>)
    -> Seq<nat> {
    seq![verifiers.len() as nat] + verifier_groups(registry, id, field, verifiers)
}

/// The aggregated call that probes the verifiers of a field, or why the
/// field's name cannot be packed.
pub open spec fn spec_verifier_data_call(
    config: Config,
    id: nat,
    record_config: EvmRecordVerifier,
) -> Result<FunctionCallView, ShortStringError> {
    match spec_short_string_to_felt(record_config.field@) {
        Ok(field) => Ok(
            FunctionCallView {
                contract_address: config.contracts.argent_multicall@,
                entry_point_selector: selector_value("aggregate"@),
                calldata: spec_verifier_calldata(
                    config.contracts.starknetid@,
                    id,
                    field,
                    felt_values(record_config.verifier_contracts@),
                ),
            },
        ),
        Err(e) => Err(e),
    }
}

/// The call that reads a field of unbounded length, or why the field's name
/// cannot be packed.
pub open spec fn spec_unbounded_data_call(config: Config, id: nat, field: Seq<char>) -> Result<
    FunctionCallView,
    ShortStringError,
> {
    match spec_short_string_to_felt(field) {
        Ok(packed) => Ok(
            FunctionCallView {
                contract_address: config.contracts.starknetid@,
                entry_point_selector: selector_value("get_unbounded_user_data"@),
                calldata: seq![id, packed, 0],
            },
        ),
        Err(e) => Err(e),
    }
}

/// Whether an outcome is the call `expected`, or the error `expected`.
pub open spec fn call_result_is(
    r: Result<FunctionCall, ShortStringError>,
    expected: Result<FunctionCallView, ShortStringError>,
) -> bool {
    match expected {
        Ok(call) => r matches Ok(c) && c@ == call,
        Err(e) => r == Err::<FunctionCall, ShortStringError>(e),
    }
}

/// The payload has one element for the count and seven for each verifier.
pub proof fn lemma_verifier_groups_len(registry: nat, id: nat, field: nat, verifiers: Seq<nat>)
    ensures
        verifier_groups(registry, id, field, verifiers).len() == GROUP_LEN * verifiers.len(),
    decreases verifiers.len(),
{
    if verifiers.len() > 0 {
        lemma_verifier_groups_len(registry, id, field, verifiers.drop_last());
    }
}

/// The payload starts with the number of verifiers, and the group of
/// verifier `k` stands behind the groups of the verifiers before it: its
/// element `j` is element `1 + 7 * k + j` of the payload.
pub proof fn lemma_calldata_layout(
    registry: nat,
    id: nat,
    field: nat,
    verifiers: Seq<nat>,
    k: int,
    j: int,
)
    requires
        0 <= k < verifiers.len(),
        0 <= j < GROUP_LEN,
    ensures
        spec_verifier_calldata(registry, id, field, verifiers).len() == 1 + GROUP_LEN
            * verifiers.len(),
        spec_verifier_calldata(registry, id, field, verifiers)[0] == verifiers.len(),
        spec_verifier_calldata(registry, id, field, verifiers)[1 + GROUP_LEN * k + j]
            == verifier_group(registry, id, field, verifiers[k])[j],
    decreases verifiers.len(),
{
    lemma_verifier_groups_len(registry, id, field, verifiers);
    let front = verifiers.drop_last();
    lemma_verifier_groups_len(registry, id, field, front);
    if k < front.len() {
        lemma_calldata_layout(registry, id, field, front, k, j);
        assert(front[k] == verifiers[k]);
    }
}

/// The selector of a function whose name is known to be ASCII.
fn selector_of(name: &str) -> (r: Felt)
    requires
        is_ascii_chars(name@),
    ensures
        r@ == selector_value(name@),
{
    get_selector_from_name(name).unwrap()
}

/// Builds the payload of the aggregated call that probes the verifiers of a
/// field for one identity.
///
/// Fails, before anything is built, if the field's name is no short string.
pub fn verifier_calldata(registry: Felt, id: Felt, field: &str, verifiers: &[Felt]) -> (r: Result<
    Vec<Felt>,
    ShortStringError,
>)
    ensures
        match spec_short_string_to_felt(field@) {
            Ok(packed) => r matches Ok(calls) && felt_values(calls@) == spec_verifier_calldata(
                registry@,
                id@,
                packed,
                felt_values(verifiers@),
            ),
            Err(e) => r == Err::<Vec<Felt>, ShortStringError>(e),
        },
{
    let packed = match cairo_short_string_to_felt(field) {
        Ok(packed) => packed,
        Err(e) => {
            return Err(e);
        },
    };
    proof {
        reveal_strlit("get_verifier_data");
    }
    let selector = selector_of("get_verifier_data");
    let ghost targets = felt_values(verifiers@);
    let mut calls: Vec<Felt> = Vec::new();
    calls.push(Felt::from_usize(verifiers.len()));
    proof {
        assert(targets.subrange(0, 0) =~= Seq::<nat>::empty());
        assert(felt_values(calls@) =~= seq![verifiers.len() as nat] + verifier_groups(
            registry@,
            id@,
            packed@,
            targets.subrange(0, 0),
        ));
    }
    let mut i: usize = 0;
    while i < verifiers.len()
        invariant
            i <= verifiers.len(),
            targets == felt_values(verifiers@),
            selector@ == selector_value("get_verifier_data"@),
            felt_values(calls@) == seq![verifiers.len() as nat] + verifier_groups(
                registry@,
                id@,
                packed@,
                targets.subrange(0, i as int),
            ),
        decreases verifiers.len() - i,
    {
        let ghost before = felt_values(calls@);
        let verifier = verifiers[i];
        calls.push(registry);
        calls.push(selector);
        calls.push(Felt::from_u64(VERIFIER_DATA_ARGS));
        calls.push(id);
        calls.push(packed);
        calls.push(verifier);
        calls.push(Felt::zero());
        proof {
            let done = targets.subrange(0, i as int);
            let next = targets.subrange(0, i + 1);
            assert(next.drop_last() =~= done);
            assert(next.last() == verifier@);
            assert(felt_values(calls@) =~= before + verifier_group(
                registry@,
                id@,
                packed@,
                verifier@,
            ));
        }
        i += 1;
    }
    proof {
        assert(targets.subrange(0, targets.len() as int) =~= targets);
    }
    Ok(calls)
}

/// The aggregated call that probes the verifiers of a field for one
/// identity: `aggregate` on the aggregator contract.
///
/// Fails if the field's name is no short string.
pub fn verifier_data_call(config: &Config, id: Felt, record_config: &EvmRecordVerifier) -> (r:
    Result<FunctionCall, ShortStringError>)
    ensures
        call_result_is(r, spec_verifier_data_call(*config, id@, *record_config)),
{
    let calldata = match verifier_calldata(
        config.contracts.starknetid,
        id,
        record_config.field.as_str(),
        record_config.verifier_contracts.as_slice(),
    ) {
        Ok(calldata) => calldata,
        Err(e) => {
            return Err(e);
        },
    };
    proof {
        reveal_strlit("aggregate");
    }
    Ok(
        FunctionCall {
            contract_address: config.contracts.argent_multicall,
            entry_point_selector: selector_of("aggregate"),
            calldata,
        },
    )
}

/// The call that reads a field of unbounded length of one identity:
/// `get_unbounded_user_data` on the registry.
///
/// Fails if the field's name is no short string.
pub fn unbounded_data_call(config: &Config, id: Felt, field: &str) -> (r: Result<
    FunctionCall,
    ShortStringError,
>)
    ensures
        call_result_is(r, spec_unbounded_data_call(*config, id@, field@)),
{
    let packed = match cairo_short_string_to_felt(field) {
        Ok(packed) => packed,
        Err(e) => {
            return Err(e);
        },
    };
    proof {
        reveal_strlit("get_unbounded_user_data");
    }
    let mut calldata: Vec<Felt> = Vec::new();
    calldata.push(id);
    calldata.push(packed);
    calldata.push(Felt::zero());
    let call = FunctionCall {
        contract_address: config.contracts.starknetid,
        entry_point_selector: selector_of("get_unbounded_user_data"),
        calldata,
    };
    proof {
        assert(call@.calldata =~= seq![id@, packed@, 0]);
    }
    Ok(call)
}

} // verus!
