//! Resolving the text records of an identity.
//!
//! A resolution alternates between work that the library does and work that
//! it asks for: a contract call, then perhaps a lookup at a social API. Each
//! function here is one step: it takes what happened last and says what to
//! do next. The caller performs it and comes back with the outcome.
//!
//! Only a field name that cannot be packed fails a resolution. A contract
//! call that fails, a social id that nobody has set and a lookup that gives
//! no name all end it with no value.

use crate::call::{
    call_result_is, spec_unbounded_data_call, spec_verifier_data_call, unbounded_data_call,
    verifier_data_call, FunctionCall, FunctionCallView,
};
use crate::config::{Config, EvmRecordVerifier};
use crate::decode::{
    felt_values, find_social_id, lemma_no_set_pair, pair_count, pair_value, spec_find_social_id,
};
use crate::felt::Felt;
use crate::handler::{
    handler_step_is, spec_handler_step, spec_outcome_name, HandlerStep, HandlerType,
};
use crate::http::{HttpReply, HttpRequest, HttpRequestView, TransportError};
use crate::short_string::{
    parse_cairo_short_string, spec_parse_short_string, ShortStringError,
};
use vstd::prelude::*;
use vstd::string::*;

verus! {

/// The contract call was not answered, or the contract refused it.
#[derive(Clone, Copy, Debug, PartialEq, Eq, Structural)]
pub struct ChainCallError;

/// What happened last in a resolution.
#[derive(Debug)]
pub enum ResolutionEvent {
    /// Nothing yet.
    Start,
    /// The contract call that was asked for came back.
    ChainReply(Result<Vec<Felt>, ChainCallError>),
    /// The lookup that was asked for came back.
    LookupReply(Result<HttpReply, TransportError>),
}

/// What to do next in a resolution.
#[derive(Clone, Debug)]
pub enum ResolutionStep {
    /// Make this contract call and come back with `ChainReply`.
    CallContract(FunctionCall),
    /// Send this request and come back with `LookupReply`.
    Lookup(HttpRequest),
    /// The resolution has ended, with this value or with none.
    Done(Option<String>),
}

/// A `ResolutionStep` as numbers and texts.
pub enum ResolutionStepView {
    CallContract(FunctionCallView),
    Lookup(HttpRequestView),
    Done(Option<Seq<char>>),
}

impl View for ResolutionStep {
    type V = ResolutionStepView;

    open spec fn view(&self) -> ResolutionStepView {
        match self {
            ResolutionStep::CallContract(call) => ResolutionStepView::CallContract(call@),
            ResolutionStep::Lookup(request) => ResolutionStepView::Lookup(request@),
            ResolutionStep::Done(Some(text)) => ResolutionStepView::Done(Some(text@)),
            ResolutionStep::Done(None) => ResolutionStepView::Done(None),
        }
    }
}

/// Whether an outcome is the step `expected`, or the error `expected`.
pub open spec fn step_result_is(
    r: Result<ResolutionStep, ShortStringError>,
    expected: Result<ResolutionStepView, ShortStringError>,
) -> bool {
    match expected {
        Ok(step) => r matches Ok(s) && s@ == step,
        Err(e) => r == Err::<ResolutionStep, ShortStringError>(e),
    }
}

/// What follows once the result buffer of the aggregated call is there: no
/// value if no verifier has set a social id, else what the handler does
/// with the id.
pub open spec fn spec_step_after_chain(
    config: Config,
    record_config: EvmRecordVerifier,
    result: Seq<nat>,
) -> ResolutionStepView {
    let social_id = spec_find_social_id(result);
    if social_id == 0 {
        ResolutionStepView::Done(None)
    } else {
        match spec_handler_step(record_config.handler, config.variables, social_id) {
            Ok(name) => ResolutionStepView::Done(Some(name)),
            Err(request) => ResolutionStepView::Lookup(request),
        }
    }
}

/// The step of a verifier data resolution that follows an event.
pub open spec fn spec_verifier_data_step(
    config: Config,
    id: nat,
    record_config: EvmRecordVerifier,
    event: ResolutionEvent,
) -> Result<ResolutionStepView, ShortStringError> {
    match event {
        ResolutionEvent::Start => match spec_verifier_data_call(config, id, record_config) {
            Ok(call) => Ok(ResolutionStepView::CallContract(call)),
            Err(e) => Err(e),
        },
        ResolutionEvent::ChainReply(Ok(result)) => Ok(
            spec_step_after_chain(config, record_config, felt_values(result@)),
        ),
        ResolutionEvent::ChainReply(Err(_)) => Ok(ResolutionStepView::Done(None)),
        ResolutionEvent::LookupReply(outcome) => Ok(
            ResolutionStepView::Done(
                match spec_outcome_name(record_config.handler, outcome) {
                    Ok(name) => Some(name),
                    Err(_) => None,
                },
            ),
        ),
    }
}

/// The text of one chunk: the short string that the element holds, and
/// nothing for an element that holds none.
pub open spec fn chunk_text(value: nat) -> Seq<char> {
    match spec_parse_short_string(value) {
        Ok(text) => text,
        Err(_) => Seq::empty(),
    }
}

/// The texts of chunks, one behind the other.
pub open spec fn joined_chunks(chunks: Seq<nat>) -> Seq<char>
    decreases chunks.len(),
{
    if chunks.len() == 0 {
        Seq::empty()
    } else {
        joined_chunks(chunks.drop_last()) + chunk_text(chunks.last())
    }
}

/// The field of unbounded length that a result buffer holds: none where the
/// leading flag is zero or missing, else the joined texts of the elements
/// behind the flag.
pub open spec fn spec_unbounded_data(result: Seq<nat>) -> Option<Seq<char>> {
    if result.len() == 0 || result[0] == 0 {
        None
    } else {
        Some(joined_chunks(result.skip(1)))
    }
}

/// The step of an unbounded data resolution that follows an event.
pub open spec fn spec_unbounded_data_step(
    config: Config,
    id: nat,
    field: Seq<char>,
    event: ResolutionEvent,
) -> Result<ResolutionStepView, ShortStringError> {
    match event {
        ResolutionEvent::Start => match spec_unbounded_data_call(config, id, field) {
            Ok(call) => Ok(ResolutionStepView::CallContract(call)),
            Err(e) => Err(e),
        },
        ResolutionEvent::ChainReply(Ok(result)) => Ok(
            ResolutionStepView::Done(spec_unbounded_data(felt_values(result@))),
        ),
        ResolutionEvent::ChainReply(Err(_)) => Ok(ResolutionStepView::Done(None)),
        ResolutionEvent::LookupReply(_) => Ok(ResolutionStepView::Done(None)),
    }
}

/// Joining chunks one list behind another joins their texts.
pub proof fn lemma_joined_chunks_concat(a: Seq<nat>, b: Seq<nat>)
    ensures
        joined_chunks(a + b) == joined_chunks(a) + joined_chunks(b),
    decreases b.len(),
{
    if b.len() == 0 {
        assert(a + b =~= a);
        assert(joined_chunks(a) + joined_chunks(b) =~= joined_chunks(a));
    } else {
        lemma_joined_chunks_concat(a, b.drop_last());
        assert((a + b).drop_last() =~= a + b.drop_last());
        assert((a + b).last() == b.last());
        assert((joined_chunks(a) + joined_chunks(b.drop_last())) + chunk_text(b.last())
            =~= joined_chunks(a) + (joined_chunks(b.drop_last()) + chunk_text(b.last())));
    }
}

/// A chunk that holds no short string leaves no trace: the text is that of
/// the chunks before it followed by that of the chunks behind it.
pub proof fn lemma_undecodable_chunk_skipped(before: Seq<nat>, chunk: nat, after: Seq<nat>)
    requires
        spec_parse_short_string(chunk) is Err,
    ensures
        joined_chunks(before + seq![chunk] + after) == joined_chunks(before) + joined_chunks(
            after,
        ),
{
    lemma_joined_chunks_concat(before + seq![chunk], after);
    lemma_joined_chunks_concat(before, seq![chunk]);
    assert(seq![chunk].drop_last() =~= Seq::<nat>::empty());
    assert(joined_chunks(Seq::<nat>::empty()) =~= Seq::<char>::empty());
    assert(joined_chunks(seq![chunk]) =~= Seq::<char>::empty());
    assert(joined_chunks(before) + Seq::<char>::empty() =~= joined_chunks(before));
}

/// A result buffer whose flag is zero holds no field, whatever follows the
/// flag.
pub proof fn lemma_absent_flag(result: Seq<nat>)
    requires
        result.len() > 0,
        result[0] == 0,
    ensures
        spec_unbounded_data(result) is None,
{
}

/// Where no probed verifier has set a value, the resolution ends with no
/// value once the result buffer is there, whatever the identity, the
/// verifiers, the field and the handler.
pub proof fn lemma_unset_resolves_to_none(
    config: Config,
    id: nat,
    record_config: EvmRecordVerifier,
    result: Vec<Felt>,
)
    requires
        forall|k: int|
            0 <= k < pair_count(felt_values(result@)) ==> pair_value(felt_values(result@), k)
                == 0,
    ensures
        spec_verifier_data_step(
            config,
            id,
            record_config,
            ResolutionEvent::ChainReply(Ok(result)),
        ) == Ok::<ResolutionStepView, ShortStringError>(ResolutionStepView::Done(None)),
{
    lemma_no_set_pair(felt_values(result@));
}

/// A lookup that gives no name ends the resolution with no value, and
/// without an error: so does a request that was not answered, and so does
/// any reply from which the handler reads no name.
pub proof fn lemma_failed_lookup_resolves_to_none(
    config: Config,
    id: nat,
    record_config: EvmRecordVerifier,
    outcome: Result<HttpReply, TransportError>,
)
    requires
        spec_outcome_name(record_config.handler, outcome) is Err,
    ensures
        spec_verifier_data_step(
            config,
            id,
            record_config,
            ResolutionEvent::LookupReply(outcome),
        ) == Ok::<ResolutionStepView, ShortStringError>(ResolutionStepView::Done(None)),
{
}

/// Apart from the first step, no step of a resolution fails.
pub proof fn lemma_only_the_start_fails(
    config: Config,
    id: nat,
    record_config: EvmRecordVerifier,
    event: ResolutionEvent,
)
    requires
        !(event is Start),
    ensures
        spec_verifier_data_step(config, id, record_config, event) is Ok,
        spec_unbounded_data_step(config, id, record_config.field@, event) is Ok,
{
}

/// Reads a field of unbounded length out of the result buffer of its call.
///
/// The first element is a flag: zero says that the field is not set, and so
/// does a buffer without a flag. Each element behind the flag is a chunk, a
/// short string. The chunks' texts are joined in their order; a chunk that
/// holds no short string is passed over.
pub fn unbounded_data(result: &[Felt]) -> (r: Option<String>)
    ensures
        match spec_unbounded_data(felt_values(result@)) {
            Some(text) => r matches Some(s) && s@ == text,
            None => r is None,
        },
{
    if result.len() == 0 {
        return None;
    }
    if result[0].is_zero() {
        return None;
    }
    let ghost values = felt_values(result@);
    let mut text = String::new();
    let mut i: usize = 1;
    proof {
        assert(values.subrange(1, 1) =~= Seq::<nat>::empty());
    }
    while i < result.len()
        invariant
            1 <= i <= result.len(),
            values == felt_values(result@),
            text@ == joined_chunks(values.subrange(1, i as int)),
        decreases result.len() - i,
    {
        let chunk = result[i];
        proof {
            let next = values.subrange(1, i + 1);
            assert(next.drop_last() =~= values.subrange(1, i as int));
            assert(next.last() == chunk@);
        }
        match parse_cairo_short_string(&chunk) {
            Ok(part) => {
                text.append(part.as_str());
            },
            Err(_) => {
                proof {
                    assert(text@ + Seq::<char>::empty() =~= text@);
                }
            },
        }
        i += 1;
    }
    proof {
        assert(values.subrange(1, values.len() as int) =~= values.skip(1));
    }
    Some(text)
}

/// One step of resolving a field through its verifiers.
///
/// At the start the step is the aggregated call that probes the field's
/// verifiers; it fails if the field's name is no short string, and nothing
/// else fails. When the call has come back, the social id is read from its
/// result: with none set, or with a call that failed, the resolution ends
/// with no value; else the field's handler runs, and either names the id at
/// once or asks for a lookup. When the lookup has come back, the resolution
/// ends with the name in the reply, and with no value if there is none.
pub fn get_verifier_data(
    config: &Config,
    id: Felt,
    record_config: &EvmRecordVerifier,
    event: ResolutionEvent,
) -> (r: Result<ResolutionStep, ShortStringError>)
    ensures
        step_result_is(r, spec_verifier_data_step(*config, id@, *record_config, event)),
{
    match event {
        ResolutionEvent::Start => match verifier_data_call(config, id, record_config) {
            Ok(call) => Ok(ResolutionStep::CallContract(call)),
            Err(e) => Err(e),
        },
        ResolutionEvent::ChainReply(Ok(result)) => {
            let social_id = find_social_id(result.as_slice());
            if social_id.is_zero() {
                return Ok(ResolutionStep::Done(None));
            }
            match record_config.execute_handler(config, social_id) {
                HandlerStep::Name(name) => Ok(ResolutionStep::Done(Some(name))),
                HandlerStep::Lookup(request) => Ok(ResolutionStep::Lookup(request)),
            }
        },
        ResolutionEvent::ChainReply(Err(_)) => Ok(ResolutionStep::Done(None)),
        ResolutionEvent::LookupReply(outcome) => {
            match record_config.handler.name_from_outcome(&outcome) {
                Ok(name) => Ok(ResolutionStep::Done(Some(name))),
                Err(_) => Ok(ResolutionStep::Done(None)),
            }
        },
    }
}

/// One step of reading a field of unbounded length.
///
/// At the start the step is the call that reads the field; it fails if the
/// field's name is no short string, and nothing else fails. When the call
/// has come back, the resolution ends with the field read from its result,
/// and with no value if the call failed or the field is not set. No lookup
/// belongs to this resolution: after one it ends with no value.
pub fn get_unbounded_user_data(config: &Config, id: Felt, field: &str, event: ResolutionEvent) -> (r:
    Result<ResolutionStep, ShortStringError>)
    ensures
        step_result_is(r, spec_unbounded_data_step(*config, id@, field@, event)),
{
    match event {
        ResolutionEvent::Start => match unbounded_data_call(config, id, field) {
            Ok(call) => Ok(ResolutionStep::CallContract(call)),
            Err(e) => Err(e),
        },
        ResolutionEvent::ChainReply(Ok(result)) => Ok(
            ResolutionStep::Done(unbounded_data(result.as_slice())),
        ),
        ResolutionEvent::ChainReply(Err(_)) => Ok(ResolutionStep::Done(None)),
        ResolutionEvent::LookupReply(_) => Ok(ResolutionStep::Done(None)),
    }
}

} // verus!
