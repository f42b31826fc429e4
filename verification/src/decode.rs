//! Reading the flat result buffer of the aggregated call.
//!
//! The buffer starts with two header elements of the aggregator. After them
//! come the probed verifiers' answers, two elements each and in the order in
//! which the verifiers were encoded: a filler and the value.

use crate::felt::Felt;
use vstd::prelude::*;

verus! {

/// Number of header elements in front of the first pair.
pub const HEADER_LEN: usize = 2;

/// Number of elements of one pair.
pub const PAIR_LEN: usize = 2;

/// Offset of the value inside a pair.
pub const VALUE_OFFSET: usize = 1;

/// The values of a buffer of field elements.
pub open spec fn felt_values(buf: Seq<Felt>) -> Seq<nat> {
    buf.map_values(|f: Felt| f@)
}

/// Index in the buffer of the value of pair `k`.
pub open spec fn value_index(k: int) -> int {
    HEADER_LEN + PAIR_LEN * k + VALUE_OFFSET
}

/// Number of complete pairs in a buffer.
pub open spec fn pair_count(buf: Seq<nat>) -> int {
    if buf.len() < HEADER_LEN + PAIR_LEN {
        0
    } else {
        (buf.len() - HEADER_LEN) / (PAIR_LEN as int)
    }
}

/// The value of pair `k`.
pub open spec fn pair_value(buf: Seq<nat>, k: int) -> nat {
    buf[value_index(k)]
}

/// The value of the first pair, from pair `k` on, whose value is not zero;
/// zero if there is none.
pub open spec fn first_set_value(buf: Seq<nat>, k: int) -> nat
    decreases pair_count(buf) - k,
{
    if k < 0 || k >= pair_count(buf) {
        0
    } else if pair_value(buf, k) != 0 {
        pair_value(buf, k)
    } else {
        first_set_value(buf, k + 1)
    }
}

/// The social id that a result buffer holds: the value of its first pair
/// whose value is not zero, and zero if no pair has one.
pub open spec fn spec_find_social_id(buf: Seq<nat>) -> nat {
    first_set_value(buf, 0)
}

/// From pair `from` on, the first pair with a value wins: if pair `k` has a
/// value and no pair from `from` up to `k` has one, the scan gives the value
/// of pair `k`.
pub proof fn lemma_first_set_value(buf: Seq<nat>, from: int, k: int)
    requires
        0 <= from <= k < pair_count(buf),
        pair_value(buf, k) != 0,
        forall|j: int| from <= j < k ==> pair_value(buf, j) == 0,
    ensures
        first_set_value(buf, from) == pair_value(buf, k),
    decreases k - from,
{
    if from < k {
        lemma_first_set_value(buf, from + 1, k);
    }
}

/// Where no pair from `from` on has a value, the scan gives zero.
pub proof fn lemma_first_set_value_none(buf: Seq<nat>, from: int)
    requires
        0 <= from,
        forall|j: int| from <= j < pair_count(buf) ==> pair_value(buf, j) == 0,
    ensures
        first_set_value(buf, from) == 0,
    decreases pair_count(buf) - from,
{
    if from < pair_count(buf) {
        lemma_first_set_value_none(buf, from + 1);
    }
}

/// A buffer in which exactly one pair has a value holds that value, wherever
/// the pair stands and however many pairs there are.
pub proof fn lemma_single_set_pair(buf: Seq<nat>, k: int)
    requires
        0 <= k < pair_count(buf),
        pair_value(buf, k) != 0,
        forall|j: int| 0 <= j < pair_count(buf) && j != k ==> pair_value(buf, j) == 0,
    ensures
        spec_find_social_id(buf) == pair_value(buf, k),
{
    lemma_first_set_value(buf, 0, k);
}

/// Of several pairs with a value the earliest wins.
pub proof fn lemma_earliest_pair_wins(buf: Seq<nat>, k: int, later: int)
    requires
        0 <= k < later < pair_count(buf),
        pair_value(buf, k) != 0,
        pair_value(buf, later) != 0,
        forall|j: int| 0 <= j < k ==> pair_value(buf, j) == 0,
    ensures
        spec_find_social_id(buf) == pair_value(buf, k),
{
    lemma_first_set_value(buf, 0, k);
}

/// A buffer in which no pair has a value holds the social id zero; so does a
/// buffer too short to hold a pair.
pub proof fn lemma_no_set_pair(buf: Seq<nat>)
    requires
        forall|j: int| 0 <= j < pair_count(buf) ==> pair_value(buf, j) == 0,
    ensures
        spec_find_social_id(buf) == 0,
{
    lemma_first_set_value_none(buf, 0);
}

/// Finds the social id in the result buffer of the aggregated call.
///
/// The two header elements are skipped and the rest is read pair by pair.
/// The value of the first pair whose value is not zero is returned. Zero is
/// returned if no pair has a value, also for a buffer too short to hold one.
/// An element left over after the last pair is not read.
pub fn find_social_id(result: &[Felt]) -> (r: Felt)
    ensures
        r@ == spec_find_social_id(felt_values(result@)),
{
    let ghost buf = felt_values(result@);
    let len = result.len();
    if len < HEADER_LEN + PAIR_LEN {
        return Felt::zero();
    }
    let pairs: usize = (len - HEADER_LEN) / PAIR_LEN;
    let mut k: usize = 0;
    while k < pairs
        invariant
            k <= pairs,
            pairs == pair_count(buf),
            buf == felt_values(result@),
            len == result@.len(),
            first_set_value(buf, 0) == first_set_value(buf, k as int),
        decreases pairs - k,
    {
        let value = result[HEADER_LEN + PAIR_LEN * k + VALUE_OFFSET];
        if !value.is_zero() {
            return value;
        }
        k += 1;
    }
    Felt::zero()
}

} // verus!
