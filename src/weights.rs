use vstd::prelude::*;
use crate::ieee::{is_missing, nan, PLACEHOLDER_BITS};

verus! {

/// Weight of one sample: `0` for a missing one, `1` for an observed one.
pub open spec fn weight_of(b: u64) -> u8 {
    if nan(b) { 0 } else { 1 }
}

/// The value handed to the solver for one sample: missing samples are
/// replaced by `+0.0`, whose value is irrelevant under a zero weight.
pub open spec fn imputed_of(b: u64) -> u64 {
    if nan(b) { PLACEHOLDER_BITS } else { b }
}

/// Number of observed (non-missing) samples.
pub open spec fn count_observed(y: Seq<u64>) -> nat
    decreases y.len(),
{
    if y.len() == 0 {
        0
    } else {
        count_observed(y.drop_last()) + if nan(y.last()) { 0nat } else { 1nat }
    }
}

proof fn lemma_count_observed_bounded(y: Seq<u64>)
    ensures
        count_observed(y) <= y.len(),
    decreases y.len(),
{
    if y.len() > 0 {
        lemma_count_observed_bounded(y.drop_last());
    }
}

/// The weight of each sample, in order.
pub fn observation_weights(y: &Vec<u64>) -> (r: Vec<u8>)
    ensures
        r@.len() == y@.len(),
        forall|i: int| 0 <= i < y@.len() ==> r@[i] == weight_of(#[trigger] y@[i]),
{
    let mut r: Vec<u8> = Vec::with_capacity(y.len());
    let mut i: usize = 0;
    while i < y.len()
        invariant
            i <= y@.len(),
            r@.len() == i,
            forall|k: int| 0 <= k < i ==> r@[k] == weight_of(#[trigger] y@[k]),
        decreases y@.len() - i,
    {
        let w: u8 = if is_missing(y[i]) { 0 } else { 1 };
        r.push(w);
        i = i + 1;
    }
    r
}

/// The samples with each missing one replaced by the placeholder.
pub fn impute(y: &Vec<u64>) -> (r: Vec<u64>)
    ensures
        r@.len() == y@.len(),
        forall|i: int| 0 <= i < y@.len() ==> r@[i] == imputed_of(#[trigger] y@[i]),
{
    let mut r: Vec<u64> = Vec::with_capacity(y.len());
    let mut i: usize = 0;
    while i < y.len()
        invariant
            i <= y@.len(),
            r@.len() == i,
            forall|k: int| 0 <= k < i ==> r@[k] == imputed_of(#[trigger] y@[k]),
        decreases y@.len() - i,
    {
        let v: u64 = if is_missing(y[i]) { PLACEHOLDER_BITS } else { y[i] };
        r.push(v);
        i = i + 1;
    }
    r
}

/// How many samples are observed, that is carry a positive weight.
pub fn observed_count(y: &Vec<u64>) -> (r: usize)
    ensures
        r == count_observed(y@),
{
    let mut c: usize = 0;
    let mut i: usize = 0;
    while i < y.len()
        invariant
            i <= y@.len(),
            c == count_observed(y@.subrange(0, i as int)),
        decreases y@.len() - i,
    {
        proof {
            let s = y@.subrange(0, i as int + 1);
            assert(s.drop_last() =~= y@.subrange(0, i as int));
            lemma_count_observed_bounded(y@.subrange(0, i as int));
        }
        if !is_missing(y[i]) {
            c = c + 1;
        }
        i = i + 1;
    }
    assert(y@.subrange(0, y@.len() as int) =~= y@);
    c
}

} // verus!
