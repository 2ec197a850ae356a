use vstd::prelude::*;
use crate::ieee::{nan, PLACEHOLDER_BITS};
use crate::smoother::{outcome, positions_ok, singular};
use crate::error::SmoothError;
use crate::weights::count_observed;

verus! {

proof fn lemma_all_observed_count(y: Seq<u64>)
    requires
        forall|i: int| 0 <= i < y.len() ==> !nan(#[trigger] y[i]),
    ensures
        count_observed(y) == y.len(),
    decreases y.len(),
{
    if y.len() > 0 {
        let p = y.drop_last();
        assert forall|i: int| 0 <= i < p.len() implies !nan(#[trigger] p[i]) by {
            assert(p[i] == y[i]);
        }
        lemma_all_observed_count(p);
    }
}

proof fn lemma_count_after_missing(y: Seq<u64>, i: int, m: u64)
    requires
        0 <= i < y.len(),
        nan(m),
    ensures
        count_observed(y.update(i, m)) <= count_observed(y),
    decreases y.len(),
{
    let z = y.update(i, m);
    if i == y.len() - 1 {
        assert(z.drop_last() =~= y.drop_last());
    } else {
        assert(z.drop_last() =~= y.drop_last().update(i, m));
        lemma_count_after_missing(y.drop_last(), i, m);
    }
}

/// A call that validates yields one weight and one value per sample, so the
/// smoothed series it leads to has the length of the input.
pub proof fn law_system_has_sample_length(
    y: Seq<u64>,
    x: Option<Seq<u64>>,
    order: nat,
    penalized: bool,
)
    ensures
        outcome(y, x, order, penalized) is Ok ==> {
            let p = outcome(y, x, order, penalized)->Ok_0;
            p.1.len() == y.len() && p.2.len() == y.len()
        },
{
}

/// With `lambda = 0` and no sample missing, the system is `I z = y`: every
/// weight is one and the right-hand side is the input itself, so the fit
/// reproduces the input.
pub proof fn law_unpenalized_reproduces_input(y: Seq<u64>, x: Option<Seq<u64>>, order: nat)
    requires
        forall|i: int| 0 <= i < y.len() ==> !nan(#[trigger] y[i]),
        order < y.len(),
        positions_ok(y.len(), x),
    ensures
        outcome(y, x, order, false) == Ok::<(nat, Seq<u8>, Seq<u64>), SmoothError>(
            (order, Seq::new(y.len(), |i: int| 1u8), y),
        ),
{
    lemma_all_observed_count(y);
    assert(!singular(y, order, false));
    let o = outcome(y, x, order, false)->Ok_0;
    assert(o.1 =~= Seq::new(y.len(), |i: int| 1u8));
    assert(o.2 =~= y);
}

/// Valid sample positions leave the weights and values of the system as they
/// are without positions: only the difference operator depends on them.
pub proof fn law_positions_keep_system(
    y: Seq<u64>,
    x: Seq<u64>,
    order: nat,
    penalized: bool,
)
    requires
        positions_ok(y.len(), Some(x)),
    ensures
        outcome(y, Some(x), order, penalized) == outcome(y, None, order, penalized),
{
}

/// Marking one sample as missing changes only that sample's entries: its
/// weight drops to zero and its value becomes the placeholder, so the fit
/// there comes from the penalty alone.
pub proof fn law_missing_sample_is_unweighted(
    y: Seq<u64>,
    x: Option<Seq<u64>>,
    order: nat,
    penalized: bool,
    i: int,
    m: u64,
)
    requires
        0 <= i < y.len(),
        nan(m),
    ensures
        outcome(y.update(i, m), x, order, penalized) is Ok ==> {
            &&& outcome(y, x, order, penalized) is Ok
            &&& outcome(y.update(i, m), x, order, penalized)->Ok_0 == (
                order,
                outcome(y, x, order, penalized)->Ok_0.1.update(i, 0u8),
                outcome(y, x, order, penalized)->Ok_0.2.update(i, PLACEHOLDER_BITS),
            )
        },
{
    let z = y.update(i, m);
    if outcome(z, x, order, penalized) is Ok {
        lemma_count_after_missing(y, i, m);
        let a = outcome(z, x, order, penalized)->Ok_0;
        let b = outcome(y, x, order, penalized)->Ok_0;
        assert(a.1 =~= b.1.update(i, 0u8));
        assert(a.2 =~= b.2.update(i, PLACEHOLDER_BITS));
    }
}

} // verus!
