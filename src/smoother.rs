use vstd::prelude::*;
use crate::error::SmoothError;
use crate::validate::{check_order, check_positions, strictly_increasing};
use crate::weights::{
    count_observed, impute, imputed_of, observation_weights, observed_count, weight_of,
};

verus! {

/// The inputs of the banded solve `(W + lambda * D'D) z = W y`, ready to be
/// handed to the numeric solver.
pub struct SmoothingProblem {
    /// Difference order `d` of the penalty.
    pub order: usize,
    /// Diagonal of `W`: `0` for a missing sample, `1` otherwise.
    pub weights: Vec<u8>,
    /// Bit patterns of `y` with missing samples replaced by `+0.0`.
    pub values: Vec<u64>,
}

impl View for SmoothingProblem {
    type V = (nat, Seq<u8>, Seq<u64>);

    open spec fn view(&self) -> (nat, Seq<u8>, Seq<u64>) {
        (self.order as nat, self.weights@, self.values@)
    }
}

/// Positions, when given, are one per sample and strictly increasing.
pub open spec fn positions_ok(n: nat, x: Option<Seq<u64>>) -> bool {
    match x {
        Some(v) => v.len() == n && strictly_increasing(v),
        None => true,
    }
}

pub open spec fn positions_view(x: Option<&Vec<u64>>) -> Option<Seq<u64>> {
    match x {
        Some(v) => Some(v@),
        None => None,
    }
}

pub open spec fn problem_view(r: Result<SmoothingProblem, SmoothError>) -> Result<
    (nat, Seq<u8>, Seq<u64>),
    SmoothError,
> {
    match r {
        Ok(p) => Ok(p@),
        Err(e) => Err(e),
    }
}

/// `W + lambda * D'D` is singular. With `lambda > 0` its null space is that
/// of the polynomials of degree below `order` that vanish at every observed
/// position, which is trivial exactly when at least `order` samples are
/// observed. With `lambda = 0` it is `W`, regular only when every sample is
/// observed.
pub open spec fn singular(y: Seq<u64>, order: nat, penalized: bool) -> bool {
    if penalized {
        count_observed(y) < order
    } else {
        count_observed(y) < y.len()
    }
}

/// The outcome of validating a smoothing call: its first failing check, or
/// the order, the weights and the imputed samples of its system.
pub open spec fn outcome(y: Seq<u64>, x: Option<Seq<u64>>, order: nat, penalized: bool) -> Result<
    (nat, Seq<u8>, Seq<u64>),
    SmoothError,
> {
    if order >= y.len() {
        Err(SmoothError::InvalidOrder)
    } else if !positions_ok(y.len(), x) {
        Err(SmoothError::InvalidPositions)
    } else if singular(y, order, penalized) {
        Err(SmoothError::SingularSystem)
    } else {
        Ok(
            (
                order,
                Seq::new(y.len(), |i: int| weight_of(y[i])),
                Seq::new(y.len(), |i: int| imputed_of(y[i])),
            ),
        )
    }
}

/// Validates a smoothing call and builds its weighted system.
///
/// `y` holds the samples as bit patterns (NaN marks a missing one), `x` the
/// optional sample positions, `order` the difference order, and `penalized`
/// tells whether `lambda` is positive. Checks come in this order: the order
/// against the sample count, then the positions, then the regularity of the
/// system.
pub fn prepare(y: &Vec<u64>, x: Option<&Vec<u64>>, order: u64, penalized: bool) -> (r: Result<
    SmoothingProblem,
    SmoothError,
>)
    ensures
        problem_view(r) == outcome(y@, positions_view(x), order as nat, penalized),
{
    let n = y.len();
    match check_order(n, order) {
        Err(e) => {
            return Err(e);
        },
        Ok(()) => {},
    }
    match x {
        Some(v) => match check_positions(n, v) {
            Err(e) => {
                return Err(e);
            },
            Ok(()) => {},
        },
        None => {},
    }
    let d = order as usize;
    let observed = observed_count(y);
    let is_singular = if penalized {
        observed < d
    } else {
        observed < n
    };
    if is_singular {
        return Err(SmoothError::SingularSystem);
    }
    let weights = observation_weights(y);
    let values = impute(y);
    let p = SmoothingProblem { order: d, weights, values };
    assert(p@.1 =~= Seq::new(y@.len(), |i: int| weight_of(y@[i])));
    assert(p@.2 =~= Seq::new(y@.len(), |i: int| imputed_of(y@[i])));
    Ok(p)
}

} // verus!
