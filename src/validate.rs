use vstd::prelude::*;
use crate::error::SmoothError;
use crate::ieee::{float_lt, precedes};

verus! {

/// Every position is strictly smaller than the next one.
pub open spec fn strictly_increasing(x: Seq<u64>) -> bool {
    forall|i: int| 0 <= i < x.len() - 1 ==> #[trigger] float_lt(x[i], x[i + 1])
}

/// A difference operator of order `order` over `n` samples has `n - order`
/// rows, so the order must be smaller than the sample count.
pub fn check_order(n: usize, order: u64) -> (r: Result<(), SmoothError>)
    ensures
        r is Ok <==> (order as int) < n,
        r is Err ==> r == Err::<(), SmoothError>(SmoothError::InvalidOrder),
{
    if order < n as u64 {
        Ok(())
    } else {
        Err(SmoothError::InvalidOrder)
    }
}

/// Sample positions must be one per sample and strictly increasing.
pub fn check_positions(n: usize, x: &Vec<u64>) -> (r: Result<(), SmoothError>)
    ensures
        r is Ok <==> x@.len() == n && strictly_increasing(x@),
        r is Err ==> r == Err::<(), SmoothError>(SmoothError::InvalidPositions),
{
    if x.len() != n {
        return Err(SmoothError::InvalidPositions);
    }
    let mut i: usize = 1;
    while i < x.len()
        invariant
            1 <= i,
            x@.len() > 0 ==> i <= x@.len(),
            forall|k: int| 0 <= k < i - 1 ==> #[trigger] float_lt(x@[k], x@[k + 1]),
        decreases x@.len() - i,
    {
        if !precedes(x[i - 1], x[i]) {
            assert(!float_lt(x@[i - 1], x@[(i - 1) + 1]));
            return Err(SmoothError::InvalidPositions);
        }
        i = i + 1;
    }
    Ok(())
}

} // verus!
