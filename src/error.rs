use vstd::prelude::*;

verus! {

/// The ways a smoothing call can fail.
#[derive(Debug, Clone, Copy, PartialEq, Eq, Structural)]
pub enum SmoothError {
    /// The difference order is not smaller than the number of samples.
    InvalidOrder,
    /// The sample positions are not strictly increasing, or their count
    /// differs from the number of samples.
    InvalidPositions,
    /// The system `W + lambda * D'D` is not positive definite.
    SingularSystem,
}

} // verus!
