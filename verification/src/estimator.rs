//! Gating policy of the condition-number estimator. The estimator itself is
//! power iteration on floating-point data and runs outside this crate; the
//! size gate and the iteration budget are fixed here.

use vstd::prelude::*;

verus! {

/// Largest matrix dimension on which the condition number is estimated.
pub const MAX_ESTIMATED_DIM: usize = 100;

/// Number of power-iteration steps used for each eigenvalue estimate.
pub const POWER_ITERATION_STEPS: usize = 50;

/// Whether the condition-number estimator runs at all: it is skipped for
/// matrices of dimension greater than 100, purely as cost control.
pub fn condition_estimation_enabled(n: usize) -> (enabled: bool)
    ensures
        enabled <==> n <= 100,
{
    n <= MAX_ESTIMATED_DIM
}

} // verus!
