//! Core logic of a linear-system solver for structural stiffness equations
//! `K x = F`.
//!
//! The numerical kernels (LU, Cholesky, SVD, conjugate-gradient arithmetic)
//! run on floating-point data outside this crate; everything that can be
//! stated over plain values is here, verified: input validation, sparse
//! ingestion and densification structure, the solver dispatch and fallback
//! policy, conjugate-gradient iteration control, condition-estimator gating,
//! and the assembly of the uniform solve outcome.

use vstd::prelude::*;

pub mod cg;
pub mod dispatch;
pub mod estimator;
pub mod ingest;
pub mod outcome;
pub mod sparse;

verus! {

/// Version label reported to callers.
pub fn get_solver_version() -> (v: &'static str)
    ensures
        v@ == "0.1.0"@,
{
    "0.1.0"
}

/// Liveness probe: the solver module is loaded and callable.
pub fn health_check() -> (ok: bool)
    ensures
        ok,
{
    true
}

} // verus!
