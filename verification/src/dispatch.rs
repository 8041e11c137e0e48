//! The solver dispatch and fallback policy: each entry strategy resolves a
//! tagged factorization event into the uniform outcome record. The events
//! record what the numerical kernels observed (which factorization
//! succeeded, and with what solution); this module fixes, for every event,
//! every field of the outcome.

use vstd::prelude::*;

use crate::outcome::SolveError;
use crate::outcome::SolveMethod;
use crate::outcome::SolverResult;

verus! {

/// Which part of a singular value decomposition could not be computed.
#[derive(Clone, Copy, PartialEq, Eq, Structural, Debug)]
pub enum SvdFailure {
    /// The left singular vectors were not available.
    MissingU,
    /// The right singular vectors were not available.
    MissingVt,
}

/// The error a failed SVD fallback reports.
pub open spec fn svd_error_of(f: SvdFailure) -> SolveError {
    match f {
        SvdFailure::MissingU => SolveError::SvdFailedU,
        SvdFailure::MissingVt => SolveError::SvdFailedVt,
    }
}

/// What the direct solve path observed: LU either solved the system, or was
/// singular and the SVD pseudo-inverse fallback was attempted in turn.
pub enum DirectEvent<V> {
    /// LU factorization solved the system.
    LuSolved { x: Vec<V> },
    /// LU found the matrix singular; the SVD fallback produced a usable
    /// solution.
    LuSingularSvdSolved { x: Vec<V> },
    /// LU found the matrix singular and the SVD fallback failed too.
    LuSingularSvdFailed { failure: SvdFailure },
}

impl<V> DirectEvent<V> {
    /// A condition number may accompany an event only when LU itself solved
    /// the system.
    pub open spec fn admits_condition_number(&self, condition_number: Option<V>) -> bool {
        condition_number is Some ==> self is LuSolved
    }
}

/// How an outcome record reports a direct-path event: every field is fixed
/// by the event. A singular system is never reported as an LU success — it
/// resolves to the SVD method with an advisory, or to an explicit failure.
pub open spec fn reports_direct<V>(
    ev: DirectEvent<V>,
    condition_number: Option<V>,
    out: SolverResult<V>,
) -> bool {
    match ev {
        DirectEvent::LuSolved { x } => {
            &&& out.displacements@ == x@
            &&& out.success
            &&& out.error is None
            &&& out.method == SolveMethod::LuDecomposition
            &&& out.condition_number == condition_number
        },
        DirectEvent::LuSingularSvdSolved { x } => {
            &&& out.displacements@ == x@
            &&& out.success
            &&& out.error == Some(SolveError::SingularMatrixAdvisory)
            &&& out.method == SolveMethod::SvdPseudoInverse
            &&& out.condition_number is None
        },
        DirectEvent::LuSingularSvdFailed { failure } => {
            &&& out.displacements@.len() == 0
            &&& !out.success
            &&& out.error == Some(svd_error_of(failure))
            &&& out.method == SolveMethod::Failed
            &&& out.condition_number is None
        },
    }
}

/// Resolves the direct (LU, with SVD fallback) path into an outcome.
pub fn direct_outcome<V>(ev: DirectEvent<V>, condition_number: Option<V>) -> (out: SolverResult<
    V,
>)
    requires
        ev.admits_condition_number(condition_number),
    ensures
        out.wf(),
        reports_direct(ev, condition_number, out),
{
    match ev {
        DirectEvent::LuSolved { x } => SolverResult {
            displacements: x,
            success: true,
            error: None,
            method: SolveMethod::LuDecomposition,
            condition_number,
        },
        DirectEvent::LuSingularSvdSolved { x } => SolverResult {
            displacements: x,
            success: true,
            error: Some(SolveError::SingularMatrixAdvisory),
            method: SolveMethod::SvdPseudoInverse,
            condition_number: None,
        },
        DirectEvent::LuSingularSvdFailed { failure } => SolverResult {
            displacements: Vec::new(),
            success: false,
            error: Some(
                match failure {
                    SvdFailure::MissingU => SolveError::SvdFailedU,
                    SvdFailure::MissingVt => SolveError::SvdFailedVt,
                },
            ),
            method: SolveMethod::Failed,
            condition_number: None,
        },
    }
}

/// What the symmetric-positive-definite path observed: Cholesky either
/// solved the system, or the matrix was not positive-definite and the whole
/// direct path ran once as fallback.
pub enum SpdEvent<V> {
    /// Cholesky factorization solved the system.
    CholeskySolved { x: Vec<V> },
    /// The matrix is not positive-definite; the direct path was taken
    /// instead, with its own condition-number estimate.
    NotSpd { fallback: DirectEvent<V>, condition_number: Option<V> },
}

impl<V> SpdEvent<V> {
    /// The condition-number rule of the embedded fallback event.
    pub open spec fn wf(&self) -> bool {
        match *self {
            SpdEvent::CholeskySolved { .. } => true,
            SpdEvent::NotSpd { fallback, condition_number } => fallback.admits_condition_number(
                condition_number,
            ),
        }
    }
}

/// Resolves the symmetric-positive-definite path: a Cholesky success is
/// reported as such, and a non-positive-definite system resolves exactly as
/// one pass of the direct path would.
pub fn spd_outcome<V>(ev: SpdEvent<V>) -> (out: SolverResult<V>)
    requires
        ev.wf(),
    ensures
        out.wf(),
        match ev {
            SpdEvent::CholeskySolved { x } => {
                &&& out.displacements@ == x@
                &&& out.success
                &&& out.error is None
                &&& out.method == SolveMethod::CholeskyDecomposition
                &&& out.condition_number is None
            },
            SpdEvent::NotSpd { fallback, condition_number } => reports_direct(
                fallback,
                condition_number,
                out,
            ),
        },
{
    match ev {
        SpdEvent::CholeskySolved { x } => SolverResult {
            displacements: x,
            success: true,
            error: None,
            method: SolveMethod::CholeskyDecomposition,
            condition_number: None,
        },
        SpdEvent::NotSpd { fallback, condition_number } => direct_outcome(
            fallback,
            condition_number,
        ),
    }
}

/// What the sparse path observed after densification: LU on the densified
/// matrix either solved the system or found it singular.
pub enum SparseEvent<V> {
    /// LU on the densified matrix solved the system.
    LuSolved { x: Vec<V> },
    /// The densified matrix is singular; the sparse path has no fallback.
    Singular,
}

/// Resolves the sparse path into an outcome. No condition number is ever
/// estimated for sparse systems.
pub fn sparse_outcome<V>(ev: SparseEvent<V>) -> (out: SolverResult<V>)
    ensures
        out.wf(),
        match ev {
            SparseEvent::LuSolved { x } => {
                &&& out.displacements@ == x@
                &&& out.success
                &&& out.error is None
                &&& out.method == SolveMethod::SparseLu
                &&& out.condition_number is None
            },
            SparseEvent::Singular => {
                &&& out.displacements@.len() == 0
                &&& !out.success
                &&& out.error == Some(SolveError::SparseSingular)
                &&& out.method == SolveMethod::Failed
                &&& out.condition_number is None
            },
        },
{
    match ev {
        SparseEvent::LuSolved { x } => SolverResult {
            displacements: x,
            success: true,
            error: None,
            method: SolveMethod::SparseLu,
            condition_number: None,
        },
        SparseEvent::Singular => SolverResult {
            displacements: Vec::new(),
            success: false,
            error: Some(SolveError::SparseSingular),
            method: SolveMethod::Failed,
            condition_number: None,
        },
    }
}

/// A system whose LU factorization failed is never reported as an LU
/// success: whatever the fallback did, the outcome is either the SVD
/// pseudo-inverse with its singular-matrix advisory, or an explicit failure
/// that names its cause — never a silently wrong answer.
pub proof fn lemma_lu_failure_never_silent<V>(
    ev: DirectEvent<V>,
    condition_number: Option<V>,
    out: SolverResult<V>,
)
    requires
        !(ev is LuSolved),
        reports_direct(ev, condition_number, out),
    ensures
        out.method != SolveMethod::LuDecomposition,
        out.success ==> out.method == SolveMethod::SvdPseudoInverse && out.error == Some(
            SolveError::SingularMatrixAdvisory,
        ),
        !out.success ==> out.error is Some && out.displacements@.len() == 0,
{
}

} // verus!
