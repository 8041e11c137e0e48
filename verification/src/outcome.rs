//! The uniform result record that every solve path produces, together with
//! its structural invariant and the method labels reported to callers.

use vstd::prelude::*;

verus! {

/// The algorithm that ultimately produced a solve outcome, including
/// fallback chains.
#[derive(Clone, Copy, PartialEq, Eq, Structural, Debug)]
pub enum SolveMethod {
    /// Dense LU factorization solved the system directly.
    LuDecomposition,
    /// LU failed and the SVD pseudo-inverse fallback produced the answer.
    SvdPseudoInverse,
    /// Cholesky factorization solved a symmetric positive-definite system.
    CholeskyDecomposition,
    /// LU factorization of a densified sparse matrix.
    SparseLu,
    /// Conjugate gradient, with the 1-based count of iterations executed.
    ConjugateGradient { iterations: usize },
    /// No algorithm produced a usable answer.
    Failed,
}

/// Why a solve failed, or the advisory attached to a degraded success.
#[derive(Clone, Copy, PartialEq, Eq, Structural, Debug)]
pub enum SolveError {
    /// The direct factorization failed and the SVD fallback produced the
    /// answer; the matrix may be singular.
    SingularMatrixAdvisory,
    /// The SVD could not compute the left singular vectors.
    SvdFailedU,
    /// The SVD could not compute the right singular vectors.
    SvdFailedVt,
    /// The densified sparse matrix is singular.
    SparseSingular,
    /// Conjugate gradient exhausted its budget after this many iterations.
    CgDidNotConverge { iterations: usize },
}

/// The uniform record every solve path resolves to. `V` is the scalar type
/// of the host's numeric data; this crate never inspects a scalar.
pub struct SolverResult<V> {
    /// Solution (displacement) vector; empty on failure, except that a
    /// non-converged conjugate-gradient run keeps its best iterate.
    pub displacements: Vec<V>,
    /// Whether the solve produced a trustworthy answer.
    pub success: bool,
    /// Failure cause, or an advisory on a degraded success.
    pub error: Option<SolveError>,
    /// Which algorithm produced the record.
    pub method: SolveMethod,
    /// Condition-number estimate; attached only on the direct LU path.
    pub condition_number: Option<V>,
}

impl<V> SolverResult<V> {
    /// Structural invariant of every outcome this library assembles:
    /// a failure always names its cause; every failed path except
    /// conjugate gradient empties the displacements; a success carries an
    /// error only as the SVD-fallback advisory; and a condition number is
    /// attached only to a direct LU solve.
    pub open spec fn wf(&self) -> bool {
        &&& !self.success ==> self.error is Some
        &&& (!self.success && !(self.method is ConjugateGradient)) ==> self.displacements@.len() == 0
        &&& (self.success && self.error is Some) ==> self.method is SvdPseudoInverse
        &&& self.condition_number is Some ==> self.method is LuDecomposition
    }
}

/// The fixed label of each method, as the host reports it. The
/// conjugate-gradient label carries its iteration count separately.
pub open spec fn method_label_spec(m: SolveMethod) -> Seq<char> {
    match m {
        SolveMethod::LuDecomposition => "LU Decomposition"@,
        SolveMethod::SvdPseudoInverse => "SVD Pseudo-inverse"@,
        SolveMethod::CholeskyDecomposition => "Cholesky Decomposition"@,
        SolveMethod::SparseLu => "Sparse LU"@,
        SolveMethod::ConjugateGradient { .. } => "Conjugate Gradient"@,
        SolveMethod::Failed => "Failed"@,
    }
}

/// Base label of the algorithm behind an outcome.
pub fn method_label(m: &SolveMethod) -> (label: &'static str)
    ensures
        label@ == method_label_spec(*m),
{
    match m {
        SolveMethod::LuDecomposition => "LU Decomposition",
        SolveMethod::SvdPseudoInverse => "SVD Pseudo-inverse",
        SolveMethod::CholeskyDecomposition => "Cholesky Decomposition",
        SolveMethod::SparseLu => "Sparse LU",
        SolveMethod::ConjugateGradient { .. } => "Conjugate Gradient",
        SolveMethod::Failed => "Failed",
    }
}

} // verus!
