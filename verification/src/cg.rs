//! Iteration control of the conjugate-gradient solver. The floating-point
//! recurrence runs outside this crate; each pass reports here whether the
//! residual norm fell below the tolerance, and this module accounts for the
//! iteration budget, the convergence flag, and the final outcome record.

use vstd::prelude::*;

use crate::outcome::SolveError;
use crate::outcome::SolveMethod;
use crate::outcome::SolverResult;

verus! {

/// Tracks a conjugate-gradient run: how many iterations have executed
/// (1-based, counting the converging one), whether the residual test has
/// passed, and whether the loop is over.
pub struct CgControl {
    /// Iteration budget supplied by the caller.
    pub max_iterations: usize,
    /// Iterations executed so far.
    pub iterations: usize,
    /// Whether the residual norm fell below the tolerance.
    pub converged: bool,
    /// Whether the run is over, by convergence or exhaustion.
    pub finished: bool,
}

impl CgControl {
    /// Invariant of a run: the budget is never exceeded, convergence ends
    /// the run, and the run ends only by convergence or a spent budget.
    pub open spec fn wf(&self) -> bool {
        &&& self.iterations <= self.max_iterations
        &&& self.converged ==> self.finished
        &&& self.finished ==> (self.converged || self.iterations == self.max_iterations)
        &&& self.iterations == self.max_iterations ==> self.finished
    }

    /// Starts a run: nothing executed, not converged; a zero budget is
    /// already finished.
    pub fn new(max_iterations: usize) -> (c: CgControl)
        ensures
            c.wf(),
            c.max_iterations == max_iterations,
            c.iterations == 0,
            !c.converged,
            c.finished <==> max_iterations == 0,
    {
        CgControl { max_iterations, iterations: 0, converged: false, finished: max_iterations == 0 }
    }

    /// Records one executed iteration. The caller reports whether the
    /// Euclidean norm of the updated residual fell below the tolerance; the
    /// run converges exactly then, and otherwise continues until the budget
    /// is spent.
    pub fn record_iteration(&mut self, residual_below_tolerance: bool)
        requires
            old(self).wf(),
            !old(self).finished,
        ensures
            final(self).wf(),
            final(self).max_iterations == old(self).max_iterations,
            final(self).iterations == old(self).iterations + 1,
            final(self).converged <==> residual_below_tolerance,
            final(self).finished <==> (residual_below_tolerance || old(self).iterations + 1
                == old(self).max_iterations),
    {
        self.iterations = self.iterations + 1;
        self.converged = residual_below_tolerance;
        self.finished = residual_below_tolerance || self.iterations == self.max_iterations;
    }
}

/// Resolves a finished conjugate-gradient run into an outcome. Unlike every
/// other failure path, a non-converged run keeps its best iterate: the
/// partial solution is typically a useful approximation.
pub fn cg_outcome<V>(x: Vec<V>, control: &CgControl) -> (out: SolverResult<V>)
    requires
        control.wf(),
        control.finished,
    ensures
        out.wf(),
        out.displacements@ == x@,
        out.success <==> control.converged,
        out.method == (SolveMethod::ConjugateGradient { iterations: control.iterations }),
        out.condition_number is None,
        control.converged ==> out.error is None,
        !control.converged ==> out.error == Some(
            SolveError::CgDidNotConverge { iterations: control.iterations },
        ),
{
    SolverResult {
        displacements: x,
        success: control.converged,
        error: if control.converged {
            None
        } else {
            Some(SolveError::CgDidNotConverge { iterations: control.iterations })
        },
        method: SolveMethod::ConjugateGradient { iterations: control.iterations },
        condition_number: None,
    }
}

/// Iteration accounting of a finished conjugate-gradient run: the count of
/// executed iterations never exceeds the budget, and a run that did not
/// converge used the whole budget.
pub proof fn lemma_cg_iteration_accounting(control: CgControl)
    requires
        control.wf(),
        control.finished,
    ensures
        control.iterations <= control.max_iterations,
        !control.converged ==> control.iterations == control.max_iterations,
{
}

} // verus!
