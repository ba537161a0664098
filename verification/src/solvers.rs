//! The solver layer's error types and the convergence control that the
//! static Newton solver and the implicit dynamic time integrator share:
//! every equilibrium attempt runs a bounded iteration with stagnation
//! detection, and each failure mode is a distinct terminal error. The
//! numerical work of an iteration (assembly, factorization, error norms)
//! happens outside; the monitor decides, from the convergence and
//! improvement flags of the finished iteration, whether to continue,
//! report success, or fail.

use vstd::prelude::*;

use crate::dof::Dof;
use crate::views::position_transform;

verus! {

/// Information about a successful equilibrium solve.
#[derive(Copy, Clone, Debug, PartialEq, Eq, Structural)]
pub struct IterationInfo {
    /// Number of iterations performed.
    pub iterations: u32,
}

/// The terminal failure modes of the static solver.
#[derive(Copy, Clone, Debug, PartialEq, Eq, Structural)]
pub enum StaticSolverError {
    /// Decomposition of the tangent stiffness matrix or solution of the
    /// linear system failed.
    LinearSolutionFailed,
    /// The return value of the constraint function is not finite.
    NonFiniteConstraintEval,
    /// The displacement delta is not finite.
    NonFiniteStateIncrement,
    /// Maximum number of iterations was reached without convergence.
    MaxIterationsReached,
    /// Maximum number of iterations without improvement was reached.
    MaxStagnationReached,
    /// Aborted by the callback function's return value.
    AbortedByCaller,
}

impl StaticSolverError {
    /// A human-readable description of the error.
    pub fn message(&self) -> (m: &'static str)
        ensures
            m == match self {
                StaticSolverError::LinearSolutionFailed => "Decomposition/solution of the tangent stiffness matrix failed.",
                StaticSolverError::NonFiniteConstraintEval => "Encountered a non-finite constraint function return value.",
                StaticSolverError::NonFiniteStateIncrement => "Encountered a non-finite displacement increment.",
                StaticSolverError::MaxIterationsReached => "Maximum number of iterations exceeded.",
                StaticSolverError::MaxStagnationReached => "Maximum number of stagnating iterations exceeded.",
                StaticSolverError::AbortedByCaller => "Aborted by the caller.",
            },
    {
        match self {
            StaticSolverError::LinearSolutionFailed => "Decomposition/solution of the tangent stiffness matrix failed.",
            StaticSolverError::NonFiniteConstraintEval => "Encountered a non-finite constraint function return value.",
            StaticSolverError::NonFiniteStateIncrement => "Encountered a non-finite displacement increment.",
            StaticSolverError::MaxIterationsReached => "Maximum number of iterations exceeded.",
            StaticSolverError::MaxStagnationReached => "Maximum number of stagnating iterations exceeded.",
            StaticSolverError::AbortedByCaller => "Aborted by the caller.",
        }
    }
}

/// The terminal failure modes of the dynamic solver.
#[derive(Copy, Clone, Debug, PartialEq, Eq, Structural)]
pub enum DynamicSolverError {
    /// The mass matrix is singular, i.e. cannot be inverted.
    SingularMassMatrix,
    /// Decomposition of the effective tangent matrix or solution of the
    /// linear system failed.
    LinearSolutionFailed,
    /// The displacement delta is not finite.
    NonFiniteStateIncrement,
    /// Maximum number of iterations was reached without convergence.
    MaxIterationsReached,
    /// Maximum number of iterations without improvement was reached.
    MaxStagnationReached,
    /// Aborted by the callback function's return value.
    AbortedByCaller,
}

impl DynamicSolverError {
    /// A human-readable description of the error.
    pub fn message(&self) -> (m: &'static str)
        ensures
            m == match self {
                DynamicSolverError::SingularMassMatrix => "The system has a singular mass matrix.",
                DynamicSolverError::LinearSolutionFailed => "Decomposition/solution of the tangent stiffness matrix failed.",
                DynamicSolverError::NonFiniteStateIncrement => "Encountered a non-finite displacement increment.",
                DynamicSolverError::MaxIterationsReached => "Maximum number of iterations exceeded.",
                DynamicSolverError::MaxStagnationReached => "Maximum number of stagnating iterations exceeded.",
                DynamicSolverError::AbortedByCaller => "Aborted by the caller.",
            },
    {
        match self {
            DynamicSolverError::SingularMassMatrix => "The system has a singular mass matrix.",
            DynamicSolverError::LinearSolutionFailed => "Decomposition/solution of the tangent stiffness matrix failed.",
            DynamicSolverError::NonFiniteStateIncrement => "Encountered a non-finite displacement increment.",
            DynamicSolverError::MaxIterationsReached => "Maximum number of iterations exceeded.",
            DynamicSolverError::MaxStagnationReached => "Maximum number of stagnating iterations exceeded.",
            DynamicSolverError::AbortedByCaller => "Aborted by the caller.",
        }
    }
}

/// The failure modes of the natural-frequency solver.
#[derive(Copy, Clone, Debug, PartialEq, Eq, Structural)]
pub enum EigenSolverError {
    /// Inversion of the system matrix failed.
    MatrixInversionFailed,
    /// At least one of the computed eigenvalues is non-finite.
    NonFiniteEigenvalues,
}

impl EigenSolverError {
    /// A human-readable description of the error.
    pub fn message(&self) -> (m: &'static str)
        ensures
            m == match self {
                EigenSolverError::MatrixInversionFailed => "Inversion of the system matrix failed.",
                EigenSolverError::NonFiniteEigenvalues => "At least one of the computed Eigenvalues is non-finite.",
            },
    {
        match self {
            EigenSolverError::MatrixInversionFailed => "Inversion of the system matrix failed.",
            EigenSolverError::NonFiniteEigenvalues => "At least one of the computed Eigenvalues is non-finite.",
        }
    }
}

/// The evaluation of a static-solver constraint at the current state: its
/// value, its gradient with respect to the displacement vector, and its
/// derivative with respect to the load factor.
pub struct ConstraintEval {
    pub value: i64,
    pub grad_u: Vec<i64>,
    pub grad_lambda: i64,
}

/// Evaluates the load-controlled constraint `c = lambda - lambda_target`:
/// its displacement gradient is zero and its load-factor derivative one,
/// so the continuation is parameterized by the load factor alone.
pub fn load_control_constraint(n_dofs: usize, lambda: i64, lambda_target: i64) -> (r:
    ConstraintEval)
    requires
        i64::MIN <= lambda - lambda_target <= i64::MAX,
    ensures
        r.value == lambda - lambda_target,
        r.grad_u@.len() == n_dofs,
        forall|k: int| 0 <= k < n_dofs ==> #[trigger] r.grad_u@[k] == 0,
        r.grad_lambda == 1,
{
    let mut grad_u: Vec<i64> = Vec::new();
    let mut k: usize = 0;
    while k < n_dofs
        invariant
            k <= n_dofs,
            grad_u@.len() == k,
            forall|j: int| 0 <= j < k ==> #[trigger] grad_u@[j] == 0,
        decreases n_dofs - k,
    {
        grad_u.push(0);
        k += 1;
    }
    ConstraintEval { value: lambda - lambda_target, grad_u, grad_lambda: 1 }
}

/// Evaluates the displacement-controlled constraint `c = u[i] - u_target`
/// on the given free dof: its displacement gradient is the corresponding
/// unit vector and its load-factor derivative zero. Displacement control
/// on a fixed dof is a programmer error and is excluded.
pub fn displacement_control_constraint(u: &Vec<i64>, dof: Dof, u_target: i64) -> (r:
    ConstraintEval)
    requires
        dof is Free,
        crate::views::dof_in_range(dof, u@.len() as int),
        i64::MIN <= position_transform(u@, dof) - u_target <= i64::MAX,
    ensures
        r.value == position_transform(u@, dof) - u_target,
        r.grad_u@.len() == u@.len(),
        forall|k: int|
            0 <= k < u@.len() ==> #[trigger] r.grad_u@[k] == (if dof == Dof::Free(k as usize) {
                1i64
            } else {
                0i64
            }),
        r.grad_lambda == 0,
{
    let n_dofs: usize = u.len();
    let index: usize = match dof {
        Dof::Free(i) => i,
        Dof::Fixed(_) => {
            proof {
                assert(false);
            }
            0
        },
    };
    let mut grad_u: Vec<i64> = Vec::new();
    let mut k: usize = 0;
    while k < n_dofs
        invariant
            k <= n_dofs,
            n_dofs == u@.len(),
            index < n_dofs,
            dof == Dof::Free(index),
            grad_u@.len() == k,
            forall|j: int|
                0 <= j < k ==> #[trigger] grad_u@[j] == (if dof == Dof::Free(j as usize) {
                    1i64
                } else {
                    0i64
                }),
        decreases n_dofs - k,
    {
        if k == index {
            grad_u.push(1);
        } else {
            grad_u.push(0);
        }
        k += 1;
    }
    ConstraintEval { value: u[index] - u_target, grad_u, grad_lambda: 0 }
}

/// The monitor's verdict on one finished Newton iteration.
#[derive(Copy, Clone, Debug, PartialEq, Eq, Structural)]
pub enum IterationOutcome {
    /// Not converged yet; the solver may run another iteration.
    Continue,
    /// Both stopping criteria are met; the solve succeeded.
    Converged,
    /// The iteration budget is spent without convergence.
    MaxIterationsReached,
    /// Too many consecutive iterations without a strict improvement of
    /// either error metric.
    MaxStagnationReached,
}

impl IterationOutcome {
    /// The static solver error corresponding to a failure outcome, if any.
    pub fn static_error(&self) -> (r: Option<StaticSolverError>)
        ensures
            r == match self {
                IterationOutcome::Continue => Option::<StaticSolverError>::None,
                IterationOutcome::Converged => Option::<StaticSolverError>::None,
                IterationOutcome::MaxIterationsReached => Some(
                    StaticSolverError::MaxIterationsReached,
                ),
                IterationOutcome::MaxStagnationReached => Some(
                    StaticSolverError::MaxStagnationReached,
                ),
            },
    {
        match self {
            IterationOutcome::MaxIterationsReached => Some(StaticSolverError::MaxIterationsReached),
            IterationOutcome::MaxStagnationReached => Some(StaticSolverError::MaxStagnationReached),
            _ => None,
        }
    }

    /// The dynamic solver error corresponding to a failure outcome, if any.
    pub fn dynamic_error(&self) -> (r: Option<DynamicSolverError>)
        ensures
            r == match self {
                IterationOutcome::Continue => Option::<DynamicSolverError>::None,
                IterationOutcome::Converged => Option::<DynamicSolverError>::None,
                IterationOutcome::MaxIterationsReached => Some(
                    DynamicSolverError::MaxIterationsReached,
                ),
                IterationOutcome::MaxStagnationReached => Some(
                    DynamicSolverError::MaxStagnationReached,
                ),
            },
    {
        match self {
            IterationOutcome::MaxIterationsReached => Some(DynamicSolverError::MaxIterationsReached),
            IterationOutcome::MaxStagnationReached => Some(
                DynamicSolverError::MaxStagnationReached,
            ),
            _ => None,
        }
    }
}

/// Bounded-iteration convergence control with stagnation detection. One
/// monitor accompanies one equilibrium solve; after every Newton iteration
/// the solver reports whether the stopping criteria were met and whether
/// either error metric strictly improved on its minimum so far, and the
/// monitor decides how to proceed. Stagnation takes precedence over
/// iteration exhaustion, as the stagnation budget is checked within the
/// iteration and the iteration budget only after it.
pub struct ConvergenceMonitor {
    /// Maximum number of iterations per equilibrium solve.
    pub max_iterations: u32,
    /// Maximum number of consecutive iterations without improvement.
    pub max_stagnation: u32,
    /// Number of iterations performed so far.
    pub iterations: u32,
    /// Number of consecutive iterations without improvement.
    pub stagnations: u32,
}

impl ConvergenceMonitor {
    /// Invariant: the budgets are positive and not yet exhausted.
    pub open spec fn wf(&self) -> bool {
        &&& self.iterations < self.max_iterations
        &&& self.stagnations < self.max_stagnation
    }

    /// Creates a monitor for a fresh equilibrium solve with the given
    /// budgets.
    pub fn new(max_iterations: u32, max_stagnation: u32) -> (r: ConvergenceMonitor)
        requires
            max_iterations >= 1,
            max_stagnation >= 1,
        ensures
            r.wf(),
            r.max_iterations == max_iterations,
            r.max_stagnation == max_stagnation,
            r.iterations == 0,
            r.stagnations == 0,
    {
        ConvergenceMonitor { max_iterations, max_stagnation, iterations: 0, stagnations: 0 }
    }

    /// Information about the iterations performed so far.
    pub fn info(&self) -> (r: IterationInfo)
        ensures
            r.iterations == self.iterations,
    {
        IterationInfo { iterations: self.iterations }
    }

    /// Registers one finished iteration: `converged` says whether both
    /// stopping criteria were met, `improved` whether either error metric
    /// strictly improved on its minimum so far. The stagnation counter
    /// resets on improvement and grows otherwise; the verdict is `Continue`
    /// exactly as long as neither budget is spent and convergence has not
    /// been reached.
    pub fn register(&mut self, converged: bool, improved: bool) -> (r: IterationOutcome)
        requires
            old(self).wf(),
        ensures
            final(self).max_iterations == old(self).max_iterations,
            final(self).max_stagnation == old(self).max_stagnation,
            final(self).iterations == old(self).iterations + 1,
            final(self).stagnations == if converged {
                old(self).stagnations
            } else if improved {
                0u32
            } else {
                (old(self).stagnations + 1) as u32
            },
            r == IterationOutcome::Converged <==> converged,
            r == IterationOutcome::MaxStagnationReached <==> (!converged
                && final(self).stagnations == final(self).max_stagnation),
            r == IterationOutcome::MaxIterationsReached <==> (!converged
                && final(self).stagnations < final(self).max_stagnation
                && final(self).iterations == final(self).max_iterations),
            r == IterationOutcome::Continue <==> (!converged
                && final(self).stagnations < final(self).max_stagnation
                && final(self).iterations < final(self).max_iterations),
            r == IterationOutcome::Continue ==> final(self).wf(),
    {
        self.iterations = self.iterations + 1;
        if converged {
            return IterationOutcome::Converged;
        }
        if improved {
            self.stagnations = 0;
        } else {
            self.stagnations = self.stagnations + 1;
            if self.stagnations == self.max_stagnation {
                return IterationOutcome::MaxStagnationReached;
            }
        }
        if self.iterations == self.max_iterations {
            return IterationOutcome::MaxIterationsReached;
        }
        IterationOutcome::Continue
    }
}

} // verus!
