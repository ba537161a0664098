use bow_solver::solvers::{
    ConvergenceMonitor, DynamicSolverError, EigenSolverError, IterationOutcome, StaticSolverError,
};

#[test]
fn monitor_reports_convergence_with_iteration_count() {
    let mut monitor = ConvergenceMonitor::new(50, 10);
    assert_eq!(monitor.register(false, true), IterationOutcome::Continue);
    assert_eq!(monitor.register(false, true), IterationOutcome::Continue);
    assert_eq!(monitor.register(true, true), IterationOutcome::Converged);
    assert_eq!(monitor.info().iterations, 3);
}

#[test]
fn monitor_detects_stagnation() {
    let mut monitor = ConvergenceMonitor::new(50, 3);
    assert_eq!(monitor.register(false, true), IterationOutcome::Continue);
    assert_eq!(monitor.register(false, false), IterationOutcome::Continue);
    assert_eq!(monitor.register(false, false), IterationOutcome::Continue);
    // An improvement resets the stagnation counter.
    assert_eq!(monitor.register(false, true), IterationOutcome::Continue);
    assert_eq!(monitor.register(false, false), IterationOutcome::Continue);
    assert_eq!(monitor.register(false, false), IterationOutcome::Continue);
    assert_eq!(
        monitor.register(false, false),
        IterationOutcome::MaxStagnationReached
    );
}

#[test]
fn monitor_exhausts_iteration_budget() {
    let mut monitor = ConvergenceMonitor::new(3, 10);
    assert_eq!(monitor.register(false, true), IterationOutcome::Continue);
    assert_eq!(monitor.register(false, true), IterationOutcome::Continue);
    assert_eq!(
        monitor.register(false, true),
        IterationOutcome::MaxIterationsReached
    );
    assert_eq!(monitor.info().iterations, 3);
}

#[test]
fn monitor_stagnation_takes_precedence_on_last_iteration() {
    let mut monitor = ConvergenceMonitor::new(2, 2);
    assert_eq!(monitor.register(false, false), IterationOutcome::Continue);
    assert_eq!(
        monitor.register(false, false),
        IterationOutcome::MaxStagnationReached
    );
}

#[test]
fn outcome_maps_to_solver_errors() {
    assert_eq!(IterationOutcome::Continue.static_error(), None);
    assert_eq!(IterationOutcome::Converged.static_error(), None);
    assert_eq!(
        IterationOutcome::MaxIterationsReached.static_error(),
        Some(StaticSolverError::MaxIterationsReached)
    );
    assert_eq!(
        IterationOutcome::MaxStagnationReached.static_error(),
        Some(StaticSolverError::MaxStagnationReached)
    );

    assert_eq!(IterationOutcome::Continue.dynamic_error(), None);
    assert_eq!(IterationOutcome::Converged.dynamic_error(), None);
    assert_eq!(
        IterationOutcome::MaxIterationsReached.dynamic_error(),
        Some(DynamicSolverError::MaxIterationsReached)
    );
    assert_eq!(
        IterationOutcome::MaxStagnationReached.dynamic_error(),
        Some(DynamicSolverError::MaxStagnationReached)
    );
}

#[test]
fn error_messages() {
    assert_eq!(
        StaticSolverError::LinearSolutionFailed.message(),
        "Decomposition/solution of the tangent stiffness matrix failed."
    );
    assert_eq!(
        StaticSolverError::NonFiniteConstraintEval.message(),
        "Encountered a non-finite constraint function return value."
    );
    assert_eq!(
        StaticSolverError::NonFiniteStateIncrement.message(),
        "Encountered a non-finite displacement increment."
    );
    assert_eq!(
        StaticSolverError::MaxIterationsReached.message(),
        "Maximum number of iterations exceeded."
    );
    assert_eq!(
        StaticSolverError::MaxStagnationReached.message(),
        "Maximum number of stagnating iterations exceeded."
    );
    assert_eq!(StaticSolverError::AbortedByCaller.message(), "Aborted by the caller.");

    assert_eq!(
        DynamicSolverError::SingularMassMatrix.message(),
        "The system has a singular mass matrix."
    );
    assert_eq!(
        DynamicSolverError::LinearSolutionFailed.message(),
        "Decomposition/solution of the tangent stiffness matrix failed."
    );
    assert_eq!(
        DynamicSolverError::NonFiniteStateIncrement.message(),
        "Encountered a non-finite displacement increment."
    );
    assert_eq!(
        DynamicSolverError::MaxIterationsReached.message(),
        "Maximum number of iterations exceeded."
    );
    assert_eq!(
        DynamicSolverError::MaxStagnationReached.message(),
        "Maximum number of stagnating iterations exceeded."
    );
    assert_eq!(DynamicSolverError::AbortedByCaller.message(), "Aborted by the caller.");

    assert_eq!(
        EigenSolverError::MatrixInversionFailed.message(),
        "Inversion of the system matrix failed."
    );
    assert_eq!(
        EigenSolverError::NonFiniteEigenvalues.message(),
        "At least one of the computed Eigenvalues is non-finite."
    );
}

#[test]
fn load_control_constraint_values() {
    let eval = bow_solver::solvers::load_control_constraint(3, 7, 10);
    assert_eq!(eval.value, -3);
    assert_eq!(eval.grad_u, vec![0, 0, 0]);
    assert_eq!(eval.grad_lambda, 1);
}

#[test]
fn displacement_control_constraint_values() {
    let u: Vec<i64> = vec![4, -2, 9];
    let eval = bow_solver::solvers::displacement_control_constraint(
        &u,
        bow_solver::dof::Dof::Free(1),
        -5,
    );
    assert_eq!(eval.value, 3);
    assert_eq!(eval.grad_u, vec![0, 1, 0]);
    assert_eq!(eval.grad_lambda, 0);
}
