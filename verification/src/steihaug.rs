//! Branch policy of the Steihaug truncated conjugate-gradient iteration.
//!
//! The inner solver minimizes the local quadratic model within the
//! trust-region ball.  Each conjugate-gradient step either leaves the ball
//! (and is truncated at the boundary), converges in the interior, or
//! advances to the next direction; the call as a whole is refused once a
//! lifetime iteration budget is spent.  The floating-point vector arithmetic
//! lives with the caller, which reports each comparison it made; every
//! branch taken on those comparisons is decided here.

use vstd::prelude::*;

verus! {

/// What one conjugate-gradient step does, in the order the conditions are
/// examined.
#[derive(Clone, Copy, Debug, PartialEq, Eq, Structural)]
pub enum CgStepAction {
    /// The candidate iterate leaves the trust region but the boundary
    /// crossing has no finite root: degenerate curvature, fatal to the call.
    FailDegenerate,
    /// The candidate iterate leaves the trust region: extend the current
    /// iterate to the boundary along the search direction and stop, a
    /// success.
    TruncateAtBoundary,
    /// The updated residual is within tolerance: keep the candidate iterate
    /// and stop, a success.
    AcceptInterior,
    /// Neither exit applies: keep the candidate, update the direction, and
    /// continue with the next step.
    Advance,
}

/// The spelled-out branch order that [`cg_step_action`] promises: the
/// trust-region test comes first, and the residual test is reached only in
/// the interior.
pub open spec fn cg_step_action_spec(
    candidate_leaves_region: bool,
    boundary_root_finite: bool,
    residual_below_tolerance: bool,
) -> CgStepAction {
    if candidate_leaves_region {
        if boundary_root_finite {
            CgStepAction::TruncateAtBoundary
        } else {
            CgStepAction::FailDegenerate
        }
    } else if residual_below_tolerance {
        CgStepAction::AcceptInterior
    } else {
        CgStepAction::Advance
    }
}

/// Decides one conjugate-gradient step from the comparisons the caller has
/// made:
///
/// * `candidate_leaves_region` — the norm of the candidate iterate reaches
///   the radius, so the full step may not be taken;
/// * `boundary_root_finite` — the quadratic for the boundary crossing has a
///   finite root (consulted only when the candidate leaves the region);
/// * `residual_below_tolerance` — the updated residual is within the
///   requested tolerance (consulted only in the interior).
pub fn cg_step_action(
    candidate_leaves_region: bool,
    boundary_root_finite: bool,
    residual_below_tolerance: bool,
) -> (a: CgStepAction)
    ensures
        a == cg_step_action_spec(
            candidate_leaves_region,
            boundary_root_finite,
            residual_below_tolerance,
        ),
{
    if candidate_leaves_region {
        if boundary_root_finite {
            CgStepAction::TruncateAtBoundary
        } else {
            CgStepAction::FailDegenerate
        }
    } else if residual_below_tolerance {
        CgStepAction::AcceptInterior
    } else {
        CgStepAction::Advance
    }
}

/// The lifetime safety valve: a call to the solver is admitted only while
/// the global iteration counter is below the construction-time maximum.
pub fn call_within_budget(curr_iterations: usize, max_iterations: usize) -> (r: bool)
    ensures
        r == (curr_iterations < max_iterations),
{
    curr_iterations < max_iterations
}

/// The solver's size contract: the gradient length and both Hessian
/// dimensions must equal the configured problem size.
pub fn dimensions_agree(
    gradient_len: usize,
    hessian_rows: usize,
    hessian_cols: usize,
    vector_size: usize,
) -> (r: bool)
    ensures
        r == (gradient_len == vector_size && hessian_rows == vector_size && hessian_cols
            == vector_size),
{
    gradient_len == vector_size && hessian_rows == vector_size && hessian_cols == vector_size
}

/// A step in the interior never fails: the degenerate-curvature exit is
/// reachable only through the trust-region test, so whenever the candidate
/// stays inside the region the step succeeds, whatever the boundary root
/// looked like.
pub proof fn lemma_interior_step_never_fails(
    boundary_root_finite: bool,
    residual_below_tolerance: bool,
)
    ensures
        cg_step_action_spec(false, boundary_root_finite, residual_below_tolerance)
            != CgStepAction::FailDegenerate,
        cg_step_action_spec(false, boundary_root_finite, residual_below_tolerance)
            != CgStepAction::TruncateAtBoundary,
{
}

} // verus!
