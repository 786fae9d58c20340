//! Decision core of the outer trust-region Newton loop.
//!
//! The loop evaluates the dual Lagrangian, its gradient and Hessian, asks the
//! Steihaug solver for a step, and then decides: has the iteration converged,
//! how should the trust-region radius move, and is the step trustworthy
//! enough to keep?  The numeric evaluations are floating-point work done by
//! the caller; every decision taken on their outcome is made here, so that
//! the accept/reject and radius-adaptation policy is verified once and the
//! caller only reports comparison results.

use vstd::prelude::*;

use crate::extras::OptimizerError;

verus! {

/// Checks the problem dimensions that the optimizer is built over, in the
/// order the failures are reported: an empty monomer vector, an empty
/// polymer matrix, fewer polymers than monomers, a polymer matrix whose
/// column count differs from the monomer count, and an energy vector whose
/// length differs from the polymer count.
///
/// `num_monomers` is the monomer-vector length M, `num_polymers` the polymer
/// count N (matrix rows), `polymer_cols` the matrix column count, and
/// `num_energies` the raw energy-vector length.
pub fn validate_dimensions(
    num_monomers: usize,
    num_polymers: usize,
    polymer_cols: usize,
    num_energies: usize,
) -> (r: Result<(), OptimizerError>)
    ensures
        r is Ok <==> (num_monomers != 0 && num_polymers != 0 && num_polymers >= num_monomers
            && polymer_cols == num_monomers && num_energies == num_polymers),
        num_monomers == 0 ==> (r matches Err(e) && e.0@ == "Monomers array is empty."@),
        num_monomers != 0 && num_polymers == 0 ==> (r matches Err(e) && e.0@
            == "Polymers array is empty."@),
        num_monomers != 0 && num_polymers != 0 && num_polymers < num_monomers ==> (r matches Err(e)
            && e.0@ == "Number of polymers is less than number of monomers."@),
        num_monomers != 0 && num_polymers != 0 && num_polymers >= num_monomers && polymer_cols
            != num_monomers ==> (r matches Err(e) && e.0@
            == "Monomers and polymer compositions inconsistent."@),
        num_monomers != 0 && num_polymers != 0 && num_polymers >= num_monomers && polymer_cols
            == num_monomers && num_energies != num_polymers ==> (r matches Err(e) && e.0@
            == "Polymers and polymer quantities have different sizes."@),
{
    if num_monomers == 0 {
        return Err(OptimizerError(String::from_str("Monomers array is empty.")));
    }
    if num_polymers == 0 {
        return Err(OptimizerError(String::from_str("Polymers array is empty.")));
    }
    if num_polymers < num_monomers {
        return Err(
            OptimizerError(String::from_str("Number of polymers is less than number of monomers.")),
        );
    }
    if polymer_cols != num_monomers {
        return Err(
            OptimizerError(String::from_str("Monomers and polymer compositions inconsistent.")),
        );
    }
    if num_energies != num_polymers {
        return Err(
            OptimizerError(
                String::from_str("Polymers and polymer quantities have different sizes."),
            ),
        );
    }
    Ok(())
}

/// How the trust-region radius moves after a step has been tried.
#[derive(Clone, Copy, Debug, PartialEq, Eq, Structural)]
pub enum RadiusAdjustment {
    /// Multiply the radius by the shrink factor.
    Shrink,
    /// Multiply the radius by the growth factor, capped at the ceiling.
    Grow,
    /// Leave the radius as it is.
    Keep,
}

/// The outcome of one outer iteration, once the tentative step has been
/// evaluated: whether the loop stops, how the radius moves, and whether the
/// step is kept or rolled back.
#[derive(Clone, Copy, Debug, PartialEq, Eq, Structural)]
pub struct StepDecision {
    /// The actual reduction was exactly zero: no further progress is
    /// possible, and the loop terminates successfully.
    pub converged: bool,
    /// Radius adaptation, applied whether or not the step is accepted.
    pub radius: RadiusAdjustment,
    /// Whether the tentative step is kept; a rejected step is rolled back
    /// but the iteration continues.
    pub accept: bool,
}

/// The spelled-out policy that [`outer_step_decision`] promises.
pub open spec fn step_decision_spec(
    actual_reduction_is_zero: bool,
    rho_below_shrink: bool,
    rho_above_grow: bool,
    step_fills_region: bool,
    rho_at_most_eta: bool,
) -> StepDecision {
    if actual_reduction_is_zero {
        StepDecision { converged: true, radius: RadiusAdjustment::Keep, accept: true }
    } else {
        StepDecision {
            converged: false,
            radius: if rho_below_shrink {
                RadiusAdjustment::Shrink
            } else if rho_above_grow && step_fills_region {
                RadiusAdjustment::Grow
            } else {
                RadiusAdjustment::Keep
            },
            accept: !rho_at_most_eta,
        }
    }
}

/// Decides how one outer iteration ends, from the comparisons the caller has
/// made on the tentative step:
///
/// * `actual_reduction_is_zero` — the objective did not move at all; the loop
///   terminates (a success, not a failure) with nothing else applied.
/// * `rho_below_shrink` / `rho_above_grow` — the reduction ratio against its
///   two thresholds; `step_fills_region` — the step length reached the
///   required fraction of the radius.  The radius shrinks when the ratio is
///   poor, and grows only when the ratio is good *and* the step actually
///   used most of the region.
/// * `rho_at_most_eta` — the ratio against the acceptance threshold; when it
///   fails, the step is rejected and must be rolled back, though the radius
///   adjustment above still stands.
pub fn outer_step_decision(
    actual_reduction_is_zero: bool,
    rho_below_shrink: bool,
    rho_above_grow: bool,
    step_fills_region: bool,
    rho_at_most_eta: bool,
) -> (d: StepDecision)
    ensures
        d == step_decision_spec(
            actual_reduction_is_zero,
            rho_below_shrink,
            rho_above_grow,
            step_fills_region,
            rho_at_most_eta,
        ),
{
    if actual_reduction_is_zero {
        return StepDecision { converged: true, radius: RadiusAdjustment::Keep, accept: true };
    }
    let radius = if rho_below_shrink {
        RadiusAdjustment::Shrink
    } else if rho_above_grow && step_fills_region {
        RadiusAdjustment::Grow
    } else {
        RadiusAdjustment::Keep
    };
    StepDecision { converged: false, radius, accept: !rho_at_most_eta }
}

/// A rejected step is always rolled back, and a rollback happens only on a
/// rejected step: outside the converged exit, the decision rejects exactly
/// when the reduction ratio fails the acceptance threshold, whatever the
/// radius did.
pub proof fn lemma_rollback_exactly_on_rejection(
    rho_below_shrink: bool,
    rho_above_grow: bool,
    step_fills_region: bool,
    rho_at_most_eta: bool,
)
    ensures
        !step_decision_spec(
            false,
            rho_below_shrink,
            rho_above_grow,
            step_fills_region,
            rho_at_most_eta,
        ).accept <==> rho_at_most_eta,
{
}

/// Radius adaptation precedes and is independent of acceptance: the radius
/// component of the decision does not depend on the acceptance comparison,
/// so a rejected step moves the radius exactly as an accepted one would.
pub proof fn lemma_radius_independent_of_acceptance(
    actual_reduction_is_zero: bool,
    rho_below_shrink: bool,
    rho_above_grow: bool,
    step_fills_region: bool,
)
    ensures
        forall|rho_at_most_eta_a: bool, rho_at_most_eta_b: bool|
            step_decision_spec(
                actual_reduction_is_zero,
                rho_below_shrink,
                rho_above_grow,
                step_fills_region,
                rho_at_most_eta_a,
            ).radius == step_decision_spec(
                actual_reduction_is_zero,
                rho_below_shrink,
                rho_above_grow,
                step_fills_region,
                rho_at_most_eta_b,
            ).radius,
{
}

} // verus!
