//! The contracts between the state store and what acts on it: injection
//! devices, which accumulate power, and solvers, which write voltages.

use crate::error::CoreError;
use crate::quantity::Quantity;
use crate::state::StateStore;
use crate::topology::Topology;
use vstd::prelude::*;

verus! {

/// Outcome of one solver run.
#[derive(Debug, Clone, Copy)]
pub struct SolverResult {
    /// Number of iterations taken (for iterative solvers).
    pub iterations: usize,
    /// Final convergence residual.
    pub convergence_error: Quantity,
    /// Whether the solver reached an accepted solution.
    pub converged: bool,
}

impl SolverResult {
    /// The result of a run that converged.
    pub fn converged(iterations: usize, error: Quantity) -> (r: SolverResult)
        ensures
            r == (SolverResult { iterations, convergence_error: error, converged: true }),
    {
        SolverResult { iterations, convergence_error: error, converged: true }
    }

    /// The result of a run that did not converge.
    pub fn failed(iterations: usize, error: Quantity) -> (r: SolverResult)
        ensures
            r == (SolverResult { iterations, convergence_error: error, converged: false }),
    {
        SolverResult { iterations, convergence_error: error, converged: false }
    }
}

/// Between `before` and `after` the voltages are untouched and no array has
/// changed its length: at most the power entries differ.
pub open spec fn only_power_changed(before: StateStore, after: StateStore) -> bool {
    &&& after.voltage_magnitude@ == before.voltage_magnitude@
    &&& after.voltage_angle@ == before.voltage_angle@
    &&& after.active_power@.len() == before.active_power@.len()
    &&& after.reactive_power@.len() == before.reactive_power@.len()
}

/// Between `before` and `after` the power injections are untouched and no
/// array has changed its length: at most the voltage entries differ.
pub open spec fn only_voltage_changed(before: StateStore, after: StateStore) -> bool {
    &&& after.active_power@ == before.active_power@
    &&& after.reactive_power@ == before.reactive_power@
    &&& after.voltage_magnitude@.len() == before.voltage_magnitude@.len()
    &&& after.voltage_angle@.len() == before.voltage_angle@.len()
}

/// A device that contributes to the state. Implementations are bound by the
/// contract of `apply`, which nothing here checks for them.
pub trait GridElement: Send + Sync {
    /// Type tag of the element, for diagnostics.
    fn element_type(&self) -> &'static str;

    /// Accumulates the element's contribution into the state. Only power
    /// entries may change; contributions are additive, so applying an
    /// element twice counts it twice.
    fn apply(&self, state: &mut StateStore)
        ensures
            only_power_changed(*old(state), *final(state)),
    ;
}

/// A power-flow algorithm. Implementations are bound by the contract of
/// `solve`, which nothing here checks for them.
pub trait Solver: Send + Sync {
    /// Name of the solver, for diagnostics.
    fn name(&self) -> &'static str;

    /// Solves the power flow of `topology` in place in `state`. The
    /// topology is not changed. Whether the call succeeds or fails, the power
    /// injections are left as they were and no array changes its length.
    fn solve(&self, topology: &Topology, state: &mut StateStore) -> (r: Result<
        SolverResult,
        CoreError,
    >)
        requires
            topology.wf(),
        ensures
            only_voltage_changed(*old(state), *final(state)),
    ;
}

} // verus!
