//! Failures reported by the network model and the solvers.

use vstd::prelude::*;

verus! {

/// Every way an operation of this crate can fail.
#[derive(Debug)]
pub enum CoreError {
    /// A bus handle that names no bus of the topology.
    InvalidBusId(usize),
    /// A branch handle that names no branch of the topology.
    InvalidBranchId(usize),
    /// A structural defect: self-loop, zero reactance, missing or duplicate
    /// reference bus.
    TopologyError(String),
    /// The state store does not have the shape of the topology.
    StateError(String),
    /// A numerical failure: empty network or singular reduced system.
    SimulationError(String),
}

} // verus!
