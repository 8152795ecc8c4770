//! Steady-state DC power-flow kernel: the network graph, the per-bus state
//! store, the injection devices, the solver contract and the structural half
//! of the linearised solve.
//!
//! Numeric values are carried as IEEE-754 binary64 bit patterns
//! ([`Quantity`]); every decision about indices, sizes, signs, connectivity
//! and reference-bus handling is made here, and the arithmetic on the values
//! is left to the caller.

pub mod branch;
pub mod bus;
pub mod dc;
pub mod error;
mod graph;
pub mod injection;
pub mod quantity;
pub mod solver;
pub mod state;
pub mod topology;

pub use branch::Branch;
pub use bus::{Bus, BusType};
pub use dc::{DcPowerFlowSolver, DcStep, ReducedSystem, Stamp};
pub use error::CoreError;
pub use injection::{Contribution, Generator, Load};
pub use quantity::Quantity;
pub use solver::{GridElement, Solver, SolverResult};
pub use state::StateStore;
pub use topology::{BranchData, BranchId, BusId, Topology, TopologyEdge, TopologyNode};
