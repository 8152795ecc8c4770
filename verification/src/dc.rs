//! DC (linearised) power flow: `B * theta = P`.
//!
//! The susceptance matrix `B` is kept in stamp form: a list of signed unit
//! contributions, each naming the entry it lands on and the branch whose
//! susceptance `1/X` it carries. Everything that concerns sizes, the
//! reference bus, the elimination of its row and column and the placing of
//! the solved angles is decided here; forming `1/X`, summing the stamps and
//! factorising the reduced matrix is arithmetic on the values and is done by
//! the caller between [`DcPowerFlowSolver::prepare`] and
//! [`DcPowerFlowSolver::conclude`].

use crate::bus::BusType;
use crate::error::CoreError;
use crate::quantity::{Quantity, ZERO_BITS};
use crate::solver::SolverResult;
use crate::state::StateStore;
use crate::topology::{branch_in_range, connected_to, BranchData, BranchId, BusId, Topology};
use vstd::prelude::*;

verus! {

/// Bit pattern of the default tolerance, `1e-6`.
pub const DEFAULT_TOLERANCE_BITS: u64 = 0x3EB0_C6F7_A0B5_ED8D;

/// One signed contribution to the susceptance matrix: the susceptance of
/// `branch` is added to entry `(row, col)`, or subtracted when `negative`.
#[derive(Debug, Clone, Copy)]
pub struct Stamp {
    pub row: usize,
    pub col: usize,
    pub branch: BranchId,
    pub negative: bool,
}

/// The linear system left once the reference bus is eliminated.
#[derive(Debug, Clone)]
pub struct ReducedSystem {
    /// Number of unknown angles: one per bus other than the reference.
    pub size: usize,
    /// Index of the reference bus in the full network.
    pub slack: usize,
    /// The reduced matrix, in stamp form over reduced indices.
    pub stamps: Vec<Stamp>,
    /// Active power of every bus but the reference, by reduced index.
    pub rhs: Vec<Quantity>,
}

/// What remains to be done after [`DcPowerFlowSolver::prepare`].
#[derive(Debug, Clone)]
pub enum DcStep {
    /// The network is its reference bus alone; this is the final result.
    Done(SolverResult),
    /// This system has to be solved for the angles.
    Reduced(ReducedSystem),
}

/// DC power-flow solver.
#[derive(Debug, Clone, Copy)]
pub struct DcPowerFlowSolver {
    /// Tolerance for convergence checks.
    pub tolerance: Quantity,
}

/// `e` is a simulation error with exactly the message `msg`.
pub open spec fn simulation_error(e: CoreError, msg: Seq<char>) -> bool {
    e matches CoreError::SimulationError(m) && m@ == msg
}

/// Bus `s` is the one and only bus of type `Slack`.
pub open spec fn is_reference(types: Seq<BusType>, s: int) -> bool {
    &&& 0 <= s < types.len()
    &&& types[s] == BusType::Slack
    &&& forall|j: int| 0 <= j < types.len() && j != s ==> types[j] != BusType::Slack
}

/// Exactly one bus is of type `Slack`.
pub open spec fn has_reference(types: Seq<BusType>) -> bool {
    exists|s: int| is_reference(types, s)
}

/// Some branch has a reactance of zero.
pub open spec fn has_zero_reactance(branches: Seq<BranchData>) -> bool {
    exists|k: int| 0 <= k < branches.len() && (#[trigger] branches[k]).reactance.spec_is_zero()
}

/// Every one of the first `n` buses is joined to `root` by some path.
pub open spec fn all_connected(branches: Seq<BranchData>, root: int, n: int) -> bool {
    forall|i: int| 0 <= i < n ==> connected_to(branches, root, i)
}

/// Some bus has no path to the reference bus: the network has an island,
/// and its reduced susceptance matrix is singular.
pub open spec fn islanded(types: Seq<BusType>, branches: Seq<BranchData>) -> bool {
    exists|s: int, i: int|
        is_reference(types, s) && 0 <= i < types.len() && !connected_to(branches, s, i)
}

/// The four stamps of branch number `k`: its susceptance is subtracted from
/// the two off-diagonal entries and added to the two diagonal ones.
pub open spec fn branch_stamps(b: BranchData, k: usize) -> Seq<Stamp> {
    seq![
        Stamp { row: b.from, col: b.to, branch: BranchId(k), negative: true },
        Stamp { row: b.to, col: b.from, branch: BranchId(k), negative: true },
        Stamp { row: b.from, col: b.from, branch: BranchId(k), negative: false },
        Stamp { row: b.to, col: b.to, branch: BranchId(k), negative: false },
    ]
}

/// The susceptance matrix of a list of branches, in stamp form: the stamps
/// of each branch in turn. Parallel branches each contribute their own.
pub open spec fn assembled(branches: Seq<BranchData>) -> Seq<Stamp>
    decreases branches.len(),
{
    if branches.len() == 0 {
        Seq::empty()
    } else {
        assembled(branches.drop_last()) + branch_stamps(
            branches.last(),
            (branches.len() - 1) as usize,
        )
    }
}

/// Sign of a stamp: `-1` or `1`.
pub open spec fn stamp_sign(s: Stamp) -> int {
    if s.negative {
        -1
    } else {
        1
    }
}

/// The coefficient with which the susceptance of branch `b` enters the sum
/// of row `i`: the signs of all stamps of that branch in that row, added up.
pub open spec fn row_coeff(stamps: Seq<Stamp>, i: int, b: int) -> int
    decreases stamps.len(),
{
    if stamps.len() == 0 {
        0
    } else {
        let s = stamps.last();
        row_coeff(stamps.drop_last(), i, b) + if s.row == i && s.branch.0 == b {
            stamp_sign(s)
        } else {
            0
        }
    }
}

/// The coefficient with which the susceptance of branch `b` enters the
/// entry `(i, j)`: the signs of all stamps of that branch on that entry,
/// added up. The entry itself is the sum, over the branches, of this
/// coefficient times the branch's susceptance.
pub open spec fn entry_coeff(stamps: Seq<Stamp>, i: int, j: int, b: int) -> int
    decreases stamps.len(),
{
    if stamps.len() == 0 {
        0
    } else {
        let s = stamps.last();
        entry_coeff(stamps.drop_last(), i, j, b) + if s.row == i && s.col == j && s.branch.0 == b {
            stamp_sign(s)
        } else {
            0
        }
    }
}

/// The coefficients of branch `b` on the first `n` entries of row `i`,
/// added up.
pub open spec fn row_total(stamps: Seq<Stamp>, i: int, b: int, n: nat) -> int
    decreases n,
{
    if n == 0 {
        0
    } else {
        row_total(stamps, i, b, (n - 1) as nat) + entry_coeff(stamps, i, n - 1, b)
    }
}

/// Every stamp lies within an `n` by `n` matrix.
pub open spec fn stamps_within(stamps: Seq<Stamp>, n: int) -> bool {
    forall|k: int| 0 <= k < stamps.len() ==> (#[trigger] stamps[k]).row < n && stamps[k].col < n
}

/// Position, in the reduced system, of full index `i` (which is not `slack`).
pub open spec fn reduced_index(slack: usize, i: usize) -> usize {
    if i < slack {
        i
    } else {
        (i - 1) as usize
    }
}

/// Position, in the full network, of reduced index `r`.
pub open spec fn full_index(slack: usize, r: int) -> int {
    if r < slack {
        r
    } else {
        r + 1
    }
}

/// A stamp list with the row and the column of `slack` struck out and the
/// remaining indices closed up.
pub open spec fn reduced(stamps: Seq<Stamp>, slack: usize) -> Seq<Stamp>
    decreases stamps.len(),
{
    if stamps.len() == 0 {
        Seq::empty()
    } else {
        let rest = reduced(stamps.drop_last(), slack);
        let s = stamps.last();
        if s.row == slack || s.col == slack {
            rest
        } else {
            rest.push(
                Stamp {
                    row: reduced_index(slack, s.row),
                    col: reduced_index(slack, s.col),
                    branch: s.branch,
                    negative: s.negative,
                },
            )
        }
    }
}

/// The injections of every bus but `slack`, by reduced index.
pub open spec fn reduced_injections(power: Seq<Quantity>, slack: usize) -> Seq<Quantity> {
    Seq::new((power.len() - 1) as nat, |r: int| power[full_index(slack, r)])
}

/// The angles after a solve: `theta` scattered to the buses other than
/// `slack`, whose own angle stays as it was.
pub open spec fn scattered(angles: Seq<Quantity>, slack: usize, theta: Seq<Quantity>) -> Seq<
    Quantity,
> {
    Seq::new(
        angles.len(),
        |i: int|
            if i == slack {
                angles[i]
            } else {
                theta[reduced_index(slack, i as usize) as int]
            },
    )
}

/// Every array of the state has one entry per bus of the topology.
pub open spec fn shape_matches(topology: &Topology, state: &StateStore) -> bool {
    let n = topology.bus_types().len();
    &&& state.voltage_magnitude@.len() == n
    &&& state.voltage_angle@.len() == n
    &&& state.active_power@.len() == n
    &&& state.reactive_power@.len() == n
}

/// `sys` is the reduced system of the network: reference bus, size, matrix
/// and right-hand side.
pub open spec fn reduces(topology: &Topology, state: &StateStore, sys: ReducedSystem) -> bool {
    &&& is_reference(topology.bus_types(), sys.slack as int)
    &&& sys.size == topology.bus_types().len() - 1
    &&& sys.stamps@ == reduced(assembled(topology.branches()), sys.slack)
    &&& sys.rhs@ == reduced_injections(state.active_power@, sys.slack)
}

/// The result that a slack-only network yields: no iteration, no residual.
pub open spec fn trivial_result() -> SolverResult {
    SolverResult { iterations: 0, convergence_error: Quantity { bits: ZERO_BITS }, converged: true }
}

/// What `prepare` returns for a network and a state.
pub open spec fn prepared(
    topology: &Topology,
    state: &StateStore,
    r: Result<DcStep, CoreError>,
) -> bool {
    let n = state.voltage_magnitude@.len();
    match r {
        Err(e) => {
            if n == 0 {
                simulation_error(e, "no buses"@)
            } else if !shape_matches(topology, state) {
                e is StateError
            } else if !has_reference(topology.bus_types()) || has_zero_reactance(
                topology.branches(),
            ) {
                e is TopologyError
            } else {
                &&& islanded(topology.bus_types(), topology.branches())
                &&& simulation_error(e, "singular B matrix"@)
            }
        },
        Ok(step) => {
            &&& n > 0
            &&& shape_matches(topology, state)
            &&& has_reference(topology.bus_types())
            &&& !has_zero_reactance(topology.branches())
            &&& !islanded(topology.bus_types(), topology.branches())
            &&& match step {
                DcStep::Done(result) => n == 1 && result == trivial_result(),
                DcStep::Reduced(sys) => n > 1 && reduces(topology, state, sys),
            }
        },
    }
}

/// The solution `theta` fits the system, and the system fits the state.
pub open spec fn solution_fits(sys: &ReducedSystem, state: &StateStore, theta: Seq<Quantity>) -> bool {
    &&& sys.slack <= sys.size
    &&& theta.len() == sys.size
    &&& state.voltage_angle@.len() == sys.size + 1
}

impl DcPowerFlowSolver {
    /// A solver with the default tolerance.
    pub fn new() -> (s: DcPowerFlowSolver)
        ensures
            s.tolerance.bits == DEFAULT_TOLERANCE_BITS,
    {
        DcPowerFlowSolver { tolerance: Quantity::from_bits(DEFAULT_TOLERANCE_BITS) }
    }

    /// A solver with the given tolerance.
    pub fn with_tolerance(tolerance: Quantity) -> (s: DcPowerFlowSolver)
        ensures
            s.tolerance == tolerance,
    {
        DcPowerFlowSolver { tolerance }
    }

    /// Name of the solver.
    pub fn name(&self) -> (n: &'static str)
        ensures
            n@ == "DC Power Flow"@,
    {
        "DC Power Flow"
    }

    /// Finds the reference bus: the unique bus of type `Slack`. Fails with
    /// `TopologyError` exactly when there is none or more than one.
    pub fn slack_bus(&self, topology: &Topology) -> (r: Result<BusId, CoreError>)
        requires
            topology.wf(),
        ensures
            match r {
                Ok(bus) => is_reference(topology.bus_types(), bus.0 as int),
                Err(e) => e is TopologyError && !has_reference(topology.bus_types()),
            },
    {
        let n = topology.bus_count();
        let mut found: Option<usize> = None;
        let mut i: usize = 0;
        while i < n
            invariant
                topology.wf(),
                n == topology.bus_types().len(),
                i <= n,
                match found {
                    Some(s) => s < i && topology.bus_types()[s as int] == BusType::Slack,
                    None => true,
                },
                forall|j: int|
                    0 <= j < i && found != Some(j as usize) ==> topology.bus_types()[j]
                        != BusType::Slack,
            decreases n - i,
        {
            let is_slack = match topology.bus_type(BusId(i)) {
                Ok(BusType::Slack) => true,
                _ => false,
            };
            if is_slack {
                if let Some(s) = found {
                    proof {
                        let types = topology.bus_types();
                        assert forall|c: int| !is_reference(types, c) by {
                            if is_reference(types, c) {
                                if c == s {
                                    assert(types[i as int] != BusType::Slack);
                                } else {
                                    assert(types[s as int] != BusType::Slack);
                                }
                            }
                        }
                    }
                    return Err(CoreError::TopologyError("more than one slack bus".to_owned()));
                }
                found = Some(i);
            }
            i = i + 1;
        }
        match found {
            Some(s) => Ok(BusId(s)),
            None => {
                proof {
                    let types = topology.bus_types();
                    assert forall|c: int| !is_reference(types, c) by {
                        if is_reference(types, c) {
                            assert(types[c] != BusType::Slack);
                        }
                    }
                }
                Err(CoreError::TopologyError("no slack bus".to_owned()))
            },
        }
    }

    /// Whether every bus has a path of branches to `root`. Fails with
    /// `InvalidBusId` exactly when `root` names no bus.
    pub fn is_connected(&self, topology: &Topology, root: BusId) -> (r: Result<bool, CoreError>)
        requires
            topology.wf(),
        ensures
            match r {
                Ok(whole) => root.0 < topology.bus_types().len() && whole == all_connected(
                    topology.branches(),
                    root.0 as int,
                    topology.bus_types().len() as int,
                ),
                Err(e) => root.0 >= topology.bus_types().len() && e == CoreError::InvalidBusId(
                    root.0,
                ),
            },
    {
        let seen = match topology.reachable_from(root) {
            Ok(seen) => seen,
            Err(e) => {
                return Err(e);
            },
        };
        let mut i: usize = 0;
        while i < seen.len()
            invariant
                i <= seen@.len(),
                seen@.len() == topology.bus_types().len(),
                root.0 < topology.bus_types().len(),
                forall|j: int|
                    0 <= j < seen@.len() ==> (#[trigger] seen@[j] <==> connected_to(
                        topology.branches(),
                        root.0 as int,
                        j,
                    )),
                forall|j: int| 0 <= j < i ==> #[trigger] seen@[j],
            decreases seen@.len() - i,
        {
            if !seen[i] {
                assert(!connected_to(topology.branches(), root.0 as int, i as int));
                return Ok(false);
            }
            i = i + 1;
        }
        assert forall|j: int| 0 <= j < seen@.len() implies connected_to(
            topology.branches(),
            root.0 as int,
            j,
        ) by {
            assert(seen@[j]);
        }
        Ok(true)
    }

    /// Assembles the susceptance matrix from the branch reactances, in stamp
    /// form. Fails with `TopologyError` exactly when some branch has a
    /// reactance of zero.
    pub fn build_b_matrix(&self, topology: &Topology) -> (r: Result<Vec<Stamp>, CoreError>)
        requires
            topology.wf(),
        ensures
            match r {
                Ok(stamps) => !has_zero_reactance(topology.branches()) && stamps@ == assembled(
                    topology.branches(),
                ),
                Err(e) => e is TopologyError && has_zero_reactance(topology.branches()),
            },
    {
        let m = topology.branch_count();
        let mut stamps: Vec<Stamp> = Vec::new();
        let mut k: usize = 0;
        assert(topology.branches().take(0) =~= Seq::<BranchData>::empty());
        while k < m
            invariant
                topology.wf(),
                m == topology.branches().len(),
                k <= m,
                stamps@ == assembled(topology.branches().take(k as int)),
                forall|j: int| 0 <= j < k ==> !(#[trigger] topology.branches()[j]).reactance.spec_is_zero(),
            decreases m - k,
        {
            let id = BranchId(k);
            let b = match topology.branch(id) {
                Ok(b) => b,
                Err(e) => {
                    return Err(e);
                },
            };
            if b.reactance.is_zero() {
                assert(topology.branches()[k as int].reactance.spec_is_zero());
                return Err(CoreError::TopologyError("branch with zero reactance".to_owned()));
            }
            proof {
                let next = topology.branches().take(k + 1);
                assert(next.drop_last() =~= topology.branches().take(k as int));
                assert(next.last() == b);
            }
            let ghost before = stamps@;
            stamps.push(Stamp { row: b.from, col: b.to, branch: id, negative: true });
            stamps.push(Stamp { row: b.to, col: b.from, branch: id, negative: true });
            stamps.push(Stamp { row: b.from, col: b.from, branch: id, negative: false });
            stamps.push(Stamp { row: b.to, col: b.to, branch: id, negative: false });
            assert(stamps@ =~= before + branch_stamps(b, k));
            k = k + 1;
        }
        assert(topology.branches().take(m as int) =~= topology.branches());
        Ok(stamps)
    }

    /// Strikes the row and the column of `slack` out of a stamp list and
    /// closes up the remaining indices.
    pub fn eliminate(&self, stamps: &Vec<Stamp>, slack: usize) -> (out: Vec<Stamp>)
        ensures
            out@ == reduced(stamps@, slack),
    {
        let mut out: Vec<Stamp> = Vec::new();
        let mut k: usize = 0;
        assert(stamps@.take(0) =~= Seq::<Stamp>::empty());
        while k < stamps.len()
            invariant
                k <= stamps@.len(),
                out@ == reduced(stamps@.take(k as int), slack),
            decreases stamps@.len() - k,
        {
            let s = stamps[k];
            proof {
                let next = stamps@.take(k + 1);
                assert(next.drop_last() =~= stamps@.take(k as int));
                assert(next.last() == s);
            }
            if s.row != slack && s.col != slack {
                let row = if s.row < slack {
                    s.row
                } else {
                    s.row - 1
                };
                let col = if s.col < slack {
                    s.col
                } else {
                    s.col - 1
                };
                out.push(Stamp { row, col, branch: s.branch, negative: s.negative });
            }
            k = k + 1;
        }
        assert(stamps@.take(stamps@.len() as int) =~= stamps@);
        out
    }

    /// Gathers the injections of every bus but `slack`, by reduced index.
    pub fn reduce_injections(&self, power: &Vec<Quantity>, slack: usize) -> (out: Vec<Quantity>)
        requires
            slack < power@.len(),
        ensures
            out@ == reduced_injections(power@, slack),
    {
        let n = power.len();
        let mut out: Vec<Quantity> = Vec::new();
        let mut r: usize = 0;
        while r < n - 1
            invariant
                n == power@.len(),
                slack < n,
                r <= n - 1,
                out@.len() == r,
                forall|q: int| 0 <= q < r ==> out@[q] == power@[full_index(slack, q)],
            decreases n - 1 - r,
        {
            let i = if r < slack {
                r
            } else {
                r + 1
            };
            out.push(power[i]);
            r = r + 1;
        }
        assert(out@ =~= reduced_injections(power@, slack));
        out
    }

    /// Validates the network against the state and sets up the solve.
    ///
    /// In this order: an empty state is a `SimulationError`; a state whose
    /// arrays do not all have one entry per bus is a `StateError`; a network
    /// without exactly one slack bus, or with a branch of zero reactance, is
    /// a `TopologyError`; a network with a bus that no path joins to the
    /// slack bus has a singular reduced matrix and is a `SimulationError`.
    /// A network of one bus is solved on the spot. Otherwise the reduced
    /// system is returned. The state is not changed.
    pub fn prepare(&self, topology: &Topology, state: &StateStore) -> (r: Result<DcStep, CoreError>)
        requires
            topology.wf(),
        ensures
            prepared(topology, state, r),
    {
        let n = state.bus_count();
        if n == 0 {
            return Err(CoreError::SimulationError("no buses".to_owned()));
        }
        let buses = topology.bus_count();
        if buses != n || state.voltage_angle.len() != n || state.active_power.len() != n
            || state.reactive_power.len() != n {
            return Err(
                CoreError::StateError("topology and state bus counts differ".to_owned()),
            );
        }
        let slack = match self.slack_bus(topology) {
            Ok(bus) => bus.0,
            Err(e) => {
                return Err(e);
            },
        };
        let stamps = match self.build_b_matrix(topology) {
            Ok(stamps) => stamps,
            Err(e) => {
                return Err(e);
            },
        };
        let whole = match self.is_connected(topology, BusId(slack)) {
            Ok(whole) => whole,
            Err(e) => {
                return Err(e);
            },
        };
        if !whole {
            return Err(CoreError::SimulationError("singular B matrix".to_owned()));
        }
        proof {
            let types = topology.bus_types();
            let branches = topology.branches();
            assert forall|s: int, i: int|
                !(is_reference(types, s) && 0 <= i < types.len() && !connected_to(
                    branches,
                    s,
                    i,
                )) by {
                if is_reference(types, s) {
                    reference_is_unique(types, s, slack as int);
                }
            }
        }
        if n == 1 {
            return Ok(DcStep::Done(SolverResult::converged(0, Quantity::zero())));
        }
        let reduced_stamps = self.eliminate(&stamps, slack);
        let rhs = self.reduce_injections(&state.active_power, slack);
        Ok(DcStep::Reduced(ReducedSystem { size: n - 1, slack, stamps: reduced_stamps, rhs }))
    }

    /// Takes the outcome of the linear solve and finishes the run.
    ///
    /// `None` stands for a singular reduced matrix and is a
    /// `SimulationError`. A solution that does not fit the system, or a
    /// system that does not fit the state, is a `StateError`. Otherwise the
    /// angles are written to the buses other than the reference, whose own
    /// angle is left as it is, and the run is reported as converged after
    /// one iteration with the given residual. Only the angles change, and
    /// only on success.
    pub fn conclude(
        &self,
        system: &ReducedSystem,
        state: &mut StateStore,
        solution: Option<Vec<Quantity>>,
        residual: Quantity,
    ) -> (r: Result<SolverResult, CoreError>)
        ensures
            final(state).voltage_magnitude == old(state).voltage_magnitude,
            final(state).active_power == old(state).active_power,
            final(state).reactive_power == old(state).reactive_power,
            match solution {
                None => {
                    &&& r is Err
                    &&& simulation_error(r->Err_0, "singular B matrix"@)
                    &&& final(state).voltage_angle == old(state).voltage_angle
                },
                Some(theta) => if solution_fits(system, old(state), theta@) {
                    &&& r == Ok::<SolverResult, CoreError>(
                        SolverResult { iterations: 1, convergence_error: residual, converged: true },
                    )
                    &&& final(state).voltage_angle@ == scattered(
                        old(state).voltage_angle@,
                        system.slack,
                        theta@,
                    )
                    &&& final(state).voltage_angle@[system.slack as int] == old(
                        state,
                    ).voltage_angle@[system.slack as int]
                } else {
                    &&& r is Err
                    &&& r->Err_0 is StateError
                    &&& final(state).voltage_angle == old(state).voltage_angle
                },
            },
    {
        let theta = match solution {
            Some(theta) => theta,
            None => {
                return Err(CoreError::SimulationError("singular B matrix".to_owned()));
            },
        };
        let n = state.voltage_angle.len();
        if system.slack > system.size || theta.len() != system.size || n == 0 || n - 1
            != system.size {
            return Err(CoreError::StateError("solution does not fit the state".to_owned()));
        }
        let slack = system.slack;
        let mut i: usize = 0;
        while i < n
            invariant
                n == old(state).voltage_angle@.len(),
                n == theta@.len() + 1,
                slack < n,
                i <= n,
                state.voltage_magnitude == old(state).voltage_magnitude,
                state.active_power == old(state).active_power,
                state.reactive_power == old(state).reactive_power,
                state.voltage_angle@.len() == n,
                forall|j: int|
                    0 <= j < i ==> state.voltage_angle@[j] == scattered(
                        old(state).voltage_angle@,
                        slack,
                        theta@,
                    )[j],
                forall|j: int| i <= j < n ==> state.voltage_angle@[j] == old(state).voltage_angle@[j],
            decreases n - i,
        {
            if i != slack {
                let r = if i < slack {
                    i
                } else {
                    i - 1
                };
                state.voltage_angle.set(i, theta[r]);
            }
            i = i + 1;
        }
        assert(state.voltage_angle@ =~= scattered(old(state).voltage_angle@, slack, theta@));
        Ok(SolverResult::converged(1, residual))
    }
}

impl Default for DcPowerFlowSolver {
    /// The solver with the default tolerance.
    fn default() -> (s: DcPowerFlowSolver)
        ensures
            s.tolerance.bits == DEFAULT_TOLERANCE_BITS,
    {
        DcPowerFlowSolver::new()
    }
}

/// Appending one stamp adds its sign to the row coefficient of its own row
/// and branch, and to no other.
proof fn row_coeff_push(stamps: Seq<Stamp>, s: Stamp, i: int, b: int)
    ensures
        row_coeff(stamps.push(s), i, b) == row_coeff(stamps, i, b) + if s.row == i && s.branch.0
            == b {
            stamp_sign(s)
        } else {
            0
        },
{
    assert(stamps.push(s).drop_last() =~= stamps);
    assert(stamps.push(s).last() == s);
}

/// Row coefficients add up over concatenation.
proof fn row_coeff_concat(head: Seq<Stamp>, tail: Seq<Stamp>, i: int, b: int)
    ensures
        row_coeff(head + tail, i, b) == row_coeff(head, i, b) + row_coeff(tail, i, b),
    decreases tail.len(),
{
    if tail.len() == 0 {
        assert(head + tail =~= head);
    } else {
        row_coeff_concat(head, tail.drop_last(), i, b);
        assert((head + tail).drop_last() =~= head + tail.drop_last());
        assert((head + tail).last() == tail.last());
    }
}

/// The four stamps of one branch cancel in every row.
proof fn branch_rows_cancel(data: BranchData, k: usize, i: int, b: int)
    ensures
        row_coeff(branch_stamps(data, k), i, b) == 0,
{
    let s0 = Stamp { row: data.from, col: data.to, branch: BranchId(k), negative: true };
    let s1 = Stamp { row: data.to, col: data.from, branch: BranchId(k), negative: true };
    let s2 = Stamp { row: data.from, col: data.from, branch: BranchId(k), negative: false };
    let s3 = Stamp { row: data.to, col: data.to, branch: BranchId(k), negative: false };
    let e = Seq::<Stamp>::empty();
    assert(branch_stamps(data, k) =~= e.push(s0).push(s1).push(s2).push(s3));
    row_coeff_push(e, s0, i, b);
    row_coeff_push(e.push(s0), s1, i, b);
    row_coeff_push(e.push(s0).push(s1), s2, i, b);
    row_coeff_push(e.push(s0).push(s1).push(s2), s3, i, b);
}

/// In the assembled matrix every branch has row coefficient zero in every
/// row.
proof fn row_coeffs_vanish(branches: Seq<BranchData>, i: int, b: int)
    ensures
        row_coeff(assembled(branches), i, b) == 0,
    decreases branches.len(),
{
    if branches.len() > 0 {
        let k = (branches.len() - 1) as usize;
        row_coeffs_vanish(branches.drop_last(), i, b);
        branch_rows_cancel(branches.last(), k, i, b);
        row_coeff_concat(assembled(branches.drop_last()), branch_stamps(branches.last(), k), i, b);
    }
}

/// The stamps of branches between the first `n` buses lie within an `n` by
/// `n` matrix.
proof fn assembled_within(branches: Seq<BranchData>, n: int)
    requires
        forall|k: int| 0 <= k < branches.len() ==> branch_in_range(#[trigger] branches[k], n),
    ensures
        stamps_within(assembled(branches), n),
    decreases branches.len(),
{
    if branches.len() > 0 {
        let init = branches.drop_last();
        assert forall|k: int| 0 <= k < init.len() implies branch_in_range(
            #[trigger] init[k],
            n,
        ) by {
            assert(init[k] == branches[k]);
        }
        assembled_within(init, n);
        assert(branch_in_range(branches[branches.len() - 1], n));
    }
}

/// Appending one stamp adds its sign to the coefficient of its own entry
/// and branch, and to no other.
proof fn entry_coeff_push(stamps: Seq<Stamp>, s: Stamp, i: int, j: int, b: int)
    ensures
        entry_coeff(stamps.push(s), i, j, b) == entry_coeff(stamps, i, j, b) + if s.row == i
            && s.col == j && s.branch.0 == b {
            stamp_sign(s)
        } else {
            0
        },
{
    assert(stamps.push(s).drop_last() =~= stamps);
    assert(stamps.push(s).last() == s);
}

/// Appending one stamp adds its sign to the total of its own row and
/// branch as soon as the total reaches its column.
proof fn row_total_push(stamps: Seq<Stamp>, s: Stamp, i: int, b: int, n: nat)
    ensures
        row_total(stamps.push(s), i, b, n) == row_total(stamps, i, b, n) + if s.row == i
            && s.branch.0 == b && s.col < n {
            stamp_sign(s)
        } else {
            0
        },
    decreases n,
{
    if n > 0 {
        row_total_push(stamps, s, i, b, (n - 1) as nat);
        entry_coeff_push(stamps, s, i, n - 1, b);
    }
}

/// Over a matrix that holds all the stamps, the total of a row is the sum of
/// the signs of the stamps in that row.
proof fn row_total_is_row_coeff(stamps: Seq<Stamp>, i: int, b: int, n: nat)
    requires
        stamps_within(stamps, n as int),
    ensures
        row_total(stamps, i, b, n) == row_coeff(stamps, i, b),
    decreases stamps.len(), n,
{
    if stamps.len() == 0 {
        if n > 0 {
            row_total_is_row_coeff(stamps, i, b, (n - 1) as nat);
        }
    } else {
        let init = stamps.drop_last();
        let s = stamps.last();
        assert(stamps =~= init.push(s));
        assert forall|k: int| 0 <= k < init.len() implies (#[trigger] init[k]).row < n
            && init[k].col < n by {
            assert(init[k] == stamps[k]);
        }
        row_total_is_row_coeff(init, i, b, n);
        row_total_push(init, s, i, b, n);
        assert(stamps[stamps.len() - 1].col < n);
    }
}

/// Row-sum law of the susceptance matrix. In the matrix assembled from
/// branches between `n` buses, the susceptance of each branch enters the sum
/// of the entries of each row with coefficient zero: what a branch adds to
/// the diagonal entry of a row it takes from an off-diagonal entry of the
/// same row. So every row of the matrix sums to zero, whatever the
/// susceptances are: the matrix is a weighted graph Laplacian.
pub proof fn row_sums_vanish(branches: Seq<BranchData>, n: nat, i: int, b: int)
    requires
        forall|k: int| 0 <= k < branches.len() ==> branch_in_range(#[trigger] branches[k], n as int),
    ensures
        row_total(assembled(branches), i, b, n) == 0,
{
    assembled_within(branches, n as int);
    row_total_is_row_coeff(assembled(branches), i, b, n);
    row_coeffs_vanish(branches, i, b);
}

/// Elimination keeps the entries. Every entry of the matrix off the row and
/// the column of `slack` is found again in the reduced matrix, at the
/// reduced indices of its row and column, with the same coefficient for
/// every branch.
pub proof fn elimination_keeps_entries(
    stamps: Seq<Stamp>,
    slack: usize,
    i: usize,
    j: usize,
    b: int,
)
    requires
        i != slack,
        j != slack,
    ensures
        entry_coeff(
            reduced(stamps, slack),
            reduced_index(slack, i) as int,
            reduced_index(slack, j) as int,
            b,
        ) == entry_coeff(stamps, i as int, j as int, b),
    decreases stamps.len(),
{
    if stamps.len() > 0 {
        let s = stamps.last();
        elimination_keeps_entries(stamps.drop_last(), slack, i, j, b);
        if s.row != slack && s.col != slack {
            let moved = Stamp {
                row: reduced_index(slack, s.row),
                col: reduced_index(slack, s.col),
                branch: s.branch,
                negative: s.negative,
            };
            entry_coeff_push(
                reduced(stamps.drop_last(), slack),
                moved,
                reduced_index(slack, i) as int,
                reduced_index(slack, j) as int,
                b,
            );
            assert(reduced_index(slack, s.row) == reduced_index(slack, i) <==> s.row == i);
            assert(reduced_index(slack, s.col) == reduced_index(slack, j) <==> s.col == j);
        }
    }
}

/// A network has at most one reference bus.
pub proof fn reference_is_unique(types: Seq<BusType>, s: int, t: int)
    requires
        is_reference(types, s),
        is_reference(types, t),
    ensures
        s == t,
{
    if s != t {
        assert(types[t] != BusType::Slack);
    }
}

/// Full and reduced indices correspond one to one: the reduced indices
/// `0..n-1` are exactly the full indices `0..n` without `slack`.
pub proof fn indices_round_trip(slack: usize, i: usize, r: usize)
    ensures
        i != slack ==> full_index(slack, reduced_index(slack, i) as int) == i,
        full_index(slack, r as int) != slack,
        r < usize::MAX ==> reduced_index(slack, full_index(slack, r as int) as usize) == r,
{
}

/// A connected network is accepted. Whenever the state has one entry per
/// bus, exactly one bus is the slack bus, no reactance is zero and every bus
/// has a path to the slack bus, `prepare` succeeds.
pub proof fn connected_network_is_accepted(
    topology: &Topology,
    state: &StateStore,
    slack: int,
    r: Result<DcStep, CoreError>,
)
    requires
        topology.bus_types().len() >= 1,
        shape_matches(topology, state),
        is_reference(topology.bus_types(), slack),
        !has_zero_reactance(topology.branches()),
        all_connected(topology.branches(), slack, topology.bus_types().len() as int),
        prepared(topology, state, r),
    ensures
        r is Ok,
{
    let types = topology.bus_types();
    let branches = topology.branches();
    if islanded(types, branches) {
        let (s, i) = choose|s: int, i: int|
            is_reference(types, s) && 0 <= i < types.len() && !connected_to(branches, s, i);
        reference_is_unique(types, s, slack);
    }
}

/// An island is refused. If some bus has no path to the slack bus, `prepare`
/// fails, whatever else holds.
pub proof fn island_is_refused(
    topology: &Topology,
    state: &StateStore,
    slack: int,
    bus: int,
    r: Result<DcStep, CoreError>,
)
    requires
        is_reference(topology.bus_types(), slack),
        0 <= bus < topology.bus_types().len(),
        !connected_to(topology.branches(), slack, bus),
        prepared(topology, state, r),
    ensures
        r is Err,
{
}

/// `prepare` is a function of its inputs: two outcomes for one network and
/// one state both succeed or both fail, and on success they name the same
/// result or the same reduced system.
pub proof fn prepare_is_determined(
    topology: &Topology,
    state: &StateStore,
    first: Result<DcStep, CoreError>,
    second: Result<DcStep, CoreError>,
)
    requires
        prepared(topology, state, first),
        prepared(topology, state, second),
    ensures
        first is Ok <==> second is Ok,
        match (first, second) {
            (Ok(DcStep::Done(a)), Ok(DcStep::Done(b))) => a == b,
            (Ok(DcStep::Reduced(a)), Ok(DcStep::Reduced(b))) => {
                &&& a.size == b.size
                &&& a.slack == b.slack
                &&& a.stamps@ == b.stamps@
                &&& a.rhs@ == b.rhs@
            },
            (Ok(_), Ok(_)) => false,
            _ => true,
        },
{
    match (first, second) {
        (Ok(DcStep::Reduced(a)), Ok(DcStep::Reduced(b))) => {
            reference_is_unique(topology.bus_types(), a.slack as int, b.slack as int);
        },
        _ => {},
    }
}

/// Solving again starts from the same system. `prepare` reads the state's
/// shape and its active power only, so on a state that differs from the
/// first in nothing but its angles, as the state left by `conclude` does,
/// every outcome of `prepare` is an outcome for the first state too.
pub proof fn prepare_ignores_angles(
    topology: &Topology,
    before: &StateStore,
    after: &StateStore,
    r: Result<DcStep, CoreError>,
)
    requires
        after.voltage_magnitude@ == before.voltage_magnitude@,
        after.active_power@ == before.active_power@,
        after.reactive_power@ == before.reactive_power@,
        after.voltage_angle@.len() == before.voltage_angle@.len(),
        prepared(topology, after, r),
    ensures
        prepared(topology, before, r),
{
}

/// Scattering a solution leaves the reference bus's angle where it was, and
/// every other bus gets the entry of the solution at its reduced index.
pub proof fn scatter_keeps_reference(angles: Seq<Quantity>, slack: usize, theta: Seq<Quantity>)
    requires
        slack < angles.len() <= usize::MAX,
        theta.len() + 1 == angles.len(),
    ensures
        scattered(angles, slack, theta).len() == angles.len(),
        scattered(angles, slack, theta)[slack as int] == angles[slack as int],
        forall|r: int|
            0 <= r < theta.len() ==> scattered(angles, slack, theta)[full_index(slack, r)]
                == #[trigger] theta[r],
{
    assert forall|r: int| 0 <= r < theta.len() implies scattered(
        angles,
        slack,
        theta,
    )[full_index(slack, r)] == #[trigger] theta[r] by {
        let i = full_index(slack, r);
        assert(i != slack && 0 <= i < angles.len());
        assert(reduced_index(slack, i as usize) == r);
    }
}

} // verus!
