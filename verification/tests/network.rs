use qsim::{BranchId, BusId, BusType, CoreError, Quantity, SolverResult, StateStore, Topology};

fn q(x: f64) -> Quantity {
    Quantity::from_bits(x.to_bits())
}

fn f(v: Quantity) -> f64 {
    f64::from_bits(v.to_bits())
}

#[test]
fn buses_get_dense_handles() {
    let mut t = Topology::new();
    assert_eq!(t.bus_count(), 0);
    assert_eq!(t.add_bus(), BusId(0));
    assert_eq!(t.add_bus(), BusId(1));
    assert_eq!(t.add_bus(), BusId(2));
    assert_eq!(t.bus_count(), 3);
    assert_eq!(t.branch_count(), 0);
}

#[test]
fn new_buses_are_load_buses() {
    let mut t = Topology::new();
    let b = t.add_bus();
    assert_eq!(t.bus_type(b).unwrap(), BusType::PQ);
    t.set_bus_type(b, BusType::Slack).unwrap();
    assert_eq!(t.bus_type(b).unwrap(), BusType::Slack);
    t.set_bus_type(b, BusType::PV).unwrap();
    assert_eq!(t.bus_type(b).unwrap(), BusType::PV);
}

#[test]
fn bus_type_of_a_missing_bus_is_refused() {
    let mut t = Topology::new();
    t.add_bus();
    assert!(matches!(t.bus_type(BusId(1)), Err(CoreError::InvalidBusId(1))));
    assert!(matches!(t.set_bus_type(BusId(7), BusType::Slack), Err(CoreError::InvalidBusId(7))));
    assert_eq!(t.bus_type(BusId(0)).unwrap(), BusType::PQ);
}

#[test]
fn branches_get_dense_handles() {
    let mut t = Topology::new();
    for _ in 0..3 {
        t.add_bus();
    }
    assert_eq!(t.add_branch(BusId(0), BusId(1), q(0.1)).unwrap(), BranchId(0));
    assert_eq!(t.add_branch(BusId(2), BusId(1), q(0.2)).unwrap(), BranchId(1));
    assert_eq!(t.branch_count(), 2);
    assert_eq!(t.bus_count(), 3);
    let b = t.branch(BranchId(1)).unwrap();
    assert_eq!((b.from, b.to, f(b.reactance)), (2, 1, 0.2));
    let b = t.branch(BranchId(0)).unwrap();
    assert_eq!((b.from, b.to, f(b.reactance)), (0, 1, 0.1));
}

#[test]
fn branch_to_a_missing_bus_is_refused() {
    let mut t = Topology::new();
    t.add_bus();
    t.add_bus();
    assert!(matches!(t.add_branch(BusId(2), BusId(0), q(0.1)), Err(CoreError::InvalidBusId(2))));
    assert!(matches!(t.add_branch(BusId(0), BusId(5), q(0.1)), Err(CoreError::InvalidBusId(5))));
    assert!(matches!(t.add_branch(BusId(9), BusId(9), q(0.1)), Err(CoreError::InvalidBusId(9))));
    assert_eq!(t.branch_count(), 0);
}

#[test]
fn self_loop_is_refused() {
    let mut t = Topology::new();
    t.add_bus();
    t.add_bus();
    assert!(matches!(t.add_branch(BusId(1), BusId(1), q(0.1)), Err(CoreError::TopologyError(_))));
    assert_eq!(t.branch_count(), 0);
    assert!(t.branches_of(BusId(1)).is_empty());
}

#[test]
fn missing_branch_is_refused() {
    let mut t = Topology::new();
    t.add_bus();
    t.add_bus();
    t.add_branch(BusId(0), BusId(1), q(0.1)).unwrap();
    assert!(matches!(t.branch(BranchId(1)), Err(CoreError::InvalidBranchId(1))));
}

#[test]
fn branches_are_seen_from_both_ends_in_insertion_order() {
    let mut t = Topology::new();
    for _ in 0..4 {
        t.add_bus();
    }
    t.add_branch(BusId(0), BusId(1), q(0.1)).unwrap();
    t.add_branch(BusId(2), BusId(0), q(0.2)).unwrap();
    t.add_branch(BusId(1), BusId(2), q(0.3)).unwrap();
    t.add_branch(BusId(0), BusId(1), q(0.4)).unwrap();
    assert_eq!(
        t.branches_of(BusId(0)),
        vec![(BusId(1), BranchId(0)), (BusId(2), BranchId(1)), (BusId(1), BranchId(3))]
    );
    assert_eq!(
        t.branches_of(BusId(1)),
        vec![(BusId(0), BranchId(0)), (BusId(2), BranchId(2)), (BusId(0), BranchId(3))]
    );
    assert_eq!(t.branches_of(BusId(2)), vec![(BusId(0), BranchId(1)), (BusId(1), BranchId(2))]);
    assert!(t.branches_of(BusId(3)).is_empty());
    assert!(t.branches_of(BusId(4)).is_empty());
    assert_eq!(t.branches_of(BusId(0)), t.branches_of(BusId(0)));
}

#[test]
fn state_starts_at_the_defaults() {
    let s = StateStore::new(3);
    assert_eq!(s.bus_count(), 3);
    let all = |v: &Vec<Quantity>| v.iter().map(|x| f(*x)).collect::<Vec<f64>>();
    assert_eq!(all(&s.voltage_magnitude), vec![1.0, 1.0, 1.0]);
    assert_eq!(all(&s.voltage_angle), vec![0.0, 0.0, 0.0]);
    assert_eq!(all(&s.active_power), vec![0.0, 0.0, 0.0]);
    assert_eq!(all(&s.reactive_power), vec![0.0, 0.0, 0.0]);
    assert_eq!(StateStore::default().bus_count(), 0);
}

#[test]
fn reset_restores_the_defaults_in_place() {
    let mut s = StateStore::new(2);
    s.voltage_magnitude[0] = q(1.05);
    s.voltage_angle[1] = q(-0.3);
    s.active_power[0] = q(2.5);
    s.reactive_power[1] = q(-0.75);
    s.reset();
    assert_eq!(s.bus_count(), 2);
    let all = |v: &Vec<Quantity>| v.iter().map(|x| f(*x)).collect::<Vec<f64>>();
    assert_eq!(all(&s.voltage_magnitude), vec![1.0, 1.0]);
    assert_eq!(all(&s.voltage_angle), vec![0.0, 0.0]);
    assert_eq!(all(&s.active_power), vec![0.0, 0.0]);
    assert_eq!(all(&s.reactive_power), vec![0.0, 0.0]);
}

#[test]
fn quantities_keep_their_bits() {
    assert_eq!(Quantity::zero().to_bits(), 0.0f64.to_bits());
    assert_eq!(Quantity::one().to_bits(), 1.0f64.to_bits());
    assert_eq!(f(q(-0.1)), -0.1);
}

#[test]
fn zero_of_either_sign_is_zero() {
    assert!(q(0.0).is_zero());
    assert!(q(-0.0).is_zero());
    assert!(Quantity::zero().is_zero());
    assert!(!Quantity::one().is_zero());
    assert!(!q(5e-324).is_zero());
    assert!(!q(-1.0).is_zero());
    assert!(!q(f64::NAN).is_zero());
    assert!(!q(f64::INFINITY).is_zero());
}

#[test]
fn results_carry_their_flag() {
    let ok = SolverResult::converged(3, q(1e-9));
    assert!(ok.converged);
    assert_eq!(ok.iterations, 3);
    assert_eq!(f(ok.convergence_error), 1e-9);
    let bad = SolverResult::failed(50, q(0.5));
    assert!(!bad.converged);
    assert_eq!(bad.iterations, 50);
    assert_eq!(f(bad.convergence_error), 0.5);
}

#[test]
fn reachability_follows_branches_in_both_directions() {
    let mut t = Topology::new();
    for _ in 0..6 {
        t.add_bus();
    }
    t.add_branch(BusId(4), BusId(3), q(0.1)).unwrap();
    t.add_branch(BusId(3), BusId(2), q(0.1)).unwrap();
    t.add_branch(BusId(2), BusId(1), q(0.1)).unwrap();
    t.add_branch(BusId(0), BusId(5), q(0.1)).unwrap();
    assert_eq!(t.reachable_from(BusId(1)).unwrap(), vec![false, true, true, true, true, false]);
    assert_eq!(t.reachable_from(BusId(4)).unwrap(), vec![false, true, true, true, true, false]);
    assert_eq!(t.reachable_from(BusId(5)).unwrap(), vec![true, false, false, false, false, true]);
    assert!(matches!(t.reachable_from(BusId(6)), Err(CoreError::InvalidBusId(6))));
}

#[test]
fn a_lone_bus_reaches_itself() {
    let mut t = Topology::new();
    t.add_bus();
    assert_eq!(t.reachable_from(BusId(0)).unwrap(), vec![true]);
}

#[test]
fn a_clone_is_independent_of_its_source() {
    let mut t = Topology::new();
    for _ in 0..3 {
        t.add_bus();
    }
    t.set_bus_type(BusId(2), BusType::Slack).unwrap();
    t.add_branch(BusId(0), BusId(2), q(0.3)).unwrap();
    let mut c = t.clone();
    assert_eq!(c.bus_count(), 3);
    assert_eq!(c.branch_count(), 1);
    assert_eq!(c.bus_type(BusId(2)).unwrap(), BusType::Slack);
    let b = c.branch(BranchId(0)).unwrap();
    assert_eq!((b.from, b.to, f(b.reactance)), (0, 2, 0.3));
    c.add_bus();
    c.add_branch(BusId(3), BusId(1), q(0.1)).unwrap();
    assert_eq!(c.bus_count(), 4);
    assert_eq!(c.branch_count(), 2);
    assert_eq!(t.bus_count(), 3);
    assert_eq!(t.branch_count(), 1);
}

#[test]
fn the_default_topology_is_empty() {
    let t = Topology::default();
    assert_eq!(t.bus_count(), 0);
    assert_eq!(t.branch_count(), 0);
}
