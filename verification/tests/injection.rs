use qsim::{
    Branch, Bus, BusType, Contribution, Generator, GridElement, Load, Quantity, StateStore,
};

fn q(x: f64) -> Quantity {
    Quantity::from_bits(x.to_bits())
}

fn f(v: Quantity) -> f64 {
    f64::from_bits(v.to_bits())
}

fn apply(contribution: Option<Contribution>, state: &mut StateStore) {
    if let Some(c) = contribution {
        state.active_power[c.bus] = q(f(state.active_power[c.bus]) + f(c.active_power));
        state.reactive_power[c.bus] = q(f(state.reactive_power[c.bus]) + f(c.reactive_power));
    }
}

fn generator(bus: usize, p: f64, reactive: f64) -> Generator {
    let mut g = Generator::with_limits(bus, q(p), q(1.0), q(0.0), q(2.0 * p), q(-p), q(p));
    g.reactive_power = q(reactive);
    g
}

#[test]
fn generator_adds_its_power() {
    let mut s = StateStore::new(3);
    let g = generator(1, 50.0, 10.0);
    apply(g.contribution(&s), &mut s);
    assert_eq!(f(s.active_power[1]), 50.0);
    assert_eq!(f(s.reactive_power[1]), 10.0);
    assert_eq!(f(s.active_power[0]), 0.0);
    assert_eq!(f(s.active_power[2]), 0.0);
}

#[test]
fn load_subtracts_its_power() {
    let mut s = StateStore::new(2);
    let l = Load::new(0, q(100.0), q(30.0));
    apply(l.contribution(&s), &mut s);
    assert_eq!(f(s.active_power[0]), -100.0);
    assert_eq!(f(s.reactive_power[0]), -30.0);
}

#[test]
fn contributions_accumulate() {
    let mut s = StateStore::new(2);
    let g = generator(1, 80.0, 5.0);
    let l = Load::new(1, q(30.0), q(7.5));
    apply(g.contribution(&s), &mut s);
    apply(l.contribution(&s), &mut s);
    assert_eq!(f(s.active_power[1]), 50.0);
    assert_eq!(f(s.reactive_power[1]), -2.5);
    apply(g.contribution(&s), &mut s);
    assert_eq!(f(s.active_power[1]), 130.0);
}

#[test]
fn device_out_of_service_contributes_nothing() {
    let s = StateStore::new(2);
    let mut g = generator(1, 80.0, 5.0);
    assert!(g.in_service);
    assert!(g.contribution(&s).is_some());
    g.in_service = false;
    assert!(g.contribution(&s).is_none());
    let mut l = Load::resistive(1, q(3.0));
    assert!(l.contribution(&s).is_some());
    l.in_service = false;
    assert!(l.contribution(&s).is_none());
}

#[test]
fn device_at_a_missing_bus_contributes_nothing() {
    let s = StateStore::new(2);
    assert!(generator(2, 80.0, 5.0).contribution(&s).is_none());
    assert!(Load::new(7, q(80.0), q(5.0)).contribution(&s).is_none());
    assert!(Load::new(0, q(80.0), q(5.0)).contribution(&StateStore::new(0)).is_none());
    let c = Load::new(1, q(80.0), q(5.0)).contribution(&s).unwrap();
    assert_eq!((c.bus, f(c.active_power), f(c.reactive_power)), (1, -80.0, -5.0));
}

#[test]
fn devices_name_their_kind() {
    assert_eq!(generator(0, 1.0, 0.0).element_type(), "Generator");
    assert_eq!(Load::new(0, q(1.0), q(0.0)).element_type(), "Load");
    assert_eq!(Bus::slack(q(1.0)).element_type(), "Bus::Slack");
    assert_eq!(Bus::pv(q(1.0), q(0.5)).element_type(), "Bus::PV");
    assert_eq!(Bus::pq(q(0.5), q(0.1)).element_type(), "Bus::PQ");
}

#[test]
fn generator_with_limits_keeps_them() {
    let g = Generator::with_limits(3, q(50.0), q(1.02), q(10.0), q(90.0), q(-20.0), q(25.0));
    assert_eq!(g.bus, 3);
    assert_eq!(f(g.active_power), 50.0);
    assert_eq!(f(g.reactive_power), 0.0);
    assert_eq!(f(g.voltage_setpoint), 1.02);
    assert_eq!((f(g.p_min), f(g.p_max), f(g.q_min), f(g.q_max)), (10.0, 90.0, -20.0, 25.0));
    assert!(g.in_service);
}

#[test]
fn loads_start_in_service() {
    let l = Load::new(2, q(40.0), q(15.0));
    assert_eq!((l.bus, f(l.active_power), f(l.reactive_power), l.in_service), (2, 40.0, 15.0, true));
    let r = Load::resistive(1, q(12.0));
    assert_eq!((r.bus, f(r.active_power), f(r.reactive_power), r.in_service), (1, 12.0, 0.0, true));
}

#[test]
fn buses_start_from_their_defaults() {
    let s = Bus::slack(q(1.05));
    assert_eq!(s.bus_type, BusType::Slack);
    assert_eq!(f(s.voltage_magnitude), 1.05);
    assert_eq!((f(s.voltage_angle), f(s.active_power), f(s.reactive_power)), (0.0, 0.0, 0.0));
    assert_eq!(f(s.base_voltage_kv), 1.0);
    let v = Bus::pv(q(1.02), q(50.0));
    assert_eq!(v.bus_type, BusType::PV);
    assert_eq!((f(v.voltage_magnitude), f(v.active_power)), (1.02, 50.0));
    assert_eq!((f(v.voltage_angle), f(v.reactive_power), f(v.base_voltage_kv)), (0.0, 0.0, 1.0));
    let p = Bus::pq(q(-100.0), q(-30.0));
    assert_eq!(p.bus_type, BusType::PQ);
    assert_eq!((f(p.active_power), f(p.reactive_power)), (-100.0, -30.0));
    assert_eq!((f(p.voltage_magnitude), f(p.voltage_angle), f(p.base_voltage_kv)), (1.0, 0.0, 1.0));
}

#[test]
fn a_bus_leaves_the_state_alone() {
    let mut s = StateStore::new(2);
    s.active_power[1] = q(0.5);
    Bus::pq(q(-100.0), q(-30.0)).apply(&mut s);
    assert_eq!(f(s.active_power[1]), 0.5);
    assert_eq!(f(s.active_power[0]), 0.0);
    assert_eq!(s.bus_count(), 2);
}

#[test]
fn branches_start_from_their_defaults() {
    let l = Branch::line(0, 1, q(0.01), q(0.1));
    assert_eq!((l.from_bus, l.to_bus, f(l.resistance), f(l.reactance)), (0, 1, 0.01, 0.1));
    assert_eq!((f(l.susceptance), f(l.tap_ratio), f(l.phase_shift)), (0.0, 1.0, 0.0));
    assert!(l.in_service);
    let c = Branch::line_with_charging(1, 2, q(0.02), q(0.15), q(0.04));
    assert_eq!((c.from_bus, c.to_bus, f(c.resistance), f(c.reactance)), (1, 2, 0.02, 0.15));
    assert_eq!((f(c.susceptance), f(c.tap_ratio), f(c.phase_shift)), (0.04, 1.0, 0.0));
    assert!(c.in_service);
    let t = Branch::transformer(2, 3, q(0.0), q(0.08), q(0.975));
    assert_eq!((t.from_bus, t.to_bus, f(t.resistance), f(t.reactance)), (2, 3, 0.0, 0.08));
    assert_eq!((f(t.susceptance), f(t.tap_ratio), f(t.phase_shift)), (0.0, 0.975, 0.0));
    assert!(t.in_service);
}

#[test]
fn negation_flips_the_sign_only() {
    assert_eq!(f(q(1.5).negated()), -1.5);
    assert_eq!(f(q(-0.25).negated()), 0.25);
    assert_eq!(q(0.0).negated().to_bits(), (-0.0f64).to_bits());
    assert_eq!(q(f64::INFINITY).negated().to_bits(), f64::NEG_INFINITY.to_bits());
    assert_eq!(q(3.0).negated().negated().to_bits(), 3.0f64.to_bits());
    assert!(q(0.0).negated().is_zero());
}
