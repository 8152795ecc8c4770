//! The per-bus numeric state shared by injection devices and solvers.

use crate::quantity::{Quantity, ONE_BITS, ZERO_BITS};
use vstd::prelude::*;

verus! {

/// Four index-aligned arrays, one entry per bus.
#[derive(Debug, Clone)]
pub struct StateStore {
    /// Voltage magnitudes (per-unit).
    pub voltage_magnitude: Vec<Quantity>,
    /// Voltage angles (radians).
    pub voltage_angle: Vec<Quantity>,
    /// Active power injections.
    pub active_power: Vec<Quantity>,
    /// Reactive power injections.
    pub reactive_power: Vec<Quantity>,
}

/// `n` copies of `value`.
pub open spec fn constant(n: nat, value: Quantity) -> Seq<Quantity> {
    Seq::new(n, |i: int| value)
}

/// A vector of `n` copies of `value`.
fn filled(n: usize, value: Quantity) -> (v: Vec<Quantity>)
    ensures
        v@ == constant(n as nat, value),
{
    let mut v: Vec<Quantity> = Vec::new();
    let mut i: usize = 0;
    while i < n
        invariant
            i <= n,
            v@ =~= constant(i as nat, value),
        decreases n - i,
    {
        v.push(value);
        i = i + 1;
    }
    v
}

/// Overwrites every entry of `v` with `value`, keeping its length.
fn fill(v: &mut Vec<Quantity>, value: Quantity)
    ensures
        final(v)@ == constant(old(v)@.len(), value),
{
    let n = v.len();
    let mut i: usize = 0;
    while i < n
        invariant
            i <= n,
            v@.len() == n,
            forall|j: int| 0 <= j < i ==> v@[j] == value,
        decreases n - i,
    {
        v.set(i, value);
        i = i + 1;
    }
    assert(v@ =~= constant(n as nat, value));
}

impl StateStore {
    /// All four arrays have one length.
    pub open spec fn wf(&self) -> bool {
        &&& self.voltage_angle@.len() == self.voltage_magnitude@.len()
        &&& self.active_power@.len() == self.voltage_magnitude@.len()
        &&& self.reactive_power@.len() == self.voltage_magnitude@.len()
    }

    /// Every array has `n` entries, all at their defaults: magnitude one,
    /// angle and both powers zero.
    pub open spec fn is_default(&self, n: nat) -> bool {
        &&& self.voltage_magnitude@ == constant(n, Quantity { bits: ONE_BITS })
        &&& self.voltage_angle@ == constant(n, Quantity { bits: ZERO_BITS })
        &&& self.active_power@ == constant(n, Quantity { bits: ZERO_BITS })
        &&& self.reactive_power@ == constant(n, Quantity { bits: ZERO_BITS })
    }

    /// A store for `bus_count` buses, at the defaults.
    pub fn new(bus_count: usize) -> (s: StateStore)
        ensures
            s.wf(),
            s.is_default(bus_count as nat),
    {
        StateStore {
            voltage_magnitude: filled(bus_count, Quantity::one()),
            voltage_angle: filled(bus_count, Quantity::zero()),
            active_power: filled(bus_count, Quantity::zero()),
            reactive_power: filled(bus_count, Quantity::zero()),
        }
    }

    /// Number of buses: the length of the magnitude array.
    pub fn bus_count(&self) -> (n: usize)
        ensures
            n == self.voltage_magnitude@.len(),
    {
        self.voltage_magnitude.len()
    }

    /// Restores the defaults in place; no array changes its length.
    pub fn reset(&mut self)
        ensures
            final(self).voltage_magnitude@ == constant(
                old(self).voltage_magnitude@.len(),
                Quantity { bits: ONE_BITS },
            ),
            final(self).voltage_angle@ == constant(
                old(self).voltage_angle@.len(),
                Quantity { bits: ZERO_BITS },
            ),
            final(self).active_power@ == constant(
                old(self).active_power@.len(),
                Quantity { bits: ZERO_BITS },
            ),
            final(self).reactive_power@ == constant(
                old(self).reactive_power@.len(),
                Quantity { bits: ZERO_BITS },
            ),
            old(self).wf() ==> final(self).wf(),
    {
        fill(&mut self.voltage_magnitude, Quantity::one());
        fill(&mut self.voltage_angle, Quantity::zero());
        fill(&mut self.active_power, Quantity::zero());
        fill(&mut self.reactive_power, Quantity::zero());
    }
}

impl Default for StateStore {
    /// The store for no bus at all.
    fn default() -> (s: StateStore)
        ensures
            s.wf(),
            s.is_default(0),
    {
        StateStore::new(0)
    }
}

} // verus!
