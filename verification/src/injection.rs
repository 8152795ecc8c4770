//! Devices that inject power at a bus: generators and loads.
//!
//! A device does not touch the network graph: it only says at which bus it
//! stands and what it adds there. Whether it contributes at all, where, and
//! with which sign is decided here; the addition itself is arithmetic on the
//! values and is done by whoever applies the contribution.

use crate::quantity::{Quantity, ZERO_BITS};
use crate::state::StateStore;
use vstd::prelude::*;

verus! {

/// A generator connected to a bus.
#[derive(Debug, Clone, Copy)]
pub struct Generator {
    /// Connected bus index.
    pub bus: usize,
    /// Active power output.
    pub active_power: Quantity,
    /// Reactive power output.
    pub reactive_power: Quantity,
    /// Voltage setpoint (per-unit).
    pub voltage_setpoint: Quantity,
    /// Minimum active power.
    pub p_min: Quantity,
    /// Maximum active power.
    pub p_max: Quantity,
    /// Minimum reactive power.
    pub q_min: Quantity,
    /// Maximum reactive power.
    pub q_max: Quantity,
    /// Generator status (true = in service).
    pub in_service: bool,
}

/// A load connected to a bus.
#[derive(Debug, Clone, Copy)]
pub struct Load {
    /// Connected bus index.
    pub bus: usize,
    /// Active power consumption (positive = consumption).
    pub active_power: Quantity,
    /// Reactive power consumption (positive = consumption).
    pub reactive_power: Quantity,
    /// Load status (true = in service).
    pub in_service: bool,
}

/// What a device adds to the state: the amounts to add to the active and
/// the reactive power at `bus`.
#[derive(Debug, Clone, Copy)]
pub struct Contribution {
    pub bus: usize,
    pub active_power: Quantity,
    pub reactive_power: Quantity,
}

/// A device at `bus` contributes when it is in service and its bus is one
/// of the `bus_count` buses of the state.
pub open spec fn contributes(in_service: bool, bus: usize, bus_count: nat) -> bool {
    in_service && bus < bus_count
}

impl Generator {
    /// What the generator adds to a state of `bus_count` buses: its power,
    /// or nothing when it does not contribute.
    pub open spec fn spec_contribution(self, bus_count: nat) -> Option<Contribution> {
        if contributes(self.in_service, self.bus, bus_count) {
            Some(
                Contribution {
                    bus: self.bus,
                    active_power: self.active_power,
                    reactive_power: self.reactive_power,
                },
            )
        } else {
            None
        }
    }

    /// A generator in service with the given limits and no reactive output.
    pub fn with_limits(
        bus: usize,
        active_power: Quantity,
        voltage_setpoint: Quantity,
        p_min: Quantity,
        p_max: Quantity,
        q_min: Quantity,
        q_max: Quantity,
    ) -> (g: Generator)
        ensures
            g == (Generator {
                bus,
                active_power,
                reactive_power: Quantity { bits: ZERO_BITS },
                voltage_setpoint,
                p_min,
                p_max,
                q_min,
                q_max,
                in_service: true,
            }),
    {
        Generator {
            bus,
            active_power,
            reactive_power: Quantity::zero(),
            voltage_setpoint,
            p_min,
            p_max,
            q_min,
            q_max,
            in_service: true,
        }
    }

    /// Type tag of the device, for diagnostics.
    pub fn element_type(&self) -> (tag: &'static str)
        ensures
            tag@ == "Generator"@,
    {
        "Generator"
    }

    /// What the generator adds to `state`.
    pub fn contribution(&self, state: &StateStore) -> (c: Option<Contribution>)
        ensures
            c == self.spec_contribution(state.voltage_magnitude@.len()),
    {
        if self.in_service && self.bus < state.bus_count() {
            Some(
                Contribution {
                    bus: self.bus,
                    active_power: self.active_power,
                    reactive_power: self.reactive_power,
                },
            )
        } else {
            None
        }
    }
}

impl Load {
    /// What the load adds to a state of `bus_count` buses: the negation of
    /// its power, or nothing when it does not contribute.
    pub open spec fn spec_contribution(self, bus_count: nat) -> Option<Contribution> {
        if contributes(self.in_service, self.bus, bus_count) {
            Some(
                Contribution {
                    bus: self.bus,
                    active_power: self.active_power.spec_negated(),
                    reactive_power: self.reactive_power.spec_negated(),
                },
            )
        } else {
            None
        }
    }

    /// A load in service.
    pub fn new(bus: usize, active_power: Quantity, reactive_power: Quantity) -> (l: Load)
        ensures
            l == (Load { bus, active_power, reactive_power, in_service: true }),
    {
        Load { bus, active_power, reactive_power, in_service: true }
    }

    /// A purely resistive load in service: no reactive power.
    pub fn resistive(bus: usize, active_power: Quantity) -> (l: Load)
        ensures
            l == (Load {
                bus,
                active_power,
                reactive_power: Quantity { bits: ZERO_BITS },
                in_service: true,
            }),
    {
        Load::new(bus, active_power, Quantity::zero())
    }

    /// Type tag of the device, for diagnostics.
    pub fn element_type(&self) -> (tag: &'static str)
        ensures
            tag@ == "Load"@,
    {
        "Load"
    }

    /// What the load adds to `state`.
    pub fn contribution(&self, state: &StateStore) -> (c: Option<Contribution>)
        ensures
            c == self.spec_contribution(state.voltage_magnitude@.len()),
    {
        if self.in_service && self.bus < state.bus_count() {
            Some(
                Contribution {
                    bus: self.bus,
                    active_power: self.active_power.negated(),
                    reactive_power: self.reactive_power.negated(),
                },
            )
        } else {
            None
        }
    }
}

/// A generator and a load of the same power at the same bus contribute
/// opposite amounts, and both contribute or neither does.
pub proof fn load_mirrors_generator(g: Generator, l: Load, bus_count: nat)
    requires
        g.bus == l.bus,
        g.active_power == l.active_power,
        g.reactive_power == l.reactive_power,
        g.in_service == l.in_service,
    ensures
        match (g.spec_contribution(bus_count), l.spec_contribution(bus_count)) {
            (Some(a), Some(b)) => {
                &&& a.bus == b.bus
                &&& b.active_power == a.active_power.spec_negated()
                &&& b.reactive_power == a.reactive_power.spec_negated()
            },
            (None, None) => true,
            _ => false,
        },
{
}

} // verus!
