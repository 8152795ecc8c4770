//! Network buses: their classification and their record.

use crate::quantity::{Quantity, ONE_BITS, ZERO_BITS};
use crate::solver::GridElement;
use crate::state::StateStore;
use vstd::prelude::*;

verus! {

/// Role of a bus in a power-flow study.
#[derive(Debug, Clone, Copy, PartialEq, Eq, Structural)]
pub enum BusType {
    /// Angle reference; absorbs the power mismatch.
    Slack,
    /// Voltage magnitude and active power are fixed.
    PV,
    /// Active and reactive power are fixed.
    PQ,
}

/// A bus (node) of the network.
#[derive(Debug, Clone, Copy)]
pub struct Bus {
    /// Bus type.
    pub bus_type: BusType,
    /// Voltage magnitude (per-unit).
    pub voltage_magnitude: Quantity,
    /// Voltage angle (radians).
    pub voltage_angle: Quantity,
    /// Active power injection (positive = generation).
    pub active_power: Quantity,
    /// Reactive power injection (positive = generation).
    pub reactive_power: Quantity,
    /// Base voltage (kV).
    pub base_voltage_kv: Quantity,
}

impl Bus {
    /// A slack bus held at the given voltage magnitude: angle and powers
    /// zero, base voltage one.
    pub fn slack(voltage_magnitude: Quantity) -> (b: Bus)
        ensures
            b == (Bus {
                bus_type: BusType::Slack,
                voltage_magnitude,
                voltage_angle: Quantity { bits: ZERO_BITS },
                active_power: Quantity { bits: ZERO_BITS },
                reactive_power: Quantity { bits: ZERO_BITS },
                base_voltage_kv: Quantity { bits: ONE_BITS },
            }),
    {
        Bus {
            bus_type: BusType::Slack,
            voltage_magnitude,
            voltage_angle: Quantity::zero(),
            active_power: Quantity::zero(),
            reactive_power: Quantity::zero(),
            base_voltage_kv: Quantity::one(),
        }
    }

    /// A PV bus with the given voltage magnitude and active power: angle
    /// and reactive power zero, base voltage one.
    pub fn pv(voltage_magnitude: Quantity, active_power: Quantity) -> (b: Bus)
        ensures
            b == (Bus {
                bus_type: BusType::PV,
                voltage_magnitude,
                voltage_angle: Quantity { bits: ZERO_BITS },
                active_power,
                reactive_power: Quantity { bits: ZERO_BITS },
                base_voltage_kv: Quantity { bits: ONE_BITS },
            }),
    {
        Bus {
            bus_type: BusType::PV,
            voltage_magnitude,
            voltage_angle: Quantity::zero(),
            active_power,
            reactive_power: Quantity::zero(),
            base_voltage_kv: Quantity::one(),
        }
    }

    /// A PQ bus with the given powers: voltage magnitude one, angle zero,
    /// base voltage one.
    pub fn pq(active_power: Quantity, reactive_power: Quantity) -> (b: Bus)
        ensures
            b == (Bus {
                bus_type: BusType::PQ,
                voltage_magnitude: Quantity { bits: ONE_BITS },
                voltage_angle: Quantity { bits: ZERO_BITS },
                active_power,
                reactive_power,
                base_voltage_kv: Quantity { bits: ONE_BITS },
            }),
    {
        Bus {
            bus_type: BusType::PQ,
            voltage_magnitude: Quantity::one(),
            voltage_angle: Quantity::zero(),
            active_power,
            reactive_power,
            base_voltage_kv: Quantity::one(),
        }
    }
}

impl GridElement for Bus {
    /// `"Bus::Slack"`, `"Bus::PV"` or `"Bus::PQ"`.
    fn element_type(&self) -> (tag: &'static str)
        ensures
            tag@ == match self.bus_type {
                BusType::Slack => "Bus::Slack"@,
                BusType::PV => "Bus::PV"@,
                BusType::PQ => "Bus::PQ"@,
            },
    {
        match self.bus_type {
            BusType::Slack => "Bus::Slack",
            BusType::PV => "Bus::PV",
            BusType::PQ => "Bus::PQ",
        }
    }

    /// A bus contributes nothing: its values enter the state when the
    /// network is set up.
    fn apply(&self, state: &mut StateStore)
        ensures
            *final(state) == *old(state),
    {
    }
}

} // verus!
