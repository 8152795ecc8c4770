//! Branch records: lines and transformers.

use crate::quantity::{Quantity, ONE_BITS, ZERO_BITS};
use vstd::prelude::*;

verus! {

/// A branch (line or transformer) between two buses.
#[derive(Debug, Clone, Copy)]
pub struct Branch {
    /// From bus index.
    pub from_bus: usize,
    /// To bus index.
    pub to_bus: usize,
    /// Resistance (per-unit).
    pub resistance: Quantity,
    /// Reactance (per-unit).
    pub reactance: Quantity,
    /// Total line charging susceptance (per-unit).
    pub susceptance: Quantity,
    /// Transformer tap ratio (one for lines).
    pub tap_ratio: Quantity,
    /// Transformer phase shift (radians).
    pub phase_shift: Quantity,
    /// Branch status (true = in service).
    pub in_service: bool,
}

impl Branch {
    /// A transmission line in service: no charging, tap ratio one, no phase
    /// shift.
    pub fn line(from_bus: usize, to_bus: usize, resistance: Quantity, reactance: Quantity) -> (b:
        Branch)
        ensures
            b == (Branch {
                from_bus,
                to_bus,
                resistance,
                reactance,
                susceptance: Quantity { bits: ZERO_BITS },
                tap_ratio: Quantity { bits: ONE_BITS },
                phase_shift: Quantity { bits: ZERO_BITS },
                in_service: true,
            }),
    {
        Branch {
            from_bus,
            to_bus,
            resistance,
            reactance,
            susceptance: Quantity::zero(),
            tap_ratio: Quantity::one(),
            phase_shift: Quantity::zero(),
            in_service: true,
        }
    }

    /// A transmission line in service with the given charging susceptance:
    /// tap ratio one, no phase shift.
    pub fn line_with_charging(
        from_bus: usize,
        to_bus: usize,
        resistance: Quantity,
        reactance: Quantity,
        susceptance: Quantity,
    ) -> (b: Branch)
        ensures
            b == (Branch {
                from_bus,
                to_bus,
                resistance,
                reactance,
                susceptance,
                tap_ratio: Quantity { bits: ONE_BITS },
                phase_shift: Quantity { bits: ZERO_BITS },
                in_service: true,
            }),
    {
        Branch {
            from_bus,
            to_bus,
            resistance,
            reactance,
            susceptance,
            tap_ratio: Quantity::one(),
            phase_shift: Quantity::zero(),
            in_service: true,
        }
    }

    /// A transformer in service with the given tap ratio: no charging, no
    /// phase shift.
    pub fn transformer(
        from_bus: usize,
        to_bus: usize,
        resistance: Quantity,
        reactance: Quantity,
        tap_ratio: Quantity,
    ) -> (b: Branch)
        ensures
            b == (Branch {
                from_bus,
                to_bus,
                resistance,
                reactance,
                susceptance: Quantity { bits: ZERO_BITS },
                tap_ratio,
                phase_shift: Quantity { bits: ZERO_BITS },
                in_service: true,
            }),
    {
        Branch {
            from_bus,
            to_bus,
            resistance,
            reactance,
            susceptance: Quantity::zero(),
            tap_ratio,
            phase_shift: Quantity::zero(),
            in_service: true,
        }
    }
}

} // verus!
