//! Pins in a chosen multiplexer mode, as the pin controller hands them out.

use vstd::prelude::*;

verus! {

/// Pin `PB2`.
pub struct PB2;
/// Pin `PB3`.
pub struct PB3;
/// Pin `PC12`.
pub struct PC12;
/// Pin `PC14`.
pub struct PC14;
/// Pin `PD12`.
pub struct PD12;
/// Pin `PD28`.
pub struct PD28;

/// Multiplexer mode: peripheral function A.
pub struct PeripheralA;
/// Multiplexer mode: peripheral function B.
pub struct PeripheralB;
/// Multiplexer mode: peripheral function C.
pub struct PeripheralC;

/// Pin `I` routed in multiplexer mode `M`.
pub struct Pin<I, M> {
    #[allow(dead_code)]
    id: I,
    #[allow(dead_code)]
    mode: M,
}

impl<I, M> Pin<I, M> {
    /// A pin that has been routed in mode `M`.
    pub fn new(id: I, mode: M) -> (r: Self) {
        Pin { id, mode }
    }
}

} // verus!
