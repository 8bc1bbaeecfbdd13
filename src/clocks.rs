//! The clock sources the CAN binding reads, and the peripheral clock gates.
//!
//! Frequencies are whole hertz.

use vstd::prelude::*;

verus! {

/// Identifier of a peripheral, as the power management controller numbers it.
#[derive(Debug, Clone, Copy, PartialEq, Eq, Structural)]
pub enum PeripheralIdentifier {
    /// `MCAN0`
    MCAN0,
    /// `MCAN1`
    MCAN1,
}

impl PeripheralIdentifier {
    /// Peripheral number of the identifier.
    pub open spec fn spec_number(self) -> u32 {
        match self {
            PeripheralIdentifier::MCAN0 => 35,
            PeripheralIdentifier::MCAN1 => 37,
        }
    }

    /// Peripheral number of the identifier.
    pub fn number(self) -> (r: u32)
        ensures
            r == self.spec_number(),
    {
        match self {
            PeripheralIdentifier::MCAN0 => 35,
            PeripheralIdentifier::MCAN1 => 37,
        }
    }
}

/// The clock-gate bit of a peripheral in the 64-bit enable mask.
pub open spec fn gate_bit(pid: PeripheralIdentifier) -> u64 {
    1u64 << (pid.spec_number() as u64)
}

/// The host (core) clock, with the clock gates of the peripherals it feeds.
#[derive(Debug, Clone, Copy, PartialEq, Eq, Structural)]
pub struct HostClock {
    /// Frequency in hertz.
    pub freq_hz: u32,
    /// Peripheral clock enable mask: bit `n` gates peripheral number `n`.
    pub pcer: u64,
}

impl HostClock {
    /// Whether the clock gate of `pid` is open.
    pub open spec fn spec_is_enabled(&self, pid: PeripheralIdentifier) -> bool {
        self.pcer & gate_bit(pid) != 0
    }

    /// Frequency in hertz.
    pub fn freq(&self) -> (r: u32)
        ensures
            r == self.freq_hz,
    {
        self.freq_hz
    }

    /// Opens the clock gate of `pid`, leaving the other gates and the
    /// frequency as they are.
    pub fn enable_peripheral(&mut self, pid: PeripheralIdentifier)
        ensures
            final(self).freq_hz == old(self).freq_hz,
            final(self).pcer == old(self).pcer | gate_bit(pid),
            final(self).spec_is_enabled(pid),
    {
        let n: u32 = pid.number();
        let bit: u64 = 1u64 << (n as u64);
        let old_pcer: u64 = self.pcer;
        self.pcer = old_pcer | bit;
        proof {
            let nn: u64 = n as u64;
            assert(nn < 64);
            assert(((old_pcer | (1u64 << nn)) & (1u64 << nn)) != 0) by (bit_vector)
                requires nn < 64;
        }
    }

    /// Whether the clock gate of `pid` is open.
    pub fn is_enabled(&self, pid: PeripheralIdentifier) -> (r: bool)
        ensures
            r == self.spec_is_enabled(pid),
    {
        let n: u32 = pid.number();
        self.pcer & (1u64 << (n as u64)) != 0
    }
}

/// Programmable clock number five, which drives the CAN controllers.
#[derive(Debug, Clone, Copy, PartialEq, Eq, Structural)]
pub struct Pck5;

/// A programmable clock output `P`.
pub struct Pck<P> {
    /// Which programmable clock this is.
    pub id: P,
    /// Frequency in hertz.
    pub freq_hz: u32,
}

impl<P> Pck<P> {
    /// Frequency in hertz.
    pub fn freq(&self) -> (r: u32)
        ensures
            r == self.freq_hz,
    {
        self.freq_hz
    }
}

} // verus!
