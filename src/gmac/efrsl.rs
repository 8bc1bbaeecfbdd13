//! Register `EFRSL`: PTP event frame received, seconds low.

use vstd::prelude::*;
use crate::generic::FieldReader;

verus! {

/// Reader of field `RUD`: register update.
#[allow(non_camel_case_types)]
pub type RUD_R = FieldReader;

/// Value read from register `EFRSL`.
#[derive(Debug, Clone, Copy, PartialEq, Eq, Structural)]
pub struct R {
    bits: u32,
}

impl R {
    /// The raw value read.
    pub closed spec fn spec_bits(&self) -> u32 {
        self.bits
    }

    /// Holds a value read from the register.
    pub fn from_bits(bits: u32) -> (r: Self)
        ensures
            r.spec_bits() == bits,
    {
        R { bits }
    }

    /// The raw value read.
    pub fn bits(&self) -> (r: u32)
        ensures
            r == self.spec_bits(),
    {
        self.bits
    }

    /// Bits 0:31 - Register Update.
    pub fn rud(&self) -> (r: RUD_R)
        ensures
            r.spec_bits() == self.spec_bits(),
    {
        RUD_R::new(self.bits)
    }
}

/// Description of register `EFRSL`: 32 bits wide, readable.
#[allow(non_camel_case_types)]
pub struct EFRSL_SPEC;

impl EFRSL_SPEC {
    /// Value of the register after reset.
    pub fn reset_value() -> (r: u32)
        ensures
            r == 0,
    {
        0
    }
}

} // verus!
