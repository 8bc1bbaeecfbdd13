//! Register `GMAC_TBFT255`: 128 to 255 byte frames transmitted.

use vstd::prelude::*;
use crate::generic::FieldReader;

verus! {

/// Value read from register `GMAC_TBFT255`.
#[derive(Debug, Clone, Copy, PartialEq, Eq, Structural)]
pub struct R {
    bits: u32,
}

/// Reader of field `NFTX`: 128 to 255 byte frames transmitted without error.
#[allow(non_camel_case_types)]
#[derive(Debug, Clone, Copy, PartialEq, Eq, Structural)]
pub struct NFTX_R(FieldReader);

impl NFTX_R {
    /// The raw value of the field.
    pub closed spec fn spec_bits(&self) -> u32 {
        self.0.spec_bits()
    }

    /// Holds a value of the field.
    pub fn new(bits: u32) -> (r: Self)
        ensures
            r.spec_bits() == bits,
    {
        NFTX_R(FieldReader::new(bits))
    }

    /// The raw value of the field.
    pub fn bits(&self) -> (r: u32)
        ensures
            r == self.spec_bits(),
    {
        self.0.bits()
    }
}

impl R {
    /// The raw value read.
    pub closed spec fn spec_bits(&self) -> u32 {
        self.bits
    }

    /// Holds a value read from the register.
    pub fn from_bits(bits: u32) -> (r: Self)
        ensures
            r.spec_bits() == bits,
    {
        R { bits }
    }

    /// The raw value read.
    pub fn bits(&self) -> (r: u32)
        ensures
            r == self.spec_bits(),
    {
        self.bits
    }

    /// Bits 0:31 - 128 to 255 Byte Frames Transmitted without Error.
    pub fn nftx(&self) -> (r: NFTX_R)
        ensures
            r.spec_bits() == self.spec_bits(),
    {
        NFTX_R::new(self.bits)
    }
}

/// Description of register `GMAC_TBFT255`: 32 bits wide, readable.
#[allow(non_camel_case_types)]
pub struct GMAC_TBFT255_SPEC;

impl GMAC_TBFT255_SPEC {
    /// Value of the register after reset.
    pub fn reset_value() -> (r: u32)
        ensures
            r == 0,
    {
        0
    }
}

} // verus!
