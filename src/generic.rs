//! Readers of 32-bit registers and of their fields.

use vstd::prelude::*;

verus! {

/// The value of one field of a register, as read.
#[derive(Debug, Clone, Copy, PartialEq, Eq, Structural)]
pub struct FieldReader {
    bits: u32,
}

impl FieldReader {
    /// The raw value of the field.
    pub closed spec fn spec_bits(&self) -> u32 {
        self.bits
    }

    /// Holds a field value.
    pub fn new(bits: u32) -> (r: Self)
        ensures
            r.spec_bits() == bits,
    {
        FieldReader { bits }
    }

    /// The raw value of the field.
    pub fn bits(&self) -> (r: u32)
        ensures
            r == self.spec_bits(),
    {
        self.bits
    }
}

} // verus!
