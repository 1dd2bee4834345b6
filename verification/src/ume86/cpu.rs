//! CPU definitions

use vstd::prelude::*;

verus! {

/// CPU generations the emulator can model.
#[derive(Debug, Clone, Copy, PartialEq, Eq, Structural)]
pub enum Generation {
    I8086,
    I186,
    I286,
    I386,
    I486,
    Pentium,
    P6,
    P7,
}

impl Generation {
    /// The generation's number, as in the family field of CPUID.
    pub open spec fn number(self) -> u32 {
        match self {
            Generation::I8086 => 0,
            Generation::I186 => 1,
            Generation::I286 => 2,
            Generation::I386 => 3,
            Generation::I486 => 4,
            Generation::Pentium => 5,
            Generation::P6 => 6,
            Generation::P7 => 7,
        }
    }

    /// The latest CPU generation supported by this emulator.
    pub const LATEST: Generation = Generation::P7;

    /// The family field of the CPUID signature.
    pub fn cpuid_base(&self) -> (r: u32)
        ensures
            r == self.number() * 0x100,
    {
        match self {
            Generation::I8086 => 0x000,
            Generation::I186 => 0x100,
            Generation::I286 => 0x200,
            Generation::I386 => 0x300,
            Generation::I486 => 0x400,
            Generation::Pentium => 0x500,
            Generation::P6 => 0x600,
            Generation::P7 => 0x700,
        }
    }
}

} // verus!
