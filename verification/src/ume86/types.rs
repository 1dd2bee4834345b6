//! Address types of the emulator.

use vstd::prelude::*;
use crate::ir86::types::{Offset16, SegmentSelector};

verus! {

/// 16bit Far Pointer Type on Real Mode
#[derive(Debug, Clone, Copy, PartialEq, Eq, Structural)]
pub struct Far16Ptr(pub u32);

impl Far16Ptr {
    /// The selector: the high 16 bits.
    pub fn sel(&self) -> (r: SegmentSelector)
        ensures
            r.0 == self.0 / 0x1_0000,
    {
        proof {
            crate::bits::lemma_u32_fields(self.0);
        }
        SegmentSelector((self.0 >> 16) as u16)
    }

    /// The offset: the low 16 bits.
    pub fn offset(&self) -> (r: Offset16)
        ensures
            r.0 == self.0 % 0x1_0000,
    {
        proof {
            crate::bits::lemma_u32_fields(self.0);
        }
        Offset16((self.0 & 0xffff) as u16)
    }

    /// Returns the linear address
    pub fn as_linear(&self) -> (r: Linear32)
        ensures
            r.0 == (self.0 / 0x1_0000) * 16 + self.0 % 0x1_0000,
    {
        let sel = self.sel().0 as u32;
        let offset = self.offset().0 as u32;
        Linear32(sel * 16 + offset)
    }
}

/// 32bit Linear Address Type
#[derive(Debug, Clone, Copy, PartialEq, Eq, Structural)]
pub struct Linear32(pub u32);

impl Linear32 {
    /// Adds to the address modulo 2^32.
    pub fn wrapping_add(self, rhs: u32) -> (r: Self)
        ensures
            r.0 == (self.0 + rhs) % 0x1_0000_0000,
    {
        Linear32(self.0.wrapping_add(rhs))
    }
}

/// Segment Limit Type
#[derive(Debug, Clone, Copy, PartialEq, Eq, Structural)]
pub struct Limit(pub u32);

/// I/O Port Address Type
#[derive(Debug, Clone, Copy, PartialEq, Eq, Structural)]
pub struct IoPort(pub u16);

} // verus!
