//! Data types for x86: segment selectors and 16-bit and 32-bit offsets.

use vstd::prelude::*;
use crate::ir86::encoding::Scale;

verus! {

/// Segment Selector Type
#[derive(Debug, Clone, Copy, PartialEq, Eq, Structural)]
pub struct SegmentSelector(pub u16);

/// 16bit Offset Type
#[derive(Debug, Clone, Copy, PartialEq, Eq, Structural)]
pub struct Offset16(pub u16);

impl Offset16 {
    /// Adds two offsets modulo 2^16.
    pub fn wrapping_add(self, rhs: Self) -> (r: Self)
        ensures
            r.0 == (self.0 + rhs.0) % 0x1_0000,
    {
        Offset16(self.0.wrapping_add(rhs.0))
    }

    /// Multiplies the offset by the scale factor, modulo 2^16.
    pub fn wrapping_shl(self, rhs: Scale) -> (r: Self)
        ensures
            r.0 == (self.0 * vstd::arithmetic::power2::pow2(rhs.value() as nat)) % 0x1_0000,
    {
        let s = rhs.shift();
        let r = self.0 << s;
        proof {
            vstd::arithmetic::power2::lemma2_to64();
            crate::bits::lemma_u16_shl_scale(self.0);
        }
        Offset16(r)
    }
}

/// 32bit Offset Type
#[derive(Debug, Clone, Copy, PartialEq, Eq, Structural)]
pub struct Offset32(pub u32);

impl Offset32 {
    /// Adds two offsets modulo 2^32.
    pub fn wrapping_add(self, rhs: Self) -> (r: Self)
        ensures
            r.0 == (self.0 + rhs.0) % 0x1_0000_0000,
    {
        Offset32(self.0.wrapping_add(rhs.0))
    }

    /// Multiplies the offset by the scale factor, modulo 2^32.
    pub fn wrapping_shl(self, rhs: Scale) -> (r: Self)
        ensures
            r.0 == (self.0 * vstd::arithmetic::power2::pow2(rhs.value() as nat)) % 0x1_0000_0000,
    {
        let s = rhs.shift();
        let r = self.0 << s;
        proof {
            vstd::arithmetic::power2::lemma2_to64();
            crate::bits::lemma_u32_shl_scale(self.0);
        }
        Offset32(r)
    }
}

} // verus!
