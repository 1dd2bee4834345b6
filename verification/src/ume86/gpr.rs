//! General Purpose Registers and their partial views.
//!
//! A register is a 32-bit value; its low 16 bits are the 16-bit register, and
//! its low and second bytes are the 8-bit registers (AL and AH for EAX).

use vstd::prelude::*;
use crate::ir86::types::{Offset16, Offset32, SegmentSelector};
use crate::ume86::types::{Limit, Linear32};

verus! {

/// The low 16 bits of a register.
pub open spec fn lo16(x: u32) -> u16 {
    (x % 0x1_0000) as u16
}

/// The low byte of a register.
pub open spec fn lo8(x: u32) -> u8 {
    (x % 0x100) as u8
}

/// The second byte of a register.
pub open spec fn hi8(x: u32) -> u8 {
    ((x / 0x100) % 0x100) as u8
}

/// The register with its low 16 bits replaced by `v`.
pub open spec fn set_lo16(x: u32, v: u16) -> u32 {
    (x - x % 0x1_0000 + v) as u32
}

/// The register with its low byte replaced by `v`.
pub open spec fn set_lo8(x: u32, v: u8) -> u32 {
    (x - x % 0x100 + v) as u32
}

/// The register with its second byte replaced by `v`.
pub open spec fn set_hi8(x: u32, v: u8) -> u32 {
    (x - hi8(x) * 0x100 + v * 0x100) as u32
}

pub proof fn lemma_partial_writes(x: u32, w: u32, b: u32)
    requires
        w < 0x1_0000,
        b < 0x100,
    ensures
        (x & 0xffff_0000) | w == x - x % 0x1_0000 + w,
        (x & 0xffff_ff00) | b == x - x % 0x100 + b,
        (x & 0xffff_00ff) | (b << 8u32) == x - ((x / 0x100) % 0x100) * 0x100 + b * 0x100,
        x & 0xffff == x % 0x1_0000,
        x & 0xff == x % 0x100,
        (x >> 8u32) & 0xff == (x / 0x100) % 0x100,
{
    assert(
        ((x & 0xffff_0000) | w == x - x % 0x1_0000 + w) &&
        ((x & 0xffff_ff00) | b == x - x % 0x100 + b) &&
        ((x & 0xffff_00ff) | (b << 8u32) == x - ((x / 0x100) % 0x100) * 0x100 + b * 0x100) &&
        (x & 0xffff == x % 0x1_0000) &&
        (x & 0xff == x % 0x100) &&
        ((x >> 8u32) & 0xff == (x / 0x100) % 0x100)
    ) by (bit_vector)
        requires
            w < 0x1_0000,
            b < 0x100,
    ;
}

/// General Purpose Register
#[derive(Clone, Copy)]
pub struct GeneralPurposeRegister {
    pub value: u32,
}

/// The 32-bit view of a register.
pub struct Gpr32<'a>(pub &'a mut u32);

/// The low 16 bits of a register.
pub struct Gpr16<'a>(pub &'a mut u32);

/// A byte of a register: the low byte, or the second one when `high`.
pub struct Gpr8<'a> {
    pub reg: &'a mut u32,
    pub high: bool,
}

impl GeneralPurposeRegister {
    pub fn new(value: u32) -> (r: Self)
        ensures
            r.value == value,
    {
        GeneralPurposeRegister { value }
    }

    /// Returns a reference to a 32-bit partial register.
    pub fn e(&mut self) -> (r: Gpr32<'_>)
        ensures
            *r.0 == old(self).value,
            final(self).value == *final(r.0),
    {
        Gpr32(&mut self.value)
    }

    /// Returns a reference to a 16-bit partial register.
    ///
    /// Alias for `x()`
    pub fn w(&mut self) -> (r: Gpr16<'_>)
        ensures
            *r.0 == old(self).value,
            final(self).value == *final(r.0),
    {
        self.x()
    }

    /// Returns a reference to a 16-bit partial register.
    ///
    /// Alias for `w()`
    pub fn x(&mut self) -> (r: Gpr16<'_>)
        ensures
            *r.0 == old(self).value,
            final(self).value == *final(r.0),
    {
        Gpr16(&mut self.value)
    }

    /// Returns a reference to the lower 8-bit partial register.
    ///
    /// Alias for `l()`
    pub fn b(&mut self) -> (r: Gpr8<'_>)
        ensures
            *r.reg == old(self).value,
            !r.high,
            final(self).value == *final(r.reg),
    {
        self.l()
    }

    /// Returns a reference to the lower 8-bit partial register.
    ///
    /// Alias for `b()`
    pub fn l(&mut self) -> (r: Gpr8<'_>)
        ensures
            *r.reg == old(self).value,
            !r.high,
            final(self).value == *final(r.reg),
    {
        Gpr8 { reg: &mut self.value, high: false }
    }

    /// Returns a reference to the higher 8-bit partial register.
    pub fn h(&mut self) -> (r: Gpr8<'_>)
        ensures
            *r.reg == old(self).value,
            r.high,
            final(self).value == *final(r.reg),
    {
        Gpr8 { reg: &mut self.value, high: true }
    }
}

/// Partial Register
pub trait PartialRegister {
    type ValType;

    fn read(&self) -> Self::ValType;

    fn write(self, value: Self::ValType);
}

impl<'a> PartialRegister for Gpr32<'a> {
    type ValType = u32;

    fn read(&self) -> (r: u32)
        ensures
            r == *old(self.0),
    {
        *self.0
    }

    fn write(self, value: u32)
        ensures
            *final(self.0) == value,
    {
        *self.0 = value;
    }
}

impl<'a> Gpr32<'a> {
    /// Replaces the value by `f` of it and returns the new value.
    pub fn modify<F: FnOnce(u32) -> u32>(self, f: F) -> (r: u32)
        requires
            f.requires((*old(self.0),)),
        ensures
            f.ensures((*old(self.0),), r),
            *final(self.0) == r,
    {
        let value = f(*self.0);
        *self.0 = value;
        value
    }
}

impl<'a> PartialRegister for Gpr16<'a> {
    type ValType = u16;

    fn read(&self) -> (r: u16)
        ensures
            r == lo16(*old(self.0)),
    {
        proof {
            lemma_partial_writes(*self.0, 0, 0);
        }
        (*self.0 & 0xffff) as u16
    }

    fn write(self, value: u16)
        ensures
            *final(self.0) == set_lo16(*old(self.0), value),
    {
        proof {
            lemma_partial_writes(*self.0, value as u32, 0);
        }
        *self.0 = (*self.0 & 0xffff_0000) | (value as u32);
    }
}

impl<'a> Gpr16<'a> {
    /// Replaces the value by `f` of it and returns the new value.
    pub fn modify<F: FnOnce(u16) -> u16>(self, f: F) -> (r: u16)
        requires
            f.requires((lo16(*old(self.0)),)),
        ensures
            f.ensures((lo16(*old(self.0)),), r),
            *final(self.0) == set_lo16(*old(self.0), r),
    {
        let old = self.read();
        let value = f(old);
        self.write(value);
        value
    }
}

impl<'a> Gpr8<'a> {
    /// The byte that the view reads.
    pub open spec fn spec_read(&self) -> u8 {
        if self.high {
            hi8(*self.reg)
        } else {
            lo8(*self.reg)
        }
    }

    /// The register after the byte is replaced by `v`.
    pub open spec fn spec_written(&self, v: u8) -> u32 {
        if self.high {
            set_hi8(*self.reg, v)
        } else {
            set_lo8(*self.reg, v)
        }
    }

    /// Replaces the value by `f` of it and returns the new value.
    pub fn modify<F: FnOnce(u8) -> u8>(self, f: F) -> (r: u8)
        requires
            f.requires((self.spec_read(),)),
        ensures
            f.ensures((self.spec_read(),), r),
            *final(self.reg) == self.spec_written(r),
    {
        let old = self.read();
        let value = f(old);
        self.write(value);
        value
    }
}

impl<'a> PartialRegister for Gpr8<'a> {
    type ValType = u8;

    fn read(&self) -> (r: u8)
        ensures
            r == self.spec_read(),
    {
        proof {
            lemma_partial_writes(*self.reg, 0, 0);
        }
        if self.high {
            ((*self.reg >> 8) & 0xff) as u8
        } else {
            (*self.reg & 0xff) as u8
        }
    }

    fn write(self, value: u8)
        ensures
            *final(self.reg) == self.spec_written(value),
    {
        proof {
            lemma_partial_writes(*self.reg, 0, value as u32);
        }
        if self.high {
            *self.reg = (*self.reg & 0xffff_00ff) | ((value as u32) << 8);
        } else {
            *self.reg = (*self.reg & 0xffff_ff00) | (value as u32);
        }
    }
}

/// Partial registers overlap as on x86: a 16-bit write leaves the high 16 bits,
/// a byte write leaves the other bytes, and each view reads back what it wrote.
pub proof fn lemma_partial_register_views(x: u32, w: u16, b: u8)
    ensures
        lo16(set_lo16(x, w)) == w,
        set_lo16(x, w) / 0x1_0000 == x / 0x1_0000,
        lo8(set_lo16(x, w)) == w % 0x100,
        hi8(set_lo16(x, w)) == w / 0x100,
        lo8(set_lo8(x, b)) == b,
        hi8(set_lo8(x, b)) == hi8(x),
        set_lo8(x, b) / 0x1_0000 == x / 0x1_0000,
        hi8(set_hi8(x, b)) == b,
        lo8(set_hi8(x, b)) == lo8(x),
        set_hi8(x, b) / 0x1_0000 == x / 0x1_0000,
{
    assert(
        (lo16(set_lo16(x, w)) == w) &&
        (set_lo16(x, w) / 0x1_0000 == x / 0x1_0000) &&
        (lo8(set_lo16(x, w)) == w % 0x100) &&
        (hi8(set_lo16(x, w)) == w / 0x100) &&
        (lo8(set_lo8(x, b)) == b) &&
        (hi8(set_lo8(x, b)) == hi8(x)) &&
        (set_lo8(x, b) / 0x1_0000 == x / 0x1_0000) &&
        (hi8(set_hi8(x, b)) == b) &&
        (lo8(set_hi8(x, b)) == lo8(x)) &&
        (set_hi8(x, b) / 0x1_0000 == x / 0x1_0000)
    ) by (bit_vector);
}

/// Segment Register
#[derive(Debug, Clone, Copy, PartialEq, Eq, Structural)]
pub struct SegmentRegister {
    pub sel: SegmentSelector,
    pub base: Linear32,
    pub limit: Limit,
    pub ar: u16,
}

impl SegmentRegister {
    /// Loads a real-mode selector: the base is the selector times 16.
    pub fn load_rm(&mut self, sel: SegmentSelector)
        ensures
            *final(self) == (SegmentRegister {
                sel,
                base: Linear32((sel.0 * 16) as u32),
                ..*old(self)
            }),
    {
        self.sel = sel;
        self.base = Linear32(sel.0 as u32 * 16);
    }

    /// Initializes the register as a real-mode data segment.
    pub fn init_data_rm(&mut self)
        ensures
            *final(self) == (SegmentRegister {
                sel: SegmentSelector(0),
                base: Linear32(0),
                limit: Limit(0xffff),
                ar: 0x92,
            }),
    {
        self.sel = SegmentSelector(0);
        self.base = Linear32(0);
        self.limit = Limit(0xffff);
        self.ar = 0x92;
    }

    /// Initializes the register as the real-mode code segment after reset.
    pub fn init_code_rm(&mut self)
        ensures
            *final(self) == (SegmentRegister {
                sel: SegmentSelector(0xf000),
                base: Linear32(0xffff_0000),
                limit: Limit(0xffff),
                ar: 0x9a,
            }),
    {
        self.sel = SegmentSelector(0xf000);
        self.base = Linear32(0xffff_0000);
        self.limit = Limit(0xffff);
        self.ar = 0x9a;
    }

    /// The linear address of a 16-bit offset in the segment.
    pub fn ea16(&self, offset: Offset16) -> (r: Linear32)
        ensures
            r.0 == (self.base.0 + offset.0) % 0x1_0000_0000,
    {
        Linear32(self.base.0.wrapping_add(offset.0 as u32))
    }

    /// The linear address of a 32-bit offset in the segment.
    pub fn ea32(&self, offset: Offset32) -> (r: Linear32)
        ensures
            r.0 == (self.base.0 + offset.0) % 0x1_0000_0000,
    {
        Linear32(self.base.0.wrapping_add(offset.0))
    }
}

} // verus!
