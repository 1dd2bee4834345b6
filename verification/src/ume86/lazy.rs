//! Lazily computed arithmetic flags.
//!
//! An ALU operation records its operands as a `LazyOp`; the flags that it
//! affects are computed from them only when they are read.

use vstd::prelude::*;
use crate::ume86::flags::{Flags, FlagsRegister, has_bits, with_bits};

verus! {

/// The last flag-setting operation and its operands.
#[derive(Debug, Clone, Copy, PartialEq, Eq, Structural)]
pub enum LazyOp {
    And8(u8, u8),
    And16(u16, u16),
    And32(u32, u32),
    Or8(u8, u8),
    Or16(u16, u16),
    Or32(u32, u32),
    Xor8(u8, u8),
    Xor16(u16, u16),
    Xor32(u32, u32),
    Add8(u8, u8),
    Add16(u16, u16),
    Add32(u32, u32),
    Adc8(u8, u8, bool),
    Adc16(u16, u16, bool),
    Adc32(u32, u32, bool),
    Inc8(u8),
    Inc16(u16),
    Inc32(u32),
    Sub8(u8, u8),
    Sub16(u16, u16),
    Sub32(u32, u32),
    Sbb8(u8, u8, bool),
    Sbb16(u16, u16, bool),
    Sbb32(u32, u32, bool),
    Dec8(u8),
    Dec16(u16),
    Dec32(u32),
    Mul8(u8, u8),
    Mul16(u16, u16),
    Mul32(u32, u32),
    IMul8(i8, i8),
    IMul16(i16, i16),
    IMul32(i32, i32),
    Shl8(u8, u8),
    Shl16(u16, u8),
    Shl32(u32, u8),
    Shr8(u8, u8),
    Shr16(u16, u8),
    Shr32(u32, u8),
    Sar8(i8, u8),
    Sar16(i16, u8),
    Sar32(i32, u8),
}

impl Default for LazyOp {
    fn default() -> (r: Self)
        ensures
            r == LazyOp::And8(0, 0),
    {
        LazyOp::And8(0, 0)
    }
}

/// The value of an 8-bit two's complement number.
pub open spec fn signed8(x: int) -> int {
    if x >= 0x80 { x - 0x100 } else { x }
}

/// The value of a 16-bit two's complement number.
pub open spec fn signed16(x: int) -> int {
    if x >= 0x8000 { x - 0x1_0000 } else { x }
}

/// The value of a 32-bit two's complement number.
pub open spec fn signed32(x: int) -> int {
    if x >= 0x8000_0000 { x - 0x1_0000_0000 } else { x }
}

/// Whether a byte has an even number of set bits: the exclusive or of its bits is 0.
pub open spec fn spec_parity_even(x: u8) -> bool {
    ((x ^ (x >> 1u8) ^ (x >> 2u8) ^ (x >> 3u8) ^ (x >> 4u8) ^ (x >> 5u8) ^ (x >> 6u8) ^ (x >> 7u8)) & 1) == 0
}

/// Whether `x` has an even number of set bits.
pub fn parity_even(x: u8) -> (r: bool)
    ensures
        r == spec_parity_even(x),
{
    let p = x ^ (x >> 4u8);
    let p = p ^ (p >> 2u8);
    let p = p ^ (p >> 1u8);
    assert((p & 1) == ((x ^ (x >> 1u8) ^ (x >> 2u8) ^ (x >> 3u8) ^ (x >> 4u8) ^ (x >> 5u8) ^ (x >> 6u8) ^ (x >> 7u8)) & 1)) by (bit_vector)
        requires
            p == (x ^ (x >> 4u8)) ^ ((x ^ (x >> 4u8)) >> 2u8) ^ (((x ^ (x >> 4u8)) ^ ((x ^ (x >> 4u8)) >> 2u8)) >> 1u8),
    ;
    (p & 1) == 0
}

/// Two's complement reading of unsigned values, as the casts compute it.
pub proof fn lemma_signed_casts(x8: u8, x16: u16, x32: u32)
    ensures
        (x8 as i8) as int == signed8(x8 as int),
        (x16 as i16) as int == signed16(x16 as int),
        (x32 as i32) as int == signed32(x32 as int),
{
    assert(
        ((x8 as i8) as int == (if x8 >= 0x80 { x8 - 0x100 } else { x8 as int })) &&
        ((x16 as i16) as int == (if x16 >= 0x8000 { x16 - 0x1_0000 } else { x16 as int })) &&
        ((x32 as i32) as int == (if x32 >= 0x8000_0000 { x32 - 0x1_0000_0000 } else { x32 as int }))
    ) by (bit_vector);
}

/// Setting bits makes them set, and keeps every bit that was set.
pub proof fn lemma_or_bits(v: u32, m: u32)
    ensures
        (v | m) & m == m,
        (v | m) & 1 == 1 <== m & 1 == 1,
        (v | m) & 1 == 1 <== v & 1 == 1,
        (v | 0x801u32) & 1 == 1,
        0x41u32 & 1 == 1,
{
    assert(((v | 0x801u32) & 1 == 1) && (0x41u32 & 1 == 1) && ((v | m) & m == m) && (m & 1 == 1 ==> (v | m) & 1 == 1) && (v & 1 == 1 ==> (v | m) & 1 == 1)) by (bit_vector);
}

/// Once every flag is resolved, CF is valid.
pub proof fn lemma_resolved_all_cf_valid(op: LazyOp, f: FlagsRegister)
    ensures
        has_bits(op.resolved_all(f).valid_mask.0, 1),
{
    lemma_or_bits(f.valid_mask.0, 1);
    lemma_or_bits(f.valid_mask.0, 0x801);
    let f1 = op.resolved_cf(f);
    lemma_or_bits(f1.valid_mask.0, 0x4);
    let f2 = op.resolved_pf(f1);
    lemma_or_bits(f2.valid_mask.0, 0x10);
    let f3 = op.resolved_af(f2);
    lemma_or_bits(f3.valid_mask.0, 0x80);
    let f4 = op.resolved_sf(f3);
    lemma_or_bits(f4.valid_mask.0, 0x800);
    lemma_or_bits(op.resolved_cf(f4).valid_mask.0, 0x800);
}

/// Masking twice with the same mask changes nothing.
pub proof fn lemma_mask_twice(x: u32, m: u32)
    ensures
        (x & m) & m == x & m,
{
    assert((x & m) & m == x & m) by (bit_vector);
}

/// The flag register with the bits of `mask` set to `v` and marked valid.
pub open spec fn set_flag(f: FlagsRegister, mask: u32, v: bool) -> FlagsRegister {
    FlagsRegister {
        dynamic_value: Flags(with_bits(f.dynamic_value.0, mask, v)),
        valid_mask: Flags(f.valid_mask.0 | mask),
        ..f
    }
}

impl LazyOp {
    /// Whether the operation is an unsigned or signed multiplication.
    pub open spec fn is_mul(self) -> bool {
        match self { LazyOp::Mul8(_, _) | LazyOp::Mul16(_, _) | LazyOp::Mul32(_, _) | LazyOp::IMul8(_, _) | LazyOp::IMul16(_, _) | LazyOp::IMul32(_, _) => true, _ => false }
    }

    /// Whether the operation is a shift.
    pub open spec fn is_shift(self) -> bool {
        match self { LazyOp::Shl8(_, _) | LazyOp::Shl16(_, _) | LazyOp::Shl32(_, _) | LazyOp::Shr8(_, _) | LazyOp::Shr16(_, _) | LazyOp::Shr32(_, _) | LazyOp::Sar8(_, _) | LazyOp::Sar16(_, _) | LazyOp::Sar32(_, _) => true, _ => false }
    }

    /// Whether the operation is an increment or a decrement, which leave CF alone.
    pub open spec fn is_inc_dec(self) -> bool {
        match self { LazyOp::Inc8(_) | LazyOp::Inc16(_) | LazyOp::Inc32(_) | LazyOp::Dec8(_) | LazyOp::Dec16(_) | LazyOp::Dec32(_) => true, _ => false }
    }

    /// Whether the operation is a right shift by zero, whose carry is not defined.
    pub open spec fn is_zero_right_shift(self) -> bool {
        match self {
            LazyOp::Shr8(_, b) => b == 0,
            LazyOp::Shr16(_, b) => b == 0,
            LazyOp::Shr32(_, b) => b == 0,
            LazyOp::Sar8(_, b) => b == 0,
            LazyOp::Sar16(_, b) => b == 0,
            LazyOp::Sar32(_, b) => b == 0,
            _ => false,
        }
    }

    /// Whether CF can be computed: it is already valid, or the operation defines it.
    pub open spec fn cf_computable(self, valid: u32) -> bool {
        has_bits(valid, 1) || (!self.is_inc_dec() && !self.is_zero_right_shift())
    }

    /// The carry of the operation.
    pub open spec fn spec_cf(self) -> bool {
        match self {
            LazyOp::And8(_, _) => false,
            LazyOp::And16(_, _) => false,
            LazyOp::And32(_, _) => false,
            LazyOp::Or8(_, _) => false,
            LazyOp::Or16(_, _) => false,
            LazyOp::Or32(_, _) => false,
            LazyOp::Xor8(_, _) => false,
            LazyOp::Xor16(_, _) => false,
            LazyOp::Xor32(_, _) => false,
            LazyOp::Add8(a, b) => a + b > 0xff,
            LazyOp::Add16(a, b) => a + b > 0xffff,
            LazyOp::Add32(a, b) => a + b > 0xffff_ffff,
            LazyOp::Adc8(a, b, c) => a + b + (if c { 1int } else { 0int }) > 0xff,
            LazyOp::Adc16(a, b, c) => a + b + (if c { 1int } else { 0int }) > 0xffff,
            LazyOp::Adc32(a, b, c) => a + b + (if c { 1int } else { 0int }) > 0xffff_ffff,
            LazyOp::Inc8(_) => false,
            LazyOp::Inc16(_) => false,
            LazyOp::Inc32(_) => false,
            LazyOp::Sub8(a, b) => a < b,
            LazyOp::Sub16(a, b) => a < b,
            LazyOp::Sub32(a, b) => a < b,
            LazyOp::Sbb8(a, b, c) => a - b - (if c { 1int } else { 0int }) < 0,
            LazyOp::Sbb16(a, b, c) => a - b - (if c { 1int } else { 0int }) < 0,
            LazyOp::Sbb32(a, b, c) => a - b - (if c { 1int } else { 0int }) < 0,
            LazyOp::Dec8(_) => false,
            LazyOp::Dec16(_) => false,
            LazyOp::Dec32(_) => false,
            LazyOp::Mul8(a, b) => a * b > 0xff,
            LazyOp::Mul16(a, b) => a * b > 0xffff,
            LazyOp::Mul32(a, b) => a * b > 0xffff_ffff,
            LazyOp::IMul8(a, b) => a * b > 0x7f || a * b < -0x80,
            LazyOp::IMul16(a, b) => a * b > 0x7fff || a * b < -0x8000,
            LazyOp::IMul32(a, b) => a * b > 0x7fff_ffff || a * b < -0x8000_0000,
            LazyOp::Shl8(a, b) => (a as u16).wrapping_shl(b as u32) & 0x100 != 0,
            LazyOp::Shl16(a, b) => (a as u32).wrapping_shl(b as u32) & 0x1_0000 != 0,
            LazyOp::Shl32(a, b) => (a as u64).wrapping_shl(b as u32) & 0x1_0000_0000 != 0,
            LazyOp::Shr8(a, b) => a.wrapping_shr((b - 1) as u32) & 1 != 0,
            LazyOp::Shr16(a, b) => a.wrapping_shr((b - 1) as u32) & 1 != 0,
            LazyOp::Shr32(a, b) => a.wrapping_shr((b - 1) as u32) & 1 != 0,
            LazyOp::Sar8(a, b) => a.wrapping_shr((b - 1) as u32) & 1 != 0,
            LazyOp::Sar16(a, b) => a.wrapping_shr((b - 1) as u32) & 1 != 0,
            LazyOp::Sar32(a, b) => a.wrapping_shr((b - 1) as u32) & 1 != 0,
        }
    }

    /// The carry as CF reads after the operation: the valid flag, or the computed carry.
    pub open spec fn current_cf(self, dynamic: u32, valid: u32) -> bool {
        if has_bits(valid, 1) {
            has_bits(dynamic, 1)
        } else {
            self.spec_cf()
        }
    }

    /// The auxiliary carry (carry out of bit 3), where the operation defines it.
    pub open spec fn spec_af(self) -> Option<bool> {
        match self {
            LazyOp::Add8(a, b) => Some(a % 16 + b % 16 > 15),
            LazyOp::Add16(a, b) => Some(a % 16 + b % 16 > 15),
            LazyOp::Add32(a, b) => Some(a % 16 + b % 16 > 15),
            LazyOp::Adc8(a, b, c) => Some(a % 16 + b % 16 + (if c { 1int } else { 0int }) > 15),
            LazyOp::Adc16(a, b, c) => Some(a % 16 + b % 16 + (if c { 1int } else { 0int }) > 15),
            LazyOp::Adc32(a, b, c) => Some(a % 16 + b % 16 + (if c { 1int } else { 0int }) > 15),
            LazyOp::Inc8(a) => Some(a % 16 == 15),
            LazyOp::Inc16(a) => Some(a % 16 == 15),
            LazyOp::Inc32(a) => Some(a % 16 == 15),
            LazyOp::Sub8(a, b) => Some(a % 16 < b % 16),
            LazyOp::Sub16(a, b) => Some(a % 16 < b % 16),
            LazyOp::Sub32(a, b) => Some(a % 16 < b % 16),
            LazyOp::Sbb8(a, b, c) => Some(a % 16 < b % 16 + (if c { 1int } else { 0int })),
            LazyOp::Sbb16(a, b, c) => Some(a % 16 < b % 16 + (if c { 1int } else { 0int })),
            LazyOp::Sbb32(a, b, c) => Some(a % 16 < b % 16 + (if c { 1int } else { 0int })),
            LazyOp::Dec8(a) => Some(a % 16 == 0),
            LazyOp::Dec16(a) => Some(a % 16 == 0),
            LazyOp::Dec32(a) => Some(a % 16 == 0),
            _ => None,
        }
    }

    /// The low byte of the result, whose parity PF reads, where the operation defines it.
    pub open spec fn spec_pf_byte(self) -> Option<u8> {
        match self {
            LazyOp::And8(a, b) => Some((a & b) as u8),
            LazyOp::And16(a, b) => Some((a & b) as u8),
            LazyOp::And32(a, b) => Some((a & b) as u8),
            LazyOp::Or8(a, b) => Some((a | b) as u8),
            LazyOp::Or16(a, b) => Some((a | b) as u8),
            LazyOp::Or32(a, b) => Some((a | b) as u8),
            LazyOp::Xor8(a, b) => Some((a ^ b) as u8),
            LazyOp::Xor16(a, b) => Some((a ^ b) as u8),
            LazyOp::Xor32(a, b) => Some((a ^ b) as u8),
            LazyOp::Add8(a, b) => Some((a.wrapping_add(b)) as u8),
            LazyOp::Add16(a, b) => Some((a.wrapping_add(b)) as u8),
            LazyOp::Add32(a, b) => Some((a.wrapping_add(b)) as u8),
            LazyOp::Adc8(a, b, c) => Some((a.wrapping_add(b).wrapping_add((if c { 1u8 } else { 0u8 }))) as u8),
            LazyOp::Adc16(a, b, c) => Some((a.wrapping_add(b).wrapping_add((if c { 1u16 } else { 0u16 }))) as u8),
            LazyOp::Adc32(a, b, c) => Some((a.wrapping_add(b).wrapping_add((if c { 1u32 } else { 0u32 }))) as u8),
            LazyOp::Inc8(a) => Some((a.wrapping_add(1)) as u8),
            LazyOp::Inc16(a) => Some((a.wrapping_add(1)) as u8),
            LazyOp::Inc32(a) => Some((a.wrapping_add(1)) as u8),
            LazyOp::Sub8(a, b) => Some((a.wrapping_sub(b)) as u8),
            LazyOp::Sub16(a, b) => Some((a.wrapping_sub(b)) as u8),
            LazyOp::Sub32(a, b) => Some((a.wrapping_sub(b)) as u8),
            LazyOp::Sbb8(a, b, c) => Some((a.wrapping_sub(b).wrapping_sub((if c { 1u8 } else { 0u8 }))) as u8),
            LazyOp::Sbb16(a, b, c) => Some((a.wrapping_sub(b).wrapping_sub((if c { 1u16 } else { 0u16 }))) as u8),
            LazyOp::Sbb32(a, b, c) => Some((a.wrapping_sub(b).wrapping_sub((if c { 1u32 } else { 0u32 }))) as u8),
            LazyOp::Dec8(a) => Some((a.wrapping_sub(1)) as u8),
            LazyOp::Dec16(a) => Some((a.wrapping_sub(1)) as u8),
            LazyOp::Dec32(a) => Some((a.wrapping_sub(1)) as u8),
            LazyOp::Shl8(a, b) => Some((a.wrapping_shl(b as u32)) as u8),
            LazyOp::Shl16(a, b) => Some((a.wrapping_shl(b as u32)) as u8),
            LazyOp::Shl32(a, b) => Some((a.wrapping_shl(b as u32)) as u8),
            LazyOp::Shr8(a, b) => Some((a.wrapping_shr(b as u32)) as u8),
            LazyOp::Shr16(a, b) => Some((a.wrapping_shr(b as u32)) as u8),
            LazyOp::Shr32(a, b) => Some((a.wrapping_shr(b as u32)) as u8),
            LazyOp::Sar8(a, b) => Some((a.wrapping_shr(b as u32)) as u8),
            LazyOp::Sar16(a, b) => Some((a.wrapping_shr(b as u32)) as u8),
            LazyOp::Sar32(a, b) => Some((a.wrapping_shr(b as u32)) as u8),
            _ => None,
        }
    }

    /// Whether the result is zero, where the operation defines it.
    pub open spec fn spec_zf(self) -> Option<bool> {
        match self {
            LazyOp::And8(a, b) => Some((a & b) == 0),
            LazyOp::And16(a, b) => Some((a & b) == 0),
            LazyOp::And32(a, b) => Some((a & b) == 0),
            LazyOp::Or8(a, b) => Some((a | b) == 0),
            LazyOp::Or16(a, b) => Some((a | b) == 0),
            LazyOp::Or32(a, b) => Some((a | b) == 0),
            LazyOp::Xor8(a, b) => Some((a ^ b) == 0),
            LazyOp::Xor16(a, b) => Some((a ^ b) == 0),
            LazyOp::Xor32(a, b) => Some((a ^ b) == 0),
            LazyOp::Add8(a, b) => Some((a.wrapping_add(b)) == 0),
            LazyOp::Add16(a, b) => Some((a.wrapping_add(b)) == 0),
            LazyOp::Add32(a, b) => Some((a.wrapping_add(b)) == 0),
            LazyOp::Adc8(a, b, c) => Some((a.wrapping_add(b).wrapping_add((if c { 1u8 } else { 0u8 }))) == 0),
            LazyOp::Adc16(a, b, c) => Some((a.wrapping_add(b).wrapping_add((if c { 1u16 } else { 0u16 }))) == 0),
            LazyOp::Adc32(a, b, c) => Some((a.wrapping_add(b).wrapping_add((if c { 1u32 } else { 0u32 }))) == 0),
            LazyOp::Inc8(a) => Some((a.wrapping_add(1)) == 0),
            LazyOp::Inc16(a) => Some((a.wrapping_add(1)) == 0),
            LazyOp::Inc32(a) => Some((a.wrapping_add(1)) == 0),
            LazyOp::Sub8(a, b) => Some((a.wrapping_sub(b)) == 0),
            LazyOp::Sub16(a, b) => Some((a.wrapping_sub(b)) == 0),
            LazyOp::Sub32(a, b) => Some((a.wrapping_sub(b)) == 0),
            LazyOp::Sbb8(a, b, c) => Some((a.wrapping_sub(b).wrapping_sub((if c { 1u8 } else { 0u8 }))) == 0),
            LazyOp::Sbb16(a, b, c) => Some((a.wrapping_sub(b).wrapping_sub((if c { 1u16 } else { 0u16 }))) == 0),
            LazyOp::Sbb32(a, b, c) => Some((a.wrapping_sub(b).wrapping_sub((if c { 1u32 } else { 0u32 }))) == 0),
            LazyOp::Dec8(a) => Some((a.wrapping_sub(1)) == 0),
            LazyOp::Dec16(a) => Some((a.wrapping_sub(1)) == 0),
            LazyOp::Dec32(a) => Some((a.wrapping_sub(1)) == 0),
            LazyOp::Shl8(a, b) => Some((a.wrapping_shl(b as u32)) == 0),
            LazyOp::Shl16(a, b) => Some((a.wrapping_shl(b as u32)) == 0),
            LazyOp::Shl32(a, b) => Some((a.wrapping_shl(b as u32)) == 0),
            LazyOp::Shr8(a, b) => Some((a.wrapping_shr(b as u32)) == 0),
            LazyOp::Shr16(a, b) => Some((a.wrapping_shr(b as u32)) == 0),
            LazyOp::Shr32(a, b) => Some((a.wrapping_shr(b as u32)) == 0),
            LazyOp::Sar8(a, b) => Some((a.wrapping_shr(b as u32)) == 0),
            LazyOp::Sar16(a, b) => Some((a.wrapping_shr(b as u32)) == 0),
            LazyOp::Sar32(a, b) => Some((a.wrapping_shr(b as u32)) == 0),
            _ => None,
        }
    }

    /// Whether the result is negative (its top bit is set), where the operation defines it.
    pub open spec fn spec_sf(self) -> Option<bool> {
        match self {
            LazyOp::And8(a, b) => Some((a & b) >= 0x80),
            LazyOp::And16(a, b) => Some((a & b) >= 0x8000),
            LazyOp::And32(a, b) => Some((a & b) >= 0x8000_0000),
            LazyOp::Or8(a, b) => Some((a | b) >= 0x80),
            LazyOp::Or16(a, b) => Some((a | b) >= 0x8000),
            LazyOp::Or32(a, b) => Some((a | b) >= 0x8000_0000),
            LazyOp::Xor8(a, b) => Some((a ^ b) >= 0x80),
            LazyOp::Xor16(a, b) => Some((a ^ b) >= 0x8000),
            LazyOp::Xor32(a, b) => Some((a ^ b) >= 0x8000_0000),
            LazyOp::Add8(a, b) => Some((a.wrapping_add(b)) >= 0x80),
            LazyOp::Add16(a, b) => Some((a.wrapping_add(b)) >= 0x8000),
            LazyOp::Add32(a, b) => Some((a.wrapping_add(b)) >= 0x8000_0000),
            LazyOp::Adc8(a, b, c) => Some((a.wrapping_add(b).wrapping_add((if c { 1u8 } else { 0u8 }))) >= 0x80),
            LazyOp::Adc16(a, b, c) => Some((a.wrapping_add(b).wrapping_add((if c { 1u16 } else { 0u16 }))) >= 0x8000),
            LazyOp::Adc32(a, b, c) => Some((a.wrapping_add(b).wrapping_add((if c { 1u32 } else { 0u32 }))) >= 0x8000_0000),
            LazyOp::Inc8(a) => Some((a.wrapping_add(1)) >= 0x80),
            LazyOp::Inc16(a) => Some((a.wrapping_add(1)) >= 0x8000),
            LazyOp::Inc32(a) => Some((a.wrapping_add(1)) >= 0x8000_0000),
            LazyOp::Sub8(a, b) => Some((a.wrapping_sub(b)) >= 0x80),
            LazyOp::Sub16(a, b) => Some((a.wrapping_sub(b)) >= 0x8000),
            LazyOp::Sub32(a, b) => Some((a.wrapping_sub(b)) >= 0x8000_0000),
            LazyOp::Sbb8(a, b, c) => Some((a.wrapping_sub(b).wrapping_sub((if c { 1u8 } else { 0u8 }))) >= 0x80),
            LazyOp::Sbb16(a, b, c) => Some((a.wrapping_sub(b).wrapping_sub((if c { 1u16 } else { 0u16 }))) >= 0x8000),
            LazyOp::Sbb32(a, b, c) => Some((a.wrapping_sub(b).wrapping_sub((if c { 1u32 } else { 0u32 }))) >= 0x8000_0000),
            LazyOp::Dec8(a) => Some((a.wrapping_sub(1)) >= 0x80),
            LazyOp::Dec16(a) => Some((a.wrapping_sub(1)) >= 0x8000),
            LazyOp::Dec32(a) => Some((a.wrapping_sub(1)) >= 0x8000_0000),
            LazyOp::Shl8(a, b) => Some((a.wrapping_shl(b as u32)) >= 0x80),
            LazyOp::Shl16(a, b) => Some((a.wrapping_shl(b as u32)) >= 0x8000),
            LazyOp::Shl32(a, b) => Some((a.wrapping_shl(b as u32)) >= 0x8000_0000),
            LazyOp::Shr8(a, b) => Some((a.wrapping_shr(b as u32)) >= 0x80),
            LazyOp::Shr16(a, b) => Some((a.wrapping_shr(b as u32)) >= 0x8000),
            LazyOp::Shr32(a, b) => Some((a.wrapping_shr(b as u32)) >= 0x8000_0000),
            LazyOp::Sar8(a, b) => Some((a.wrapping_shr(b as u32)) < 0),
            LazyOp::Sar16(a, b) => Some((a.wrapping_shr(b as u32)) < 0),
            LazyOp::Sar32(a, b) => Some((a.wrapping_shr(b as u32)) < 0),
            _ => None,
        }
    }

    /// The signed overflow of an operation that is neither a shift nor a multiplication.
    pub open spec fn spec_of(self) -> bool {
        match self {
            LazyOp::And8(_, _) => false,
            LazyOp::And16(_, _) => false,
            LazyOp::And32(_, _) => false,
            LazyOp::Or8(_, _) => false,
            LazyOp::Or16(_, _) => false,
            LazyOp::Or32(_, _) => false,
            LazyOp::Xor8(_, _) => false,
            LazyOp::Xor16(_, _) => false,
            LazyOp::Xor32(_, _) => false,
            LazyOp::Add8(a, b) => (signed8(a as int) + signed8(b as int) > 0x7f || signed8(a as int) + signed8(b as int) < -0x80),
            LazyOp::Add16(a, b) => (signed16(a as int) + signed16(b as int) > 0x7fff || signed16(a as int) + signed16(b as int) < -0x8000),
            LazyOp::Add32(a, b) => (signed32(a as int) + signed32(b as int) > 0x7fff_ffff || signed32(a as int) + signed32(b as int) < -0x8000_0000),
            LazyOp::Adc8(a, b, c) => (signed8(a as int) + signed8(b as int) > 0x7f || signed8(a as int) + signed8(b as int) < -0x80) || (signed8(a as int) + signed8(b as int) + (if c { 1int } else { 0int }) > 0x7f || signed8(a as int) + signed8(b as int) + (if c { 1int } else { 0int }) < -0x80),
            LazyOp::Adc16(a, b, c) => (signed16(a as int) + signed16(b as int) > 0x7fff || signed16(a as int) + signed16(b as int) < -0x8000) || (signed16(a as int) + signed16(b as int) + (if c { 1int } else { 0int }) > 0x7fff || signed16(a as int) + signed16(b as int) + (if c { 1int } else { 0int }) < -0x8000),
            LazyOp::Adc32(a, b, c) => (signed32(a as int) + signed32(b as int) > 0x7fff_ffff || signed32(a as int) + signed32(b as int) < -0x8000_0000) || (signed32(a as int) + signed32(b as int) + (if c { 1int } else { 0int }) > 0x7fff_ffff || signed32(a as int) + signed32(b as int) + (if c { 1int } else { 0int }) < -0x8000_0000),
            LazyOp::Inc8(a) => (signed8(a as int) + 1 > 0x7f || signed8(a as int) + 1 < -0x80),
            LazyOp::Inc16(a) => (signed16(a as int) + 1 > 0x7fff || signed16(a as int) + 1 < -0x8000),
            LazyOp::Inc32(a) => (signed32(a as int) + 1 > 0x7fff_ffff || signed32(a as int) + 1 < -0x8000_0000),
            LazyOp::Sub8(a, b) => (signed8(a as int) - signed8(b as int) > 0x7f || signed8(a as int) - signed8(b as int) < -0x80),
            LazyOp::Sub16(a, b) => (signed16(a as int) - signed16(b as int) > 0x7fff || signed16(a as int) - signed16(b as int) < -0x8000),
            LazyOp::Sub32(a, b) => (signed32(a as int) - signed32(b as int) > 0x7fff_ffff || signed32(a as int) - signed32(b as int) < -0x8000_0000),
            LazyOp::Sbb8(a, b, c) => (signed8(a as int) - signed8(b as int) > 0x7f || signed8(a as int) - signed8(b as int) < -0x80) || (signed8(a as int) - signed8(b as int) - (if c { 1int } else { 0int }) > 0x7f || signed8(a as int) - signed8(b as int) - (if c { 1int } else { 0int }) < -0x80),
            LazyOp::Sbb16(a, b, c) => (signed16(a as int) - signed16(b as int) > 0x7fff || signed16(a as int) - signed16(b as int) < -0x8000) || (signed16(a as int) - signed16(b as int) - (if c { 1int } else { 0int }) > 0x7fff || signed16(a as int) - signed16(b as int) - (if c { 1int } else { 0int }) < -0x8000),
            LazyOp::Sbb32(a, b, c) => (signed32(a as int) - signed32(b as int) > 0x7fff_ffff || signed32(a as int) - signed32(b as int) < -0x8000_0000) || (signed32(a as int) - signed32(b as int) - (if c { 1int } else { 0int }) > 0x7fff_ffff || signed32(a as int) - signed32(b as int) - (if c { 1int } else { 0int }) < -0x8000_0000),
            LazyOp::Dec8(a) => (signed8(a as int) - 1 > 0x7f || signed8(a as int) - 1 < -0x80),
            LazyOp::Dec16(a) => (signed16(a as int) - 1 > 0x7fff || signed16(a as int) - 1 < -0x8000),
            LazyOp::Dec32(a) => (signed32(a as int) - 1 > 0x7fff_ffff || signed32(a as int) - 1 < -0x8000_0000),
            _ => false,
        }
    }

    /// Whether the result of a shift is negative.
    pub open spec fn shift_negative(self) -> bool {
        match self {
            LazyOp::Shl8(a, b) => (a.wrapping_shl(b as u32)) >= 0x80,
            LazyOp::Shl16(a, b) => (a.wrapping_shl(b as u32)) >= 0x8000,
            LazyOp::Shl32(a, b) => (a.wrapping_shl(b as u32)) >= 0x8000_0000,
            LazyOp::Shr8(a, b) => (a.wrapping_shr(b as u32)) >= 0x80,
            LazyOp::Shr16(a, b) => (a.wrapping_shr(b as u32)) >= 0x8000,
            LazyOp::Shr32(a, b) => (a.wrapping_shr(b as u32)) >= 0x8000_0000,
            LazyOp::Sar8(a, b) => (a.wrapping_shr(b as u32)) < 0,
            LazyOp::Sar16(a, b) => (a.wrapping_shr(b as u32)) < 0,
            LazyOp::Sar32(a, b) => (a.wrapping_shr(b as u32)) < 0,
            _ => false,
        }
    }

    /// The flag register after CF (and OF, for a multiplication) is resolved.
    pub open spec fn resolved_cf(self, f: FlagsRegister) -> FlagsRegister {
        if has_bits(f.valid_mask.0, 1) {
            f
        } else if self.is_mul() {
            set_flag(f, 0x801, self.spec_cf())
        } else {
            set_flag(f, 1, self.spec_cf())
        }
    }

    /// The flag register after AF is resolved.
    pub open spec fn resolved_af(self, f: FlagsRegister) -> FlagsRegister {
        if has_bits(f.valid_mask.0, 0x10) {
            f
        } else {
            match self.spec_af() {
                Some(v) => set_flag(f, 0x10, v),
                None => f,
            }
        }
    }

    /// The flag register after PF is resolved.
    pub open spec fn resolved_pf(self, f: FlagsRegister) -> FlagsRegister {
        if has_bits(f.valid_mask.0, 0x4) {
            f
        } else {
            match self.spec_pf_byte() {
                Some(v) => set_flag(f, 0x4, spec_parity_even(v)),
                None => f,
            }
        }
    }

    /// The flag register after ZF is resolved.
    pub open spec fn resolved_zf(self, f: FlagsRegister) -> FlagsRegister {
        if has_bits(f.valid_mask.0, 0x40) {
            f
        } else {
            match self.spec_zf() {
                Some(v) => set_flag(f, 0x40, v),
                None => f,
            }
        }
    }

    /// The flag register after SF is resolved.
    pub open spec fn resolved_sf(self, f: FlagsRegister) -> FlagsRegister {
        if has_bits(f.valid_mask.0, 0x80) {
            f
        } else {
            match self.spec_sf() {
                Some(v) => set_flag(f, 0x80, v),
                None => f,
            }
        }
    }

    /// The flag register after OF is resolved. For a shift OF is whether the
    /// sign of the result differs from CF, which is resolved first.
    pub open spec fn resolved_of(self, f: FlagsRegister) -> FlagsRegister {
        if has_bits(f.valid_mask.0, 0x800) {
            f
        } else if self.is_mul() {
            self.resolved_cf(f)
        } else if self.is_shift() {
            let g = self.resolved_cf(f);
            set_flag(g, 0x800, self.shift_negative() != has_bits(g.dynamic_value.0, 1))
        } else {
            set_flag(f, 0x800, self.spec_of())
        }
    }

    /// The flag register after all lazily computed flags but ZF are resolved.
    pub open spec fn resolved_all(self, f: FlagsRegister) -> FlagsRegister {
        self.resolved_of(self.resolved_sf(self.resolved_af(self.resolved_pf(self.resolved_cf(f)))))
    }

    /// Resolves all flags affected by this operation and updates the `Flags` struct accordingly.
    pub fn resolve_all_flags(&self, flags: &mut FlagsRegister)
        requires
            self.cf_computable(old(flags).valid_mask.0),
        ensures
            *final(flags) == self.resolved_all(*old(flags)),
    {
        self.resolve_cf(flags);
        self.resolve_pf(flags);
        self.resolve_af(flags);
        self.resolve_sf(flags);
        self.resolve_of(flags);
    }

    /// Resolves the Carry Flag (CF) based on the operation and its operands.
    pub fn resolve_cf(&self, flags: &mut FlagsRegister)
        requires
            self.cf_computable(old(flags).valid_mask.0),
        ensures
            *final(flags) == self.resolved_cf(*old(flags)),
            has_bits(final(flags).valid_mask.0, 1),
    {
        if flags.valid_mask.contains(Flags(Flags::CF)) {
            return;
        }
        let cf = self.recompute_cf(flags);
        match self {
            LazyOp::Mul8(_, _) | LazyOp::Mul16(_, _) | LazyOp::Mul32(_, _) | LazyOp::IMul8(_, _) | LazyOp::IMul16(_, _) | LazyOp::IMul32(_, _) => {
                if cf {
                    flags.set(Flags(0x801));
                } else {
                    flags.clear(Flags(0x801));
                }
                proof {
                    lemma_or_bits(old(flags).valid_mask.0, 0x801);
                }
            },
            _ => {
                if cf {
                    flags.set(Flags(Flags::CF));
                } else {
                    flags.clear(Flags(Flags::CF));
                }
                proof {
                    lemma_or_bits(old(flags).valid_mask.0, 1);
                }
            },
        }
    }

    /// Computes the value of the Carry Flag (CF)
    pub fn recompute_cf(&self, flags: &mut FlagsRegister) -> (r: bool)
        requires
            self.cf_computable(old(flags).valid_mask.0),
        ensures
            *final(flags) == *old(flags),
            r == self.current_cf(old(flags).dynamic_value.0, old(flags).valid_mask.0),
    {
        if flags.valid_mask.contains(Flags(Flags::CF)) {
            return flags.dynamic_value().contains(Flags(Flags::CF));
        }
        match self {
            LazyOp::And8(_, _) => false,
            LazyOp::And16(_, _) => false,
            LazyOp::And32(_, _) => false,
            LazyOp::Or8(_, _) => false,
            LazyOp::Or16(_, _) => false,
            LazyOp::Or32(_, _) => false,
            LazyOp::Xor8(_, _) => false,
            LazyOp::Xor16(_, _) => false,
            LazyOp::Xor32(_, _) => false,
            LazyOp::Add8(a, b) => a.checked_add(*b).is_none(),
            LazyOp::Add16(a, b) => a.checked_add(*b).is_none(),
            LazyOp::Add32(a, b) => a.checked_add(*b).is_none(),
            LazyOp::Adc8(a, b, c) => match a.checked_add(*b) { Some(sum) => sum.checked_add((if *c { 1u8 } else { 0u8 })).is_none(), None => true },
            LazyOp::Adc16(a, b, c) => match a.checked_add(*b) { Some(sum) => sum.checked_add((if *c { 1u16 } else { 0u16 })).is_none(), None => true },
            LazyOp::Adc32(a, b, c) => match a.checked_add(*b) { Some(sum) => sum.checked_add((if *c { 1u32 } else { 0u32 })).is_none(), None => true },
            LazyOp::Inc8(_) => false,
            LazyOp::Inc16(_) => false,
            LazyOp::Inc32(_) => false,
            LazyOp::Sub8(a, b) => *a < *b,
            LazyOp::Sub16(a, b) => *a < *b,
            LazyOp::Sub32(a, b) => *a < *b,
            LazyOp::Sbb8(a, b, c) => match a.checked_sub(*b) { Some(diff) => diff.checked_sub((if *c { 1u8 } else { 0u8 })).is_none(), None => true },
            LazyOp::Sbb16(a, b, c) => match a.checked_sub(*b) { Some(diff) => diff.checked_sub((if *c { 1u16 } else { 0u16 })).is_none(), None => true },
            LazyOp::Sbb32(a, b, c) => match a.checked_sub(*b) { Some(diff) => diff.checked_sub((if *c { 1u32 } else { 0u32 })).is_none(), None => true },
            LazyOp::Dec8(_) => false,
            LazyOp::Dec16(_) => false,
            LazyOp::Dec32(_) => false,
            LazyOp::Mul8(a, b) => a.checked_mul(*b).is_none(),
            LazyOp::Mul16(a, b) => a.checked_mul(*b).is_none(),
            LazyOp::Mul32(a, b) => a.checked_mul(*b).is_none(),
            LazyOp::IMul8(a, b) => a.checked_mul(*b).is_none(),
            LazyOp::IMul16(a, b) => a.checked_mul(*b).is_none(),
            LazyOp::IMul32(a, b) => a.checked_mul(*b).is_none(),
            LazyOp::Shl8(a, b) => ((*a as u16).wrapping_shl(*b as u32) & 0x100) != 0,
            LazyOp::Shl16(a, b) => ((*a as u32).wrapping_shl(*b as u32) & 0x1_0000) != 0,
            LazyOp::Shl32(a, b) => ((*a as u64).wrapping_shl(*b as u32) & 0x1_0000_0000) != 0,
            LazyOp::Shr8(a, b) => (a.wrapping_shr(*b as u32 - 1) & 1) != 0,
            LazyOp::Shr16(a, b) => (a.wrapping_shr(*b as u32 - 1) & 1) != 0,
            LazyOp::Shr32(a, b) => (a.wrapping_shr(*b as u32 - 1) & 1) != 0,
            LazyOp::Sar8(a, b) => (a.wrapping_shr(*b as u32 - 1) & 1) != 0,
            LazyOp::Sar16(a, b) => (a.wrapping_shr(*b as u32 - 1) & 1) != 0,
            LazyOp::Sar32(a, b) => (a.wrapping_shr(*b as u32 - 1) & 1) != 0,
        }
    }

    /// Resolves the Auxiliary Carry Flag (AF) based on the operation and its operands.
    pub fn resolve_af(&self, flags: &mut FlagsRegister)
        ensures
            *final(flags) == self.resolved_af(*old(flags)),
            has_bits(old(flags).valid_mask.0, 1) ==> has_bits(final(flags).valid_mask.0, 1),
    {
        proof {
            lemma_or_bits(old(flags).valid_mask.0, 0x10);
        }
        if flags.valid_mask.contains(Flags(Flags::AF)) {
            return;
        }
        let result = match self {
            LazyOp::Add8(a, b) => (*a % 16) + (*b % 16) > 15,
            LazyOp::Add16(a, b) => (*a % 16) + (*b % 16) > 15,
            LazyOp::Add32(a, b) => (*a % 16) + (*b % 16) > 15,
            LazyOp::Adc8(a, b, c) => (*a % 16) + (*b % 16) + (if *c { 1u8 } else { 0u8 }) > 15,
            LazyOp::Adc16(a, b, c) => (*a % 16) + (*b % 16) + (if *c { 1u16 } else { 0u16 }) > 15,
            LazyOp::Adc32(a, b, c) => (*a % 16) + (*b % 16) + (if *c { 1u32 } else { 0u32 }) > 15,
            LazyOp::Inc8(a) => (*a % 16) == 15,
            LazyOp::Inc16(a) => (*a % 16) == 15,
            LazyOp::Inc32(a) => (*a % 16) == 15,
            LazyOp::Sub8(a, b) => (*a % 16) < (*b % 16),
            LazyOp::Sub16(a, b) => (*a % 16) < (*b % 16),
            LazyOp::Sub32(a, b) => (*a % 16) < (*b % 16),
            LazyOp::Sbb8(a, b, c) => (*a % 16) < (*b % 16) + (if *c { 1u8 } else { 0u8 }),
            LazyOp::Sbb16(a, b, c) => (*a % 16) < (*b % 16) + (if *c { 1u16 } else { 0u16 }),
            LazyOp::Sbb32(a, b, c) => (*a % 16) < (*b % 16) + (if *c { 1u32 } else { 0u32 }),
            LazyOp::Dec8(a) => (*a % 16) == 0,
            LazyOp::Dec16(a) => (*a % 16) == 0,
            LazyOp::Dec32(a) => (*a % 16) == 0,
            _ => {
                return;
            },
        };
        flags.set_dynamic(Flags(Flags::AF), result);
    }

    /// Resolves the Parity Flag (PF) based on the operation and its operands.
    pub fn resolve_pf(&self, flags: &mut FlagsRegister)
        ensures
            *final(flags) == self.resolved_pf(*old(flags)),
            has_bits(old(flags).valid_mask.0, 1) ==> has_bits(final(flags).valid_mask.0, 1),
    {
        proof {
            lemma_or_bits(old(flags).valid_mask.0, Flags::PF);
        }
        if flags.valid_mask.contains(Flags(Flags::PF)) {
            return;
        }
        let result = match self {
            LazyOp::And8(a, b) => ((*a) & (*b)) as u8,
            LazyOp::And16(a, b) => ((*a) & (*b)) as u8,
            LazyOp::And32(a, b) => ((*a) & (*b)) as u8,
            LazyOp::Or8(a, b) => ((*a) | (*b)) as u8,
            LazyOp::Or16(a, b) => ((*a) | (*b)) as u8,
            LazyOp::Or32(a, b) => ((*a) | (*b)) as u8,
            LazyOp::Xor8(a, b) => ((*a) ^ (*b)) as u8,
            LazyOp::Xor16(a, b) => ((*a) ^ (*b)) as u8,
            LazyOp::Xor32(a, b) => ((*a) ^ (*b)) as u8,
            LazyOp::Add8(a, b) => ((*a).wrapping_add((*b))) as u8,
            LazyOp::Add16(a, b) => ((*a).wrapping_add((*b))) as u8,
            LazyOp::Add32(a, b) => ((*a).wrapping_add((*b))) as u8,
            LazyOp::Adc8(a, b, c) => ((*a).wrapping_add((*b)).wrapping_add((if (*c) { 1u8 } else { 0u8 }))) as u8,
            LazyOp::Adc16(a, b, c) => ((*a).wrapping_add((*b)).wrapping_add((if (*c) { 1u16 } else { 0u16 }))) as u8,
            LazyOp::Adc32(a, b, c) => ((*a).wrapping_add((*b)).wrapping_add((if (*c) { 1u32 } else { 0u32 }))) as u8,
            LazyOp::Inc8(a) => ((*a).wrapping_add(1)) as u8,
            LazyOp::Inc16(a) => ((*a).wrapping_add(1)) as u8,
            LazyOp::Inc32(a) => ((*a).wrapping_add(1)) as u8,
            LazyOp::Sub8(a, b) => ((*a).wrapping_sub((*b))) as u8,
            LazyOp::Sub16(a, b) => ((*a).wrapping_sub((*b))) as u8,
            LazyOp::Sub32(a, b) => ((*a).wrapping_sub((*b))) as u8,
            LazyOp::Sbb8(a, b, c) => ((*a).wrapping_sub((*b)).wrapping_sub((if (*c) { 1u8 } else { 0u8 }))) as u8,
            LazyOp::Sbb16(a, b, c) => ((*a).wrapping_sub((*b)).wrapping_sub((if (*c) { 1u16 } else { 0u16 }))) as u8,
            LazyOp::Sbb32(a, b, c) => ((*a).wrapping_sub((*b)).wrapping_sub((if (*c) { 1u32 } else { 0u32 }))) as u8,
            LazyOp::Dec8(a) => ((*a).wrapping_sub(1)) as u8,
            LazyOp::Dec16(a) => ((*a).wrapping_sub(1)) as u8,
            LazyOp::Dec32(a) => ((*a).wrapping_sub(1)) as u8,
            LazyOp::Shl8(a, b) => ((*a).wrapping_shl((*b) as u32)) as u8,
            LazyOp::Shl16(a, b) => ((*a).wrapping_shl((*b) as u32)) as u8,
            LazyOp::Shl32(a, b) => ((*a).wrapping_shl((*b) as u32)) as u8,
            LazyOp::Shr8(a, b) => ((*a).wrapping_shr((*b) as u32)) as u8,
            LazyOp::Shr16(a, b) => ((*a).wrapping_shr((*b) as u32)) as u8,
            LazyOp::Shr32(a, b) => ((*a).wrapping_shr((*b) as u32)) as u8,
            LazyOp::Sar8(a, b) => ((*a).wrapping_shr((*b) as u32)) as u8,
            LazyOp::Sar16(a, b) => ((*a).wrapping_shr((*b) as u32)) as u8,
            LazyOp::Sar32(a, b) => ((*a).wrapping_shr((*b) as u32)) as u8,
            _ => {
                return;
            },
        };
        flags.set_dynamic(Flags(Flags::PF), parity_even(result));
    }

    /// Resolves the Zero Flag (ZF) based on the operation and its operands.
    fn resolve_zf(&self, flags: &mut FlagsRegister)
        ensures
            *final(flags) == self.resolved_zf(*old(flags)),
            has_bits(old(flags).valid_mask.0, 1) ==> has_bits(final(flags).valid_mask.0, 1),
    {
        proof {
            lemma_or_bits(old(flags).valid_mask.0, Flags::ZF);
        }
        if flags.valid_mask.contains(Flags(Flags::ZF)) {
            return;
        }
        let result = match self {
            LazyOp::And8(a, b) => ((*a) & (*b)) == 0,
            LazyOp::And16(a, b) => ((*a) & (*b)) == 0,
            LazyOp::And32(a, b) => ((*a) & (*b)) == 0,
            LazyOp::Or8(a, b) => ((*a) | (*b)) == 0,
            LazyOp::Or16(a, b) => ((*a) | (*b)) == 0,
            LazyOp::Or32(a, b) => ((*a) | (*b)) == 0,
            LazyOp::Xor8(a, b) => ((*a) ^ (*b)) == 0,
            LazyOp::Xor16(a, b) => ((*a) ^ (*b)) == 0,
            LazyOp::Xor32(a, b) => ((*a) ^ (*b)) == 0,
            LazyOp::Add8(a, b) => ((*a).wrapping_add((*b))) == 0,
            LazyOp::Add16(a, b) => ((*a).wrapping_add((*b))) == 0,
            LazyOp::Add32(a, b) => ((*a).wrapping_add((*b))) == 0,
            LazyOp::Adc8(a, b, c) => ((*a).wrapping_add((*b)).wrapping_add((if (*c) { 1u8 } else { 0u8 }))) == 0,
            LazyOp::Adc16(a, b, c) => ((*a).wrapping_add((*b)).wrapping_add((if (*c) { 1u16 } else { 0u16 }))) == 0,
            LazyOp::Adc32(a, b, c) => ((*a).wrapping_add((*b)).wrapping_add((if (*c) { 1u32 } else { 0u32 }))) == 0,
            LazyOp::Inc8(a) => ((*a).wrapping_add(1)) == 0,
            LazyOp::Inc16(a) => ((*a).wrapping_add(1)) == 0,
            LazyOp::Inc32(a) => ((*a).wrapping_add(1)) == 0,
            LazyOp::Sub8(a, b) => ((*a).wrapping_sub((*b))) == 0,
            LazyOp::Sub16(a, b) => ((*a).wrapping_sub((*b))) == 0,
            LazyOp::Sub32(a, b) => ((*a).wrapping_sub((*b))) == 0,
            LazyOp::Sbb8(a, b, c) => ((*a).wrapping_sub((*b)).wrapping_sub((if (*c) { 1u8 } else { 0u8 }))) == 0,
            LazyOp::Sbb16(a, b, c) => ((*a).wrapping_sub((*b)).wrapping_sub((if (*c) { 1u16 } else { 0u16 }))) == 0,
            LazyOp::Sbb32(a, b, c) => ((*a).wrapping_sub((*b)).wrapping_sub((if (*c) { 1u32 } else { 0u32 }))) == 0,
            LazyOp::Dec8(a) => ((*a).wrapping_sub(1)) == 0,
            LazyOp::Dec16(a) => ((*a).wrapping_sub(1)) == 0,
            LazyOp::Dec32(a) => ((*a).wrapping_sub(1)) == 0,
            LazyOp::Shl8(a, b) => ((*a).wrapping_shl((*b) as u32)) == 0,
            LazyOp::Shl16(a, b) => ((*a).wrapping_shl((*b) as u32)) == 0,
            LazyOp::Shl32(a, b) => ((*a).wrapping_shl((*b) as u32)) == 0,
            LazyOp::Shr8(a, b) => ((*a).wrapping_shr((*b) as u32)) == 0,
            LazyOp::Shr16(a, b) => ((*a).wrapping_shr((*b) as u32)) == 0,
            LazyOp::Shr32(a, b) => ((*a).wrapping_shr((*b) as u32)) == 0,
            LazyOp::Sar8(a, b) => ((*a).wrapping_shr((*b) as u32)) == 0,
            LazyOp::Sar16(a, b) => ((*a).wrapping_shr((*b) as u32)) == 0,
            LazyOp::Sar32(a, b) => ((*a).wrapping_shr((*b) as u32)) == 0,
            _ => {
                return;
            },
        };
        flags.set_dynamic(Flags(Flags::ZF), result);
    }

    /// Resolves the Sign Flag (SF) based on the operation and its operands.
    pub fn resolve_sf(&self, flags: &mut FlagsRegister)
        ensures
            *final(flags) == self.resolved_sf(*old(flags)),
            has_bits(old(flags).valid_mask.0, 1) ==> has_bits(final(flags).valid_mask.0, 1),
    {
        proof {
            lemma_or_bits(old(flags).valid_mask.0, Flags::SF);
        }
        if flags.valid_mask.contains(Flags(Flags::SF)) {
            return;
        }
        let result = match self {
            LazyOp::And8(a, b) => ((*a) & (*b)) >= 0x80,
            LazyOp::And16(a, b) => ((*a) & (*b)) >= 0x8000,
            LazyOp::And32(a, b) => ((*a) & (*b)) >= 0x8000_0000,
            LazyOp::Or8(a, b) => ((*a) | (*b)) >= 0x80,
            LazyOp::Or16(a, b) => ((*a) | (*b)) >= 0x8000,
            LazyOp::Or32(a, b) => ((*a) | (*b)) >= 0x8000_0000,
            LazyOp::Xor8(a, b) => ((*a) ^ (*b)) >= 0x80,
            LazyOp::Xor16(a, b) => ((*a) ^ (*b)) >= 0x8000,
            LazyOp::Xor32(a, b) => ((*a) ^ (*b)) >= 0x8000_0000,
            LazyOp::Add8(a, b) => ((*a).wrapping_add((*b))) >= 0x80,
            LazyOp::Add16(a, b) => ((*a).wrapping_add((*b))) >= 0x8000,
            LazyOp::Add32(a, b) => ((*a).wrapping_add((*b))) >= 0x8000_0000,
            LazyOp::Adc8(a, b, c) => ((*a).wrapping_add((*b)).wrapping_add((if (*c) { 1u8 } else { 0u8 }))) >= 0x80,
            LazyOp::Adc16(a, b, c) => ((*a).wrapping_add((*b)).wrapping_add((if (*c) { 1u16 } else { 0u16 }))) >= 0x8000,
            LazyOp::Adc32(a, b, c) => ((*a).wrapping_add((*b)).wrapping_add((if (*c) { 1u32 } else { 0u32 }))) >= 0x8000_0000,
            LazyOp::Inc8(a) => ((*a).wrapping_add(1)) >= 0x80,
            LazyOp::Inc16(a) => ((*a).wrapping_add(1)) >= 0x8000,
            LazyOp::Inc32(a) => ((*a).wrapping_add(1)) >= 0x8000_0000,
            LazyOp::Sub8(a, b) => ((*a).wrapping_sub((*b))) >= 0x80,
            LazyOp::Sub16(a, b) => ((*a).wrapping_sub((*b))) >= 0x8000,
            LazyOp::Sub32(a, b) => ((*a).wrapping_sub((*b))) >= 0x8000_0000,
            LazyOp::Sbb8(a, b, c) => ((*a).wrapping_sub((*b)).wrapping_sub((if (*c) { 1u8 } else { 0u8 }))) >= 0x80,
            LazyOp::Sbb16(a, b, c) => ((*a).wrapping_sub((*b)).wrapping_sub((if (*c) { 1u16 } else { 0u16 }))) >= 0x8000,
            LazyOp::Sbb32(a, b, c) => ((*a).wrapping_sub((*b)).wrapping_sub((if (*c) { 1u32 } else { 0u32 }))) >= 0x8000_0000,
            LazyOp::Dec8(a) => ((*a).wrapping_sub(1)) >= 0x80,
            LazyOp::Dec16(a) => ((*a).wrapping_sub(1)) >= 0x8000,
            LazyOp::Dec32(a) => ((*a).wrapping_sub(1)) >= 0x8000_0000,
            LazyOp::Shl8(a, b) => ((*a).wrapping_shl((*b) as u32)) >= 0x80,
            LazyOp::Shl16(a, b) => ((*a).wrapping_shl((*b) as u32)) >= 0x8000,
            LazyOp::Shl32(a, b) => ((*a).wrapping_shl((*b) as u32)) >= 0x8000_0000,
            LazyOp::Shr8(a, b) => ((*a).wrapping_shr((*b) as u32)) >= 0x80,
            LazyOp::Shr16(a, b) => ((*a).wrapping_shr((*b) as u32)) >= 0x8000,
            LazyOp::Shr32(a, b) => ((*a).wrapping_shr((*b) as u32)) >= 0x8000_0000,
            LazyOp::Sar8(a, b) => ((*a).wrapping_shr((*b) as u32)) < 0,
            LazyOp::Sar16(a, b) => ((*a).wrapping_shr((*b) as u32)) < 0,
            LazyOp::Sar32(a, b) => ((*a).wrapping_shr((*b) as u32)) < 0,
            _ => {
                return;
            },
        };
        flags.set_dynamic(Flags(Flags::SF), result);
    }

    /// Resolves the Overflow Flag (OF) based on the operation and its operands.
    pub fn resolve_of(&self, flags: &mut FlagsRegister)
        requires
            self.is_shift() ==> self.cf_computable(old(flags).valid_mask.0),
        ensures
            *final(flags) == self.resolved_of(*old(flags)),
    {
        if flags.valid_mask.contains(Flags(Flags::OF)) {
            return;
        }
        let of = match self {
            LazyOp::And8(_, _) => false,
            LazyOp::And16(_, _) => false,
            LazyOp::And32(_, _) => false,
            LazyOp::Or8(_, _) => false,
            LazyOp::Or16(_, _) => false,
            LazyOp::Or32(_, _) => false,
            LazyOp::Xor8(_, _) => false,
            LazyOp::Xor16(_, _) => false,
            LazyOp::Xor32(_, _) => false,
            LazyOp::Add8(a, b) => {
                proof { lemma_signed_casts(*a, 0, 0); lemma_signed_casts(*b, 0, 0); }
                (*a as i8).checked_add(*b as i8).is_none()
            },
            LazyOp::Add16(a, b) => {
                proof { lemma_signed_casts(0, *a, 0); lemma_signed_casts(0, *b, 0); }
                (*a as i16).checked_add(*b as i16).is_none()
            },
            LazyOp::Add32(a, b) => {
                proof { lemma_signed_casts(0, 0, *a); lemma_signed_casts(0, 0, *b); }
                (*a as i32).checked_add(*b as i32).is_none()
            },
            LazyOp::Adc8(a, b, c) => {
                proof { lemma_signed_casts(*a, 0, 0); lemma_signed_casts(*b, 0, 0); }
                match (*a as i8).checked_add(*b as i8) { Some(v) => v.checked_add((if *c { 1i8 } else { 0i8 })).is_none(), None => true }
            },
            LazyOp::Adc16(a, b, c) => {
                proof { lemma_signed_casts(0, *a, 0); lemma_signed_casts(0, *b, 0); }
                match (*a as i16).checked_add(*b as i16) { Some(v) => v.checked_add((if *c { 1i16 } else { 0i16 })).is_none(), None => true }
            },
            LazyOp::Adc32(a, b, c) => {
                proof { lemma_signed_casts(0, 0, *a); lemma_signed_casts(0, 0, *b); }
                match (*a as i32).checked_add(*b as i32) { Some(v) => v.checked_add((if *c { 1i32 } else { 0i32 })).is_none(), None => true }
            },
            LazyOp::Inc8(a) => {
                proof { lemma_signed_casts(*a, 0, 0); }
                (*a as i8).checked_add(1).is_none()
            },
            LazyOp::Inc16(a) => {
                proof { lemma_signed_casts(0, *a, 0); }
                (*a as i16).checked_add(1).is_none()
            },
            LazyOp::Inc32(a) => {
                proof { lemma_signed_casts(0, 0, *a); }
                (*a as i32).checked_add(1).is_none()
            },
            LazyOp::Sub8(a, b) => {
                proof { lemma_signed_casts(*a, 0, 0); lemma_signed_casts(*b, 0, 0); }
                (*a as i8).checked_sub(*b as i8).is_none()
            },
            LazyOp::Sub16(a, b) => {
                proof { lemma_signed_casts(0, *a, 0); lemma_signed_casts(0, *b, 0); }
                (*a as i16).checked_sub(*b as i16).is_none()
            },
            LazyOp::Sub32(a, b) => {
                proof { lemma_signed_casts(0, 0, *a); lemma_signed_casts(0, 0, *b); }
                (*a as i32).checked_sub(*b as i32).is_none()
            },
            LazyOp::Sbb8(a, b, c) => {
                proof { lemma_signed_casts(*a, 0, 0); lemma_signed_casts(*b, 0, 0); }
                match (*a as i8).checked_sub(*b as i8) { Some(v) => v.checked_sub((if *c { 1i8 } else { 0i8 })).is_none(), None => true }
            },
            LazyOp::Sbb16(a, b, c) => {
                proof { lemma_signed_casts(0, *a, 0); lemma_signed_casts(0, *b, 0); }
                match (*a as i16).checked_sub(*b as i16) { Some(v) => v.checked_sub((if *c { 1i16 } else { 0i16 })).is_none(), None => true }
            },
            LazyOp::Sbb32(a, b, c) => {
                proof { lemma_signed_casts(0, 0, *a); lemma_signed_casts(0, 0, *b); }
                match (*a as i32).checked_sub(*b as i32) { Some(v) => v.checked_sub((if *c { 1i32 } else { 0i32 })).is_none(), None => true }
            },
            LazyOp::Dec8(a) => {
                proof { lemma_signed_casts(*a, 0, 0); }
                (*a as i8).checked_sub(1).is_none()
            },
            LazyOp::Dec16(a) => {
                proof { lemma_signed_casts(0, *a, 0); }
                (*a as i16).checked_sub(1).is_none()
            },
            LazyOp::Dec32(a) => {
                proof { lemma_signed_casts(0, 0, *a); }
                (*a as i32).checked_sub(1).is_none()
            },
            LazyOp::Mul8(_, _) => {
                self.resolve_cf(flags);
                return;
            },
            LazyOp::Mul16(_, _) => {
                self.resolve_cf(flags);
                return;
            },
            LazyOp::Mul32(_, _) => {
                self.resolve_cf(flags);
                return;
            },
            LazyOp::IMul8(_, _) => {
                self.resolve_cf(flags);
                return;
            },
            LazyOp::IMul16(_, _) => {
                self.resolve_cf(flags);
                return;
            },
            LazyOp::IMul32(_, _) => {
                self.resolve_cf(flags);
                return;
            },
            LazyOp::Shl8(a, b) => {
                let negative = ((*a).wrapping_shl((*b) as u32)) >= 0x80;
                self.resolve_cf(flags);
                negative != flags.cf()
            },
            LazyOp::Shl16(a, b) => {
                let negative = ((*a).wrapping_shl((*b) as u32)) >= 0x8000;
                self.resolve_cf(flags);
                negative != flags.cf()
            },
            LazyOp::Shl32(a, b) => {
                let negative = ((*a).wrapping_shl((*b) as u32)) >= 0x8000_0000;
                self.resolve_cf(flags);
                negative != flags.cf()
            },
            LazyOp::Shr8(a, b) => {
                let negative = ((*a).wrapping_shr((*b) as u32)) >= 0x80;
                self.resolve_cf(flags);
                negative != flags.cf()
            },
            LazyOp::Shr16(a, b) => {
                let negative = ((*a).wrapping_shr((*b) as u32)) >= 0x8000;
                self.resolve_cf(flags);
                negative != flags.cf()
            },
            LazyOp::Shr32(a, b) => {
                let negative = ((*a).wrapping_shr((*b) as u32)) >= 0x8000_0000;
                self.resolve_cf(flags);
                negative != flags.cf()
            },
            LazyOp::Sar8(a, b) => {
                let negative = ((*a).wrapping_shr((*b) as u32)) < 0;
                self.resolve_cf(flags);
                negative != flags.cf()
            },
            LazyOp::Sar16(a, b) => {
                let negative = ((*a).wrapping_shr((*b) as u32)) < 0;
                self.resolve_cf(flags);
                negative != flags.cf()
            },
            LazyOp::Sar32(a, b) => {
                let negative = ((*a).wrapping_shr((*b) as u32)) < 0;
                self.resolve_cf(flags);
                negative != flags.cf()
            },
        };
        flags.set_dynamic(Flags(Flags::OF), of);
    }
}


/// Setting the flags of `mask` marks them valid, and keeps valid the flags
/// that were.
proof fn lemma_set_flag_valid(x: u32)
    ensures
        has_bits(x | 1, 1),
        has_bits(x | 0x801, 1),
        has_bits(x | 0x801, 0x800),
        has_bits(x | 0x800, 0x800),
        has_bits(x | 0x80, 0x80),
        has_bits(x | 4, 4),
        has_bits(x, 0x80) ==> has_bits(x | 1, 0x80) && has_bits(x | 0x801, 0x80) && has_bits(x | 0x800, 0x80),
        has_bits(x, 1) ==> has_bits(x | 0x800, 1),
{
    assert((x | 1) & 1 == 1 && (x | 0x801) & 1 == 1 && (x | 0x801) & 0x800 == 0x800 && (x | 0x800) & 0x800 == 0x800
        && (x | 0x80) & 0x80 == 0x80 && (x | 4) & 4 == 4
        && (x & 0x80 == 0x80 ==> (x | 1) & 0x80 == 0x80 && (x | 0x801) & 0x80 == 0x80 && (x | 0x800) & 0x80 == 0x80)
        && (x & 1 == 1 ==> (x | 0x800) & 1 == 1)) by (bit_vector);
}

/// Resolving a flag a second time changes nothing: a resolved flag is
/// marked valid, and resolving keeps the flags that were valid.
pub proof fn lemma_resolved_idempotent(op: LazyOp, f: FlagsRegister)
    ensures
        op.resolved_cf(op.resolved_cf(f)) == op.resolved_cf(f),
        op.resolved_of(op.resolved_of(f)) == op.resolved_of(f),
        op.resolved_sf(op.resolved_sf(f)) == op.resolved_sf(f),
        op.resolved_pf(op.resolved_pf(f)) == op.resolved_pf(f),
        op.resolved_sf(op.resolved_of(op.resolved_sf(f))) == op.resolved_of(op.resolved_sf(f)),
{
    lemma_set_flag_valid(f.valid_mask.0);
    let g = op.resolved_cf(f);
    lemma_set_flag_valid(g.valid_mask.0);
    let s = op.resolved_sf(f);
    lemma_set_flag_valid(s.valid_mask.0);
    let sc = op.resolved_cf(s);
    lemma_set_flag_valid(sc.valid_mask.0);
}

} // verus!
