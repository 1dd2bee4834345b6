//! Arithmetic Logic Unit (ALU)
//!
//! Each operation returns its result, sets the flags that it defines at once
//! (ZF, and CF for INC and DEC) and records itself as the lazy operation from
//! which the other flags are computed when read.

use vstd::prelude::*;
use crate::ume86::flags::{Flags, FlagsRegister};
use crate::ume86::lazy::LazyOp;
use crate::ume86::state::{ProcessorState, StateView};

verus! {

/// Arithmetic Logic Unit (ALU)
pub struct Alu<'a>(pub &'a mut ProcessorState);

/// The state after an operation that sets ZF from `is_zero`, makes only ZF valid
/// and records `op`.
pub open spec fn after_arith(s: StateView, is_zero: bool, op: LazyOp) -> StateView {
    StateView {
        flags: FlagsRegister {
            dynamic_value: Flags(if is_zero { 0x40 } else { 0 }),
            valid_mask: Flags(0x40),
            ..s.flags
        },
        lazy_op: op,
        ..s
    }
}

/// The state after a logic operation: OF, CF and AF cleared, ZF from `is_zero`,
/// those four valid, and `op` recorded.
pub open spec fn after_logic(s: StateView, is_zero: bool, op: LazyOp) -> StateView {
    StateView {
        flags: FlagsRegister {
            dynamic_value: Flags((s.flags.dynamic_value.0 & !0x0851u32) | (if is_zero { 0x40u32 } else { 0u32 })),
            valid_mask: Flags(0x0851),
            ..s.flags
        },
        lazy_op: op,
        ..s
    }
}

/// The state after INC or DEC: CF kept as it reads, ZF from `is_zero`, both
/// valid, and `op` recorded.
pub open spec fn after_inc_dec(s: StateView, is_zero: bool, op: LazyOp) -> StateView {
    StateView {
        flags: FlagsRegister {
            dynamic_value: Flags(
                (if s.lazy_op.current_cf(s.flags.dynamic_value.0, s.flags.valid_mask.0) {
                    1u32
                } else {
                    0u32
                }) | (if is_zero { 0x40u32 } else { 0u32 }),
            ),
            valid_mask: Flags(0x41),
            ..s.flags
        },
        lazy_op: op,
        ..s
    }
}

/// The state after a multiplication: CF and OF left to be computed from `op`.
pub open spec fn after_mul(s: StateView, op: LazyOp) -> StateView {
    StateView {
        flags: FlagsRegister { valid_mask: Flags(s.flags.valid_mask.0 & !0x801u32), ..s.flags },
        lazy_op: op,
        ..s
    }
}

impl<'a> Alu<'a> {
    pub fn new(state: &'a mut ProcessorState) -> (r: Self)
        ensures
            *r.0 == *old(state),
            *final(r.0) == *final(state),
    {
        Self(state)
    }

    pub fn add8(&mut self, dst: u8, src: u8) -> (r: u8)
        ensures
            r == dst.wrapping_add(src),
            (*final(self).0)@ == after_arith((*old(self).0)@, r == 0, LazyOp::Add8(dst, src)),
            (*final(self).0)@.wf(),
            *final(final(self).0) == *final(old(self).0),
    {
        let result = dst.wrapping_add(src);
        self.0.adjust_after_arith_op(result == 0);
        *self.0.lazy_op_mut() = LazyOp::Add8(dst, src);
        result
    }

    pub fn add16(&mut self, dst: u16, src: u16) -> (r: u16)
        ensures
            r == dst.wrapping_add(src),
            (*final(self).0)@ == after_arith((*old(self).0)@, r == 0, LazyOp::Add16(dst, src)),
            (*final(self).0)@.wf(),
            *final(final(self).0) == *final(old(self).0),
    {
        let result = dst.wrapping_add(src);
        self.0.adjust_after_arith_op(result == 0);
        *self.0.lazy_op_mut() = LazyOp::Add16(dst, src);
        result
    }

    pub fn add32(&mut self, dst: u32, src: u32) -> (r: u32)
        ensures
            r == dst.wrapping_add(src),
            (*final(self).0)@ == after_arith((*old(self).0)@, r == 0, LazyOp::Add32(dst, src)),
            (*final(self).0)@.wf(),
            *final(final(self).0) == *final(old(self).0),
    {
        let result = dst.wrapping_add(src);
        self.0.adjust_after_arith_op(result == 0);
        *self.0.lazy_op_mut() = LazyOp::Add32(dst, src);
        result
    }

    pub fn sub8(&mut self, dst: u8, src: u8) -> (r: u8)
        ensures
            r == dst.wrapping_sub(src),
            (*final(self).0)@ == after_arith((*old(self).0)@, r == 0, LazyOp::Sub8(dst, src)),
            (*final(self).0)@.wf(),
            *final(final(self).0) == *final(old(self).0),
    {
        let result = dst.wrapping_sub(src);
        self.0.adjust_after_arith_op(result == 0);
        *self.0.lazy_op_mut() = LazyOp::Sub8(dst, src);
        result
    }

    pub fn sub16(&mut self, dst: u16, src: u16) -> (r: u16)
        ensures
            r == dst.wrapping_sub(src),
            (*final(self).0)@ == after_arith((*old(self).0)@, r == 0, LazyOp::Sub16(dst, src)),
            (*final(self).0)@.wf(),
            *final(final(self).0) == *final(old(self).0),
    {
        let result = dst.wrapping_sub(src);
        self.0.adjust_after_arith_op(result == 0);
        *self.0.lazy_op_mut() = LazyOp::Sub16(dst, src);
        result
    }

    pub fn sub32(&mut self, dst: u32, src: u32) -> (r: u32)
        ensures
            r == dst.wrapping_sub(src),
            (*final(self).0)@ == after_arith((*old(self).0)@, r == 0, LazyOp::Sub32(dst, src)),
            (*final(self).0)@.wf(),
            *final(final(self).0) == *final(old(self).0),
    {
        let result = dst.wrapping_sub(src);
        self.0.adjust_after_arith_op(result == 0);
        *self.0.lazy_op_mut() = LazyOp::Sub32(dst, src);
        result
    }

    pub fn adc8(&mut self, dst: u8, src: u8) -> (r: u8)
        requires
            (*old(self).0)@.wf(),
        ensures
            ({
                let cf = (*old(self).0)@.lazy_op.current_cf(
                    (*old(self).0)@.flags.dynamic_value.0,
                    (*old(self).0)@.flags.valid_mask.0,
                );
                &&& r == dst.wrapping_add(src).wrapping_add(if cf { 1u8 } else { 0u8 })
                &&& (*final(self).0)@ == after_arith((*old(self).0)@, r == 0, LazyOp::Adc8(dst, src, cf))
            }),
            (*final(self).0)@.wf(),
            *final(final(self).0) == *final(old(self).0),
    {
        let cf = self.0.recompute_cf();
        let result = dst.wrapping_add(src).wrapping_add(if cf { 1u8 } else { 0u8 });
        self.0.adjust_after_arith_op(result == 0);
        *self.0.lazy_op_mut() = LazyOp::Adc8(dst, src, cf);
        result
    }

    pub fn adc16(&mut self, dst: u16, src: u16) -> (r: u16)
        requires
            (*old(self).0)@.wf(),
        ensures
            ({
                let cf = (*old(self).0)@.lazy_op.current_cf(
                    (*old(self).0)@.flags.dynamic_value.0,
                    (*old(self).0)@.flags.valid_mask.0,
                );
                &&& r == dst.wrapping_add(src).wrapping_add(if cf { 1u16 } else { 0u16 })
                &&& (*final(self).0)@ == after_arith((*old(self).0)@, r == 0, LazyOp::Adc16(dst, src, cf))
            }),
            (*final(self).0)@.wf(),
            *final(final(self).0) == *final(old(self).0),
    {
        let cf = self.0.recompute_cf();
        let result = dst.wrapping_add(src).wrapping_add(if cf { 1u16 } else { 0u16 });
        self.0.adjust_after_arith_op(result == 0);
        *self.0.lazy_op_mut() = LazyOp::Adc16(dst, src, cf);
        result
    }

    pub fn adc32(&mut self, dst: u32, src: u32) -> (r: u32)
        requires
            (*old(self).0)@.wf(),
        ensures
            ({
                let cf = (*old(self).0)@.lazy_op.current_cf(
                    (*old(self).0)@.flags.dynamic_value.0,
                    (*old(self).0)@.flags.valid_mask.0,
                );
                &&& r == dst.wrapping_add(src).wrapping_add(if cf { 1u32 } else { 0u32 })
                &&& (*final(self).0)@ == after_arith((*old(self).0)@, r == 0, LazyOp::Adc32(dst, src, cf))
            }),
            (*final(self).0)@.wf(),
            *final(final(self).0) == *final(old(self).0),
    {
        let cf = self.0.recompute_cf();
        let result = dst.wrapping_add(src).wrapping_add(if cf { 1u32 } else { 0u32 });
        self.0.adjust_after_arith_op(result == 0);
        *self.0.lazy_op_mut() = LazyOp::Adc32(dst, src, cf);
        result
    }

    pub fn sbb8(&mut self, dst: u8, src: u8) -> (r: u8)
        requires
            (*old(self).0)@.wf(),
        ensures
            ({
                let cf = (*old(self).0)@.lazy_op.current_cf(
                    (*old(self).0)@.flags.dynamic_value.0,
                    (*old(self).0)@.flags.valid_mask.0,
                );
                &&& r == dst.wrapping_sub(src).wrapping_sub(if cf { 1u8 } else { 0u8 })
                &&& (*final(self).0)@ == after_arith((*old(self).0)@, r == 0, LazyOp::Sbb8(dst, src, cf))
            }),
            (*final(self).0)@.wf(),
            *final(final(self).0) == *final(old(self).0),
    {
        let cf = self.0.recompute_cf();
        let result = dst.wrapping_sub(src).wrapping_sub(if cf { 1u8 } else { 0u8 });
        self.0.adjust_after_arith_op(result == 0);
        *self.0.lazy_op_mut() = LazyOp::Sbb8(dst, src, cf);
        result
    }

    pub fn sbb16(&mut self, dst: u16, src: u16) -> (r: u16)
        requires
            (*old(self).0)@.wf(),
        ensures
            ({
                let cf = (*old(self).0)@.lazy_op.current_cf(
                    (*old(self).0)@.flags.dynamic_value.0,
                    (*old(self).0)@.flags.valid_mask.0,
                );
                &&& r == dst.wrapping_sub(src).wrapping_sub(if cf { 1u16 } else { 0u16 })
                &&& (*final(self).0)@ == after_arith((*old(self).0)@, r == 0, LazyOp::Sbb16(dst, src, cf))
            }),
            (*final(self).0)@.wf(),
            *final(final(self).0) == *final(old(self).0),
    {
        let cf = self.0.recompute_cf();
        let result = dst.wrapping_sub(src).wrapping_sub(if cf { 1u16 } else { 0u16 });
        self.0.adjust_after_arith_op(result == 0);
        *self.0.lazy_op_mut() = LazyOp::Sbb16(dst, src, cf);
        result
    }

    pub fn sbb32(&mut self, dst: u32, src: u32) -> (r: u32)
        requires
            (*old(self).0)@.wf(),
        ensures
            ({
                let cf = (*old(self).0)@.lazy_op.current_cf(
                    (*old(self).0)@.flags.dynamic_value.0,
                    (*old(self).0)@.flags.valid_mask.0,
                );
                &&& r == dst.wrapping_sub(src).wrapping_sub(if cf { 1u32 } else { 0u32 })
                &&& (*final(self).0)@ == after_arith((*old(self).0)@, r == 0, LazyOp::Sbb32(dst, src, cf))
            }),
            (*final(self).0)@.wf(),
            *final(final(self).0) == *final(old(self).0),
    {
        let cf = self.0.recompute_cf();
        let result = dst.wrapping_sub(src).wrapping_sub(if cf { 1u32 } else { 0u32 });
        self.0.adjust_after_arith_op(result == 0);
        *self.0.lazy_op_mut() = LazyOp::Sbb32(dst, src, cf);
        result
    }

    pub fn inc8(&mut self, dst: u8) -> (r: u8)
        requires
            (*old(self).0)@.wf(),
        ensures
            r == dst.wrapping_add(1),
            (*final(self).0)@ == after_inc_dec((*old(self).0)@, r == 0, LazyOp::Inc8(dst)),
            (*final(self).0)@.wf(),
            *final(final(self).0) == *final(old(self).0),
    {
        let result = dst.wrapping_add(1);
        self.0.adjust_after_inc_dec(result == 0);
        *self.0.lazy_op_mut() = LazyOp::Inc8(dst);
        proof {
            crate::ume86::lazy::lemma_or_bits(0, 0);
        }
        result
    }

    pub fn inc16(&mut self, dst: u16) -> (r: u16)
        requires
            (*old(self).0)@.wf(),
        ensures
            r == dst.wrapping_add(1),
            (*final(self).0)@ == after_inc_dec((*old(self).0)@, r == 0, LazyOp::Inc16(dst)),
            (*final(self).0)@.wf(),
            *final(final(self).0) == *final(old(self).0),
    {
        let result = dst.wrapping_add(1);
        self.0.adjust_after_inc_dec(result == 0);
        *self.0.lazy_op_mut() = LazyOp::Inc16(dst);
        proof {
            crate::ume86::lazy::lemma_or_bits(0, 0);
        }
        result
    }

    pub fn inc32(&mut self, dst: u32) -> (r: u32)
        requires
            (*old(self).0)@.wf(),
        ensures
            r == dst.wrapping_add(1),
            (*final(self).0)@ == after_inc_dec((*old(self).0)@, r == 0, LazyOp::Inc32(dst)),
            (*final(self).0)@.wf(),
            *final(final(self).0) == *final(old(self).0),
    {
        let result = dst.wrapping_add(1);
        self.0.adjust_after_inc_dec(result == 0);
        *self.0.lazy_op_mut() = LazyOp::Inc32(dst);
        proof {
            crate::ume86::lazy::lemma_or_bits(0, 0);
        }
        result
    }

    pub fn dec8(&mut self, dst: u8) -> (r: u8)
        requires
            (*old(self).0)@.wf(),
        ensures
            r == dst.wrapping_sub(1),
            (*final(self).0)@ == after_inc_dec((*old(self).0)@, r == 0, LazyOp::Dec8(dst)),
            (*final(self).0)@.wf(),
            *final(final(self).0) == *final(old(self).0),
    {
        let result = dst.wrapping_sub(1);
        self.0.adjust_after_inc_dec(result == 0);
        *self.0.lazy_op_mut() = LazyOp::Dec8(dst);
        proof {
            crate::ume86::lazy::lemma_or_bits(0, 0);
        }
        result
    }

    pub fn dec16(&mut self, dst: u16) -> (r: u16)
        requires
            (*old(self).0)@.wf(),
        ensures
            r == dst.wrapping_sub(1),
            (*final(self).0)@ == after_inc_dec((*old(self).0)@, r == 0, LazyOp::Dec16(dst)),
            (*final(self).0)@.wf(),
            *final(final(self).0) == *final(old(self).0),
    {
        let result = dst.wrapping_sub(1);
        self.0.adjust_after_inc_dec(result == 0);
        *self.0.lazy_op_mut() = LazyOp::Dec16(dst);
        proof {
            crate::ume86::lazy::lemma_or_bits(0, 0);
        }
        result
    }

    pub fn dec32(&mut self, dst: u32) -> (r: u32)
        requires
            (*old(self).0)@.wf(),
        ensures
            r == dst.wrapping_sub(1),
            (*final(self).0)@ == after_inc_dec((*old(self).0)@, r == 0, LazyOp::Dec32(dst)),
            (*final(self).0)@.wf(),
            *final(final(self).0) == *final(old(self).0),
    {
        let result = dst.wrapping_sub(1);
        self.0.adjust_after_inc_dec(result == 0);
        *self.0.lazy_op_mut() = LazyOp::Dec32(dst);
        proof {
            crate::ume86::lazy::lemma_or_bits(0, 0);
        }
        result
    }

    pub fn and8(&mut self, dst: u8, src: u8) -> (r: u8)
        ensures
            r == dst & src,
            (*final(self).0)@ == after_logic((*old(self).0)@, r == 0, LazyOp::And8(dst, src)),
            (*final(self).0)@.wf(),
            *final(final(self).0) == *final(old(self).0),
    {
        let result = dst & src;
        self.0.adjust_after_logic_op(result == 0);
        *self.0.lazy_op_mut() = LazyOp::And8(dst, src);
        result
    }

    pub fn and16(&mut self, dst: u16, src: u16) -> (r: u16)
        ensures
            r == dst & src,
            (*final(self).0)@ == after_logic((*old(self).0)@, r == 0, LazyOp::And16(dst, src)),
            (*final(self).0)@.wf(),
            *final(final(self).0) == *final(old(self).0),
    {
        let result = dst & src;
        self.0.adjust_after_logic_op(result == 0);
        *self.0.lazy_op_mut() = LazyOp::And16(dst, src);
        result
    }

    pub fn and32(&mut self, dst: u32, src: u32) -> (r: u32)
        ensures
            r == dst & src,
            (*final(self).0)@ == after_logic((*old(self).0)@, r == 0, LazyOp::And32(dst, src)),
            (*final(self).0)@.wf(),
            *final(final(self).0) == *final(old(self).0),
    {
        let result = dst & src;
        self.0.adjust_after_logic_op(result == 0);
        *self.0.lazy_op_mut() = LazyOp::And32(dst, src);
        result
    }

    pub fn or8(&mut self, dst: u8, src: u8) -> (r: u8)
        ensures
            r == dst | src,
            (*final(self).0)@ == after_logic((*old(self).0)@, r == 0, LazyOp::Or8(dst, src)),
            (*final(self).0)@.wf(),
            *final(final(self).0) == *final(old(self).0),
    {
        let result = dst | src;
        self.0.adjust_after_logic_op(result == 0);
        *self.0.lazy_op_mut() = LazyOp::Or8(dst, src);
        result
    }

    pub fn or16(&mut self, dst: u16, src: u16) -> (r: u16)
        ensures
            r == dst | src,
            (*final(self).0)@ == after_logic((*old(self).0)@, r == 0, LazyOp::Or16(dst, src)),
            (*final(self).0)@.wf(),
            *final(final(self).0) == *final(old(self).0),
    {
        let result = dst | src;
        self.0.adjust_after_logic_op(result == 0);
        *self.0.lazy_op_mut() = LazyOp::Or16(dst, src);
        result
    }

    pub fn or32(&mut self, dst: u32, src: u32) -> (r: u32)
        ensures
            r == dst | src,
            (*final(self).0)@ == after_logic((*old(self).0)@, r == 0, LazyOp::Or32(dst, src)),
            (*final(self).0)@.wf(),
            *final(final(self).0) == *final(old(self).0),
    {
        let result = dst | src;
        self.0.adjust_after_logic_op(result == 0);
        *self.0.lazy_op_mut() = LazyOp::Or32(dst, src);
        result
    }

    pub fn xor8(&mut self, dst: u8, src: u8) -> (r: u8)
        ensures
            r == dst ^ src,
            (*final(self).0)@ == after_logic((*old(self).0)@, r == 0, LazyOp::Xor8(dst, src)),
            (*final(self).0)@.wf(),
            *final(final(self).0) == *final(old(self).0),
    {
        let result = dst ^ src;
        self.0.adjust_after_logic_op(result == 0);
        *self.0.lazy_op_mut() = LazyOp::Xor8(dst, src);
        result
    }

    pub fn xor16(&mut self, dst: u16, src: u16) -> (r: u16)
        ensures
            r == dst ^ src,
            (*final(self).0)@ == after_logic((*old(self).0)@, r == 0, LazyOp::Xor16(dst, src)),
            (*final(self).0)@.wf(),
            *final(final(self).0) == *final(old(self).0),
    {
        let result = dst ^ src;
        self.0.adjust_after_logic_op(result == 0);
        *self.0.lazy_op_mut() = LazyOp::Xor16(dst, src);
        result
    }

    pub fn xor32(&mut self, dst: u32, src: u32) -> (r: u32)
        ensures
            r == dst ^ src,
            (*final(self).0)@ == after_logic((*old(self).0)@, r == 0, LazyOp::Xor32(dst, src)),
            (*final(self).0)@.wf(),
            *final(final(self).0) == *final(old(self).0),
    {
        let result = dst ^ src;
        self.0.adjust_after_logic_op(result == 0);
        *self.0.lazy_op_mut() = LazyOp::Xor32(dst, src);
        result
    }

    /// Unsigned multiplication; the result has twice the width of the operands.
    pub fn mul8(&mut self, dst: u8, src: u8) -> (r: u16)
        ensures
            r == dst * src,
            (*final(self).0)@ == after_mul((*old(self).0)@, LazyOp::Mul8(dst, src)),
            (*final(self).0)@.wf(),
            *final(final(self).0) == *final(old(self).0),
    {
        assert(dst * src <= 0xff * 0xff) by (nonlinear_arith)
            requires
                dst <= 0xff,
                src <= 0xff,
        ;
        let result = (dst as u16) * (src as u16);
        self.0.flags_mut().unresolve(Flags(0x801));
        *self.0.lazy_op_mut() = LazyOp::Mul8(dst, src);
        result
    }

    /// Unsigned multiplication; the result has twice the width of the operands.
    pub fn mul16(&mut self, dst: u16, src: u16) -> (r: u32)
        ensures
            r == dst * src,
            (*final(self).0)@ == after_mul((*old(self).0)@, LazyOp::Mul16(dst, src)),
            (*final(self).0)@.wf(),
            *final(final(self).0) == *final(old(self).0),
    {
        assert(dst * src <= 0xffff * 0xffff) by (nonlinear_arith)
            requires
                dst <= 0xffff,
                src <= 0xffff,
        ;
        let result = (dst as u32) * (src as u32);
        self.0.flags_mut().unresolve(Flags(0x801));
        *self.0.lazy_op_mut() = LazyOp::Mul16(dst, src);
        result
    }

    /// Unsigned multiplication; the result has twice the width of the operands.
    pub fn mul32(&mut self, dst: u32, src: u32) -> (r: u64)
        ensures
            r == dst * src,
            (*final(self).0)@ == after_mul((*old(self).0)@, LazyOp::Mul32(dst, src)),
            (*final(self).0)@.wf(),
            *final(final(self).0) == *final(old(self).0),
    {
        assert(dst * src <= 0xffff_ffff * 0xffff_ffff) by (nonlinear_arith)
            requires
                dst <= 0xffff_ffff,
                src <= 0xffff_ffff,
        ;
        let result = (dst as u64) * (src as u64);
        self.0.flags_mut().unresolve(Flags(0x801));
        *self.0.lazy_op_mut() = LazyOp::Mul32(dst, src);
        result
    }

    /// Signed multiplication, truncated to the width of the operands.
    pub fn imul8(&mut self, dst: i8, src: i8) -> (r: i8)
        ensures
            r == dst.wrapping_mul(src),
            (*final(self).0)@ == after_mul((*old(self).0)@, LazyOp::IMul8(dst, src)),
            (*final(self).0)@.wf(),
            *final(final(self).0) == *final(old(self).0),
    {
        let result = dst.wrapping_mul(src);
        self.0.flags_mut().unresolve(Flags(0x801));
        *self.0.lazy_op_mut() = LazyOp::IMul8(dst, src);
        result
    }

    /// Signed multiplication, truncated to the width of the operands.
    pub fn imul16(&mut self, dst: i16, src: i16) -> (r: i16)
        ensures
            r == dst.wrapping_mul(src),
            (*final(self).0)@ == after_mul((*old(self).0)@, LazyOp::IMul16(dst, src)),
            (*final(self).0)@.wf(),
            *final(final(self).0) == *final(old(self).0),
    {
        let result = dst.wrapping_mul(src);
        self.0.flags_mut().unresolve(Flags(0x801));
        *self.0.lazy_op_mut() = LazyOp::IMul16(dst, src);
        result
    }

    /// Signed multiplication, truncated to the width of the operands.
    pub fn imul32(&mut self, dst: i32, src: i32) -> (r: i32)
        ensures
            r == dst.wrapping_mul(src),
            (*final(self).0)@ == after_mul((*old(self).0)@, LazyOp::IMul32(dst, src)),
            (*final(self).0)@.wf(),
            *final(final(self).0) == *final(old(self).0),
    {
        let result = dst.wrapping_mul(src);
        self.0.flags_mut().unresolve(Flags(0x801));
        *self.0.lazy_op_mut() = LazyOp::IMul32(dst, src);
        result
    }

    pub fn shl8(&mut self, dst: u8, count: u8) -> (r: u8)
        ensures
            count % 32 == 0 ==> r == dst && *final(self).0 == *old(self).0,
            count % 32 != 0 ==> {
                &&& r == dst.wrapping_shl((count % 32) as u32)
                &&& (*final(self).0)@ == after_arith((*old(self).0)@, r == 0, LazyOp::Shl8(dst, count % 32))
                &&& (*final(self).0)@.wf()
            },
            *final(final(self).0) == *final(old(self).0),
    {
        proof {
            crate::bits::lemma_u8_fields(count);
        }
        let count = count & 0x1f;
        if count > 0 {
            let result = dst.wrapping_shl(count as u32);
            self.0.adjust_after_shift(result == 0);
            *self.0.lazy_op_mut() = LazyOp::Shl8(dst, count);
            result
        } else {
            dst
        }
    }

    pub fn shl16(&mut self, dst: u16, count: u8) -> (r: u16)
        ensures
            count % 32 == 0 ==> r == dst && *final(self).0 == *old(self).0,
            count % 32 != 0 ==> {
                &&& r == dst.wrapping_shl((count % 32) as u32)
                &&& (*final(self).0)@ == after_arith((*old(self).0)@, r == 0, LazyOp::Shl16(dst, count % 32))
                &&& (*final(self).0)@.wf()
            },
            *final(final(self).0) == *final(old(self).0),
    {
        proof {
            crate::bits::lemma_u8_fields(count);
        }
        let count = count & 0x1f;
        if count > 0 {
            let result = dst.wrapping_shl(count as u32);
            self.0.adjust_after_shift(result == 0);
            *self.0.lazy_op_mut() = LazyOp::Shl16(dst, count);
            result
        } else {
            dst
        }
    }

    pub fn shl32(&mut self, dst: u32, count: u8) -> (r: u32)
        ensures
            count % 32 == 0 ==> r == dst && *final(self).0 == *old(self).0,
            count % 32 != 0 ==> {
                &&& r == dst.wrapping_shl((count % 32) as u32)
                &&& (*final(self).0)@ == after_arith((*old(self).0)@, r == 0, LazyOp::Shl32(dst, count % 32))
                &&& (*final(self).0)@.wf()
            },
            *final(final(self).0) == *final(old(self).0),
    {
        proof {
            crate::bits::lemma_u8_fields(count);
        }
        let count = count & 0x1f;
        if count > 0 {
            let result = dst.wrapping_shl(count as u32);
            self.0.adjust_after_shift(result == 0);
            *self.0.lazy_op_mut() = LazyOp::Shl32(dst, count);
            result
        } else {
            dst
        }
    }

    pub fn shr8(&mut self, dst: u8, count: u8) -> (r: u8)
        ensures
            count % 32 == 0 ==> r == dst && *final(self).0 == *old(self).0,
            count % 32 != 0 ==> {
                &&& r == dst.wrapping_shr((count % 32) as u32)
                &&& (*final(self).0)@ == after_arith((*old(self).0)@, r == 0, LazyOp::Shr8(dst, count % 32))
                &&& (*final(self).0)@.wf()
            },
            *final(final(self).0) == *final(old(self).0),
    {
        proof {
            crate::bits::lemma_u8_fields(count);
        }
        let count = count & 0x1f;
        if count > 0 {
            let result = dst.wrapping_shr(count as u32);
            self.0.adjust_after_shift(result == 0);
            *self.0.lazy_op_mut() = LazyOp::Shr8(dst, count);
            result
        } else {
            dst
        }
    }

    pub fn shr16(&mut self, dst: u16, count: u8) -> (r: u16)
        ensures
            count % 32 == 0 ==> r == dst && *final(self).0 == *old(self).0,
            count % 32 != 0 ==> {
                &&& r == dst.wrapping_shr((count % 32) as u32)
                &&& (*final(self).0)@ == after_arith((*old(self).0)@, r == 0, LazyOp::Shr16(dst, count % 32))
                &&& (*final(self).0)@.wf()
            },
            *final(final(self).0) == *final(old(self).0),
    {
        proof {
            crate::bits::lemma_u8_fields(count);
        }
        let count = count & 0x1f;
        if count > 0 {
            let result = dst.wrapping_shr(count as u32);
            self.0.adjust_after_shift(result == 0);
            *self.0.lazy_op_mut() = LazyOp::Shr16(dst, count);
            result
        } else {
            dst
        }
    }

    pub fn shr32(&mut self, dst: u32, count: u8) -> (r: u32)
        ensures
            count % 32 == 0 ==> r == dst && *final(self).0 == *old(self).0,
            count % 32 != 0 ==> {
                &&& r == dst.wrapping_shr((count % 32) as u32)
                &&& (*final(self).0)@ == after_arith((*old(self).0)@, r == 0, LazyOp::Shr32(dst, count % 32))
                &&& (*final(self).0)@.wf()
            },
            *final(final(self).0) == *final(old(self).0),
    {
        proof {
            crate::bits::lemma_u8_fields(count);
        }
        let count = count & 0x1f;
        if count > 0 {
            let result = dst.wrapping_shr(count as u32);
            self.0.adjust_after_shift(result == 0);
            *self.0.lazy_op_mut() = LazyOp::Shr32(dst, count);
            result
        } else {
            dst
        }
    }

    pub fn sar8(&mut self, dst: u8, count: u8) -> (r: u8)
        ensures
            count % 32 == 0 ==> r == dst && *final(self).0 == *old(self).0,
            count % 32 != 0 ==> {
                &&& r == ((dst as i8).wrapping_shr((count % 32) as u32)) as u8
                &&& (*final(self).0)@ == after_arith((*old(self).0)@, r == 0, LazyOp::Sar8(dst as i8, count % 32))
                &&& (*final(self).0)@.wf()
            },
            *final(final(self).0) == *final(old(self).0),
    {
        proof {
            crate::bits::lemma_u8_fields(count);
        }
        let count = count & 0x1f;
        if count > 0 {
            let dst = dst as i8;
            let result = (dst.wrapping_shr(count as u32)) as u8;
            self.0.adjust_after_shift(result == 0);
            *self.0.lazy_op_mut() = LazyOp::Sar8(dst, count);
            result
        } else {
            dst
        }
    }

    pub fn sar16(&mut self, dst: u16, count: u8) -> (r: u16)
        ensures
            count % 32 == 0 ==> r == dst && *final(self).0 == *old(self).0,
            count % 32 != 0 ==> {
                &&& r == ((dst as i16).wrapping_shr((count % 32) as u32)) as u16
                &&& (*final(self).0)@ == after_arith((*old(self).0)@, r == 0, LazyOp::Sar16(dst as i16, count % 32))
                &&& (*final(self).0)@.wf()
            },
            *final(final(self).0) == *final(old(self).0),
    {
        proof {
            crate::bits::lemma_u8_fields(count);
        }
        let count = count & 0x1f;
        if count > 0 {
            let dst = dst as i16;
            let result = (dst.wrapping_shr(count as u32)) as u16;
            self.0.adjust_after_shift(result == 0);
            *self.0.lazy_op_mut() = LazyOp::Sar16(dst, count);
            result
        } else {
            dst
        }
    }

    pub fn sar32(&mut self, dst: u32, count: u8) -> (r: u32)
        ensures
            count % 32 == 0 ==> r == dst && *final(self).0 == *old(self).0,
            count % 32 != 0 ==> {
                &&& r == ((dst as i32).wrapping_shr((count % 32) as u32)) as u32
                &&& (*final(self).0)@ == after_arith((*old(self).0)@, r == 0, LazyOp::Sar32(dst as i32, count % 32))
                &&& (*final(self).0)@.wf()
            },
            *final(final(self).0) == *final(old(self).0),
    {
        proof {
            crate::bits::lemma_u8_fields(count);
        }
        let count = count & 0x1f;
        if count > 0 {
            let dst = dst as i32;
            let result = (dst.wrapping_shr(count as u32)) as u32;
            self.0.adjust_after_shift(result == 0);
            *self.0.lazy_op_mut() = LazyOp::Sar32(dst, count);
            result
        } else {
            dst
        }
    }

}

} // verus!
