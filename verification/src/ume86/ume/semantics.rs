//! What the arithmetic micro operations do to the processor state and the
//! data segment.

use vstd::prelude::*;
use crate::ir86::types::Offset32;
use crate::ume86::alu::{after_arith, after_inc_dec, after_logic, after_mul};
use crate::ume86::gpr::{lo16, set_lo16};
use crate::ume86::lazy::LazyOp;
use crate::ume86::state::{cc_holds, read8_of, resolved_for_cc, rt_of, write8_of, RtReg, RtReg8, StateView};
use crate::ir86::sib::{spec_to_sib, SibIndex};
use crate::ume86::ume::{
    bytes16, bytes32, edx_eax, idiv, pushad_bytes, read16_at, read32_at, spec_cpuid, wrap_add, wrap_sub, write_bytes,
    Exception,
};
use crate::ume86::flags::{with_bits, Flags, FlagsRegister};
use crate::ume86::ume::uop::{Uop, UopMinor};

verus! {

/// A binary operation of the arithmetic logic unit.
pub enum BinOp {
    Add,
    Sub,
    And,
    Or,
    Xor,
}

/// A shift.
pub enum ShiftOp {
    Shl,
    Shr,
    Sar,
}

/// The byte that `r` names in `s`.
pub open spec fn get8(s: StateView, r: RtReg8) -> u8 {
    read8_of(s.regs, r)
}

/// `s` with the byte that `r` names set to `v`.
pub open spec fn set8(s: StateView, r: RtReg8, v: u8) -> StateView {
    s.with_reg(r.slot(), write8_of(s.regs, r, v))
}

/// The low 16 bits of register `r` in `s`.
pub open spec fn get16(s: StateView, r: RtReg) -> u16 {
    lo16(s.regs[r.index()])
}

/// `s` with the low 16 bits of register `r` set to `v`.
pub open spec fn set16(s: StateView, r: RtReg, v: u16) -> StateView {
    s.with_reg(r.index(), set_lo16(s.regs[r.index()], v))
}

/// Register `r` in `s`.
pub open spec fn get32(s: StateView, r: RtReg) -> u32 {
    s.regs[r.index()]
}

/// `s` with register `r` set to `v`.
pub open spec fn set32(s: StateView, r: RtReg, v: u32) -> StateView {
    s.with_reg(r.index(), v)
}

/// The result of `op` on the bytes `a` and `b`, and the state after it.
pub open spec fn bin8(s: StateView, op: BinOp, a: u8, b: u8) -> (u8, StateView) {
    match op {
        BinOp::Add => {
            let r = a.wrapping_add(b);
            (r, after_arith(s, r == 0, LazyOp::Add8(a, b)))
        },
        BinOp::Sub => {
            let r = a.wrapping_sub(b);
            (r, after_arith(s, r == 0, LazyOp::Sub8(a, b)))
        },
        BinOp::And => (a & b, after_logic(s, a & b == 0, LazyOp::And8(a, b))),
        BinOp::Or => (a | b, after_logic(s, a | b == 0, LazyOp::Or8(a, b))),
        BinOp::Xor => (a ^ b, after_logic(s, a ^ b == 0, LazyOp::Xor8(a, b))),
    }
}

/// The result of `op` on the words `a` and `b`, and the state after it.
pub open spec fn bin16(s: StateView, op: BinOp, a: u16, b: u16) -> (u16, StateView) {
    match op {
        BinOp::Add => {
            let r = a.wrapping_add(b);
            (r, after_arith(s, r == 0, LazyOp::Add16(a, b)))
        },
        BinOp::Sub => {
            let r = a.wrapping_sub(b);
            (r, after_arith(s, r == 0, LazyOp::Sub16(a, b)))
        },
        BinOp::And => (a & b, after_logic(s, a & b == 0, LazyOp::And16(a, b))),
        BinOp::Or => (a | b, after_logic(s, a | b == 0, LazyOp::Or16(a, b))),
        BinOp::Xor => (a ^ b, after_logic(s, a ^ b == 0, LazyOp::Xor16(a, b))),
    }
}

/// The result of `op` on the double words `a` and `b`, and the state after it.
pub open spec fn bin32(s: StateView, op: BinOp, a: u32, b: u32) -> (u32, StateView) {
    match op {
        BinOp::Add => {
            let r = a.wrapping_add(b);
            (r, after_arith(s, r == 0, LazyOp::Add32(a, b)))
        },
        BinOp::Sub => {
            let r = a.wrapping_sub(b);
            (r, after_arith(s, r == 0, LazyOp::Sub32(a, b)))
        },
        BinOp::And => (a & b, after_logic(s, a & b == 0, LazyOp::And32(a, b))),
        BinOp::Or => (a | b, after_logic(s, a | b == 0, LazyOp::Or32(a, b))),
        BinOp::Xor => (a ^ b, after_logic(s, a ^ b == 0, LazyOp::Xor32(a, b))),
    }
}

/// The byte `a` shifted by `count` (modulo 32), and the state after it; a
/// shift by nothing changes nothing.
pub open spec fn shift8(s: StateView, op: ShiftOp, a: u8, count: u8) -> (u8, StateView) {
    let c = count % 32;
    if c == 0 {
        (a, s)
    } else {
        match op {
            ShiftOp::Shl => {
                let r = a.wrapping_shl(c as u32);
                (r, after_arith(s, r == 0, LazyOp::Shl8(a, c)))
            },
            ShiftOp::Shr => {
                let r = a.wrapping_shr(c as u32);
                (r, after_arith(s, r == 0, LazyOp::Shr8(a, c)))
            },
            ShiftOp::Sar => {
                let r = ((a as i8).wrapping_shr(c as u32)) as u8;
                (r, after_arith(s, r == 0, LazyOp::Sar8(a as i8, c)))
            },
        }
    }
}

/// The word `a` shifted by `count` (modulo 32), and the state after it.
pub open spec fn shift16(s: StateView, op: ShiftOp, a: u16, count: u8) -> (u16, StateView) {
    let c = count % 32;
    if c == 0 {
        (a, s)
    } else {
        match op {
            ShiftOp::Shl => {
                let r = a.wrapping_shl(c as u32);
                (r, after_arith(s, r == 0, LazyOp::Shl16(a, c)))
            },
            ShiftOp::Shr => {
                let r = a.wrapping_shr(c as u32);
                (r, after_arith(s, r == 0, LazyOp::Shr16(a, c)))
            },
            ShiftOp::Sar => {
                let r = ((a as i16).wrapping_shr(c as u32)) as u16;
                (r, after_arith(s, r == 0, LazyOp::Sar16(a as i16, c)))
            },
        }
    }
}

/// The double word `a` shifted by `count` (modulo 32), and the state after it.
pub open spec fn shift32(s: StateView, op: ShiftOp, a: u32, count: u8) -> (u32, StateView) {
    let c = count % 32;
    if c == 0 {
        (a, s)
    } else {
        match op {
            ShiftOp::Shl => {
                let r = a.wrapping_shl(c as u32);
                (r, after_arith(s, r == 0, LazyOp::Shl32(a, c)))
            },
            ShiftOp::Shr => {
                let r = a.wrapping_shr(c as u32);
                (r, after_arith(s, r == 0, LazyOp::Shr32(a, c)))
            },
            ShiftOp::Sar => {
                let r = ((a as i32).wrapping_shr(c as u32)) as u32;
                (r, after_arith(s, r == 0, LazyOp::Sar32(a as i32, c)))
            },
        }
    }
}

/// `op` on byte register `rd` and `src`; the result goes back to `rd` where `keep`.
#[verifier::opaque]
pub open spec fn op8(s: StateView, op: BinOp, rd: RtReg8, src: u8, keep: bool) -> StateView {
    let (v, t) = bin8(s, op, get8(s, rd), src);
    if keep { set8(t, rd, v) } else { t }
}

/// `op` on the low word of register `rd` and `src`; the result goes back where `keep`.
#[verifier::opaque]
pub open spec fn op16(s: StateView, op: BinOp, rd: RtReg, src: u16, keep: bool) -> StateView {
    let (v, t) = bin16(s, op, get16(s, rd), src);
    if keep { set16(t, rd, v) } else { t }
}

/// `op` on register `rd` and `src`; the result goes back to `rd` where `keep`.
#[verifier::opaque]
pub open spec fn op32(s: StateView, op: BinOp, rd: RtReg, src: u32, keep: bool) -> StateView {
    let (v, t) = bin32(s, op, get32(s, rd), src);
    if keep { set32(t, rd, v) } else { t }
}

/// Byte register `rd` shifted by `count`.
#[verifier::opaque]
pub open spec fn sh8(s: StateView, op: ShiftOp, rd: RtReg8, count: u8) -> StateView {
    let (v, t) = shift8(s, op, get8(s, rd), count);
    set8(t, rd, v)
}

/// The low word of register `rd` shifted by `count`.
#[verifier::opaque]
pub open spec fn sh16(s: StateView, op: ShiftOp, rd: RtReg, count: u8) -> StateView {
    let (v, t) = shift16(s, op, get16(s, rd), count);
    set16(t, rd, v)
}

/// Register `rd` shifted by `count`.
#[verifier::opaque]
pub open spec fn sh32(s: StateView, op: ShiftOp, rd: RtReg, count: u8) -> StateView {
    let (v, t) = shift32(s, op, get32(s, rd), count);
    set32(t, rd, v)
}

/// Register `rd` incremented (decremented where not `inc`).
#[verifier::opaque]
pub open spec fn inc_dec32(s: StateView, rd: RtReg, inc: bool) -> StateView {
    let a = get32(s, rd);
    if inc {
        let v = a.wrapping_add(1);
        set32(after_inc_dec(s, v == 0, LazyOp::Inc32(a)), rd, v)
    } else {
        let v = a.wrapping_sub(1);
        set32(after_inc_dec(s, v == 0, LazyOp::Dec32(a)), rd, v)
    }
}

/// Register `rd` negated, as a subtraction from zero.
#[verifier::opaque]
pub open spec fn neg32(s: StateView, rd: RtReg) -> StateView {
    let a = get32(s, rd);
    let (v, t) = bin32(s, BinOp::Sub, 0, a);
    set32(t, rd, v)
}

/// `rd` set to the signed product of `a` and `b`, wrapping around.
#[verifier::opaque]
pub open spec fn imul32(s: StateView, rd: RtReg, a: i32, b: i32) -> StateView {
    set32(after_mul(s, LazyOp::IMul32(a, b)), rd, a.wrapping_mul(b) as u32)
}

/// `op` on the double word that register `rd` points to in `mem` and register
/// `rs`, the result stored back; a segmentation violation where the double
/// word does not lie in `mem`.
#[verifier::opaque]
pub open spec fn rmw32(s: StateView, mem: Seq<u8>, op: BinOp, rd: RtReg, rs: RtReg) -> Result<(StateView, Seq<u8>), Exception> {
    let addr = get32(s, rd);
    if addr + 4 <= mem.len() {
        let (v, t) = bin32(s, op, read32_at(mem, addr as int), get32(s, rs));
        Ok((t, write_bytes(mem, addr as int, bytes32(v))))
    } else {
        Err(Exception::SegmentationViolation(Offset32(addr)))
    }
}

/// EDX:EAX divided by register `rs`, signed: the quotient to EAX and the
/// remainder to EDX; a division error where the divisor is zero or the
/// quotient does not fit.
#[verifier::opaque]
pub open spec fn idiv32(s: StateView, mem: Seq<u8>, rs: RtReg) -> Result<(StateView, Seq<u8>), Exception> {
    let d = get32(s, rs) as i32;
    if d == 0 {
        Err(Exception::DivisionError)
    } else {
        let (q, m) = idiv(edx_eax(get32(s, RtReg::EDX), get32(s, RtReg::EAX)), d as int);
        if i32::MIN <= q <= i32::MAX {
            Ok((set32(set32(s, RtReg::EAX, q as i32 as u32), RtReg::EDX, m as i32 as u32), mem))
        } else {
            Err(Exception::DivisionError)
        }
    }
}

/// EDX:EAX divided by register `rs`, unsigned: the quotient to EAX and the
/// remainder to EDX; a division error where the divisor is zero or the
/// quotient does not fit.
#[verifier::opaque]
pub open spec fn div32(s: StateView, mem: Seq<u8>, rs: RtReg) -> Result<(StateView, Seq<u8>), Exception> {
    let d = get32(s, rs);
    if d == 0 {
        Err(Exception::DivisionError)
    } else {
        let n = get32(s, RtReg::EDX) * 0x1_0000_0000 + get32(s, RtReg::EAX);
        let q = n / (d as int);
        if q > u32::MAX {
            Err(Exception::DivisionError)
        } else {
            Ok((set32(set32(s, RtReg::EAX, q as u32), RtReg::EDX, (n % (d as int)) as u32), mem))
        }
    }
}

/// Which of the three groups of arithmetic micro operations `uop` is in:
/// additions and subtractions (0), logic operations (1), or the rest (2).
pub open spec fn alu_group(uop: Uop) -> u8 {
    match uop {
        Uop::AddI8(..)
        | Uop::AddI16(..)
        | Uop::AddI(..)
        | Uop::AddR8(..)
        | Uop::AddR16(..)
        | Uop::AddR(..)
        | Uop::AddRMW(..)
        | Uop::IncR(..)
        | Uop::SubI8(..)
        | Uop::SubI16(..)
        | Uop::SubI(..)
        | Uop::SubR8(..)
        | Uop::SubR16(..)
        | Uop::SubR(..)
        | Uop::SubRMW(..)
        | Uop::DecR(..)
        | Uop::NegR(..)
        | Uop::CmpI8(..)
        | Uop::CmpI16(..)
        | Uop::CmpI(..)
        | Uop::CmpR8(..)
        | Uop::CmpR16(..)
        | Uop::CmpR(..) => 0,
        Uop::AndI8(..)
        | Uop::AndI16(..)
        | Uop::AndI(..)
        | Uop::AndR8(..)
        | Uop::AndR16(..)
        | Uop::AndR(..)
        | Uop::OrI8(..)
        | Uop::OrI16(..)
        | Uop::OrI(..)
        | Uop::OrR8(..)
        | Uop::OrR16(..)
        | Uop::OrR(..)
        | Uop::XorI8(..)
        | Uop::XorI16(..)
        | Uop::XorI(..)
        | Uop::XorR8(..)
        | Uop::XorR16(..)
        | Uop::XorR(..)
        | Uop::TestI8(..)
        | Uop::TestI16(..)
        | Uop::TestI(..)
        | Uop::TestR8(..)
        | Uop::TestR16(..)
        | Uop::TestR(..) => 1,
        _ => 2,
    }
}

/// What the arithmetic micro operation `uop` does to the state `s` and the
/// data segment `mem`: the state and segment after it, or the exception it
/// raises, which leaves both as they were. Other micro operations change
/// nothing here.
pub open spec fn alu_step(s: StateView, mem: Seq<u8>, uop: Uop) -> Result<(StateView, Seq<u8>), Exception> {
    match uop {
        Uop::AddI8(rd, ib) => Ok((op8(s, BinOp::Add, rd, ib, true), mem)),
        Uop::AddI16(rd, iw) => Ok((op16(s, BinOp::Add, rd, iw, true), mem)),
        Uop::AddI(rd, id) => Ok((op32(s, BinOp::Add, rd, id, true), mem)),
        Uop::AddR8(rd, rs) => Ok((op8(s, BinOp::Add, rd, get8(s, rs), true), mem)),
        Uop::AddR16(rd, rs) => Ok((op16(s, BinOp::Add, rd, get16(s, rs), true), mem)),
        Uop::AddR(rd, rs) => Ok((op32(s, BinOp::Add, rd, get32(s, rs), true), mem)),
        Uop::AddRMW(rd, rs) => rmw32(s, mem, BinOp::Add, rd, rs),
        Uop::IncR(rd) => Ok((inc_dec32(s, rd, true), mem)),
        Uop::SubI8(rd, ib) => Ok((op8(s, BinOp::Sub, rd, ib, true), mem)),
        Uop::SubI16(rd, iw) => Ok((op16(s, BinOp::Sub, rd, iw, true), mem)),
        Uop::SubI(rd, id) => Ok((op32(s, BinOp::Sub, rd, id, true), mem)),
        Uop::SubR8(rd, rs) => Ok((op8(s, BinOp::Sub, rd, get8(s, rs), true), mem)),
        Uop::SubR16(rd, rs) => Ok((op16(s, BinOp::Sub, rd, get16(s, rs), true), mem)),
        Uop::SubR(rd, rs) => Ok((op32(s, BinOp::Sub, rd, get32(s, rs), true), mem)),
        Uop::SubRMW(rd, rs) => rmw32(s, mem, BinOp::Sub, rd, rs),
        Uop::DecR(rd) => Ok((inc_dec32(s, rd, false), mem)),
        Uop::NegR(rd) => Ok((neg32(s, rd), mem)),
        Uop::CmpI8(rd, ib) => Ok((op8(s, BinOp::Sub, rd, ib, false), mem)),
        Uop::CmpI16(rd, iw) => Ok((op16(s, BinOp::Sub, rd, iw, false), mem)),
        Uop::CmpI(rd, id) => Ok((op32(s, BinOp::Sub, rd, id, false), mem)),
        Uop::CmpR8(rd, rs) => Ok((op8(s, BinOp::Sub, rd, get8(s, rs), false), mem)),
        Uop::CmpR16(rd, rs) => Ok((op16(s, BinOp::Sub, rd, get16(s, rs), false), mem)),
        Uop::CmpR(rd, rs) => Ok((op32(s, BinOp::Sub, rd, get32(s, rs), false), mem)),
        Uop::AndI8(rd, ib) => Ok((op8(s, BinOp::And, rd, ib, true), mem)),
        Uop::AndI16(rd, iw) => Ok((op16(s, BinOp::And, rd, iw, true), mem)),
        Uop::AndI(rd, id) => Ok((op32(s, BinOp::And, rd, id, true), mem)),
        Uop::AndR8(rd, rs) => Ok((op8(s, BinOp::And, rd, get8(s, rs), true), mem)),
        Uop::AndR16(rd, rs) => Ok((op16(s, BinOp::And, rd, get16(s, rs), true), mem)),
        Uop::AndR(rd, rs) => Ok((op32(s, BinOp::And, rd, get32(s, rs), true), mem)),
        Uop::OrI8(rd, ib) => Ok((op8(s, BinOp::Or, rd, ib, true), mem)),
        Uop::OrI16(rd, iw) => Ok((op16(s, BinOp::Or, rd, iw, true), mem)),
        Uop::OrI(rd, id) => Ok((op32(s, BinOp::Or, rd, id, true), mem)),
        Uop::OrR8(rd, rs) => Ok((op8(s, BinOp::Or, rd, get8(s, rs), true), mem)),
        Uop::OrR16(rd, rs) => Ok((op16(s, BinOp::Or, rd, get16(s, rs), true), mem)),
        Uop::OrR(rd, rs) => Ok((op32(s, BinOp::Or, rd, get32(s, rs), true), mem)),
        Uop::XorI8(rd, ib) => Ok((op8(s, BinOp::Xor, rd, ib, true), mem)),
        Uop::XorI16(rd, iw) => Ok((op16(s, BinOp::Xor, rd, iw, true), mem)),
        Uop::XorI(rd, id) => Ok((op32(s, BinOp::Xor, rd, id, true), mem)),
        Uop::XorR8(rd, rs) => Ok((op8(s, BinOp::Xor, rd, get8(s, rs), true), mem)),
        Uop::XorR16(rd, rs) => Ok((op16(s, BinOp::Xor, rd, get16(s, rs), true), mem)),
        Uop::XorR(rd, rs) => Ok((op32(s, BinOp::Xor, rd, get32(s, rs), true), mem)),
        Uop::TestI8(rd, ib) => Ok((op8(s, BinOp::And, rd, ib, false), mem)),
        Uop::TestI16(rd, iw) => Ok((op16(s, BinOp::And, rd, iw, false), mem)),
        Uop::TestI(rd, id) => Ok((op32(s, BinOp::And, rd, id, false), mem)),
        Uop::TestR8(rd, rs) => Ok((op8(s, BinOp::And, rd, get8(s, rs), false), mem)),
        Uop::TestR16(rd, rs) => Ok((op16(s, BinOp::And, rd, get16(s, rs), false), mem)),
        Uop::TestR(rd, rs) => Ok((op32(s, BinOp::And, rd, get32(s, rs), false), mem)),
        Uop::IMulR(rd, rs) => Ok((imul32(s, rd, get32(s, rd) as i32, get32(s, rs) as i32), mem)),
        Uop::IMulRI(rd, rs, id) => Ok((imul32(s, rd, get32(s, rs) as i32, id), mem)),
        Uop::IDivR(rs) => idiv32(s, mem, rs),
        Uop::DivR(rs) => div32(s, mem, rs),
        Uop::SarI8(rd, ib) => Ok((sh8(s, ShiftOp::Sar, rd, ib), mem)),
        Uop::SarRCl8(rd) => Ok((sh8(s, ShiftOp::Sar, rd, get8(s, RtReg8::CL)), mem)),
        Uop::SarI16(rd, ib) => Ok((sh16(s, ShiftOp::Sar, rd, ib), mem)),
        Uop::SarRCl16(rd) => Ok((sh16(s, ShiftOp::Sar, rd, get8(s, RtReg8::CL)), mem)),
        Uop::SarI(rd, ib) => Ok((sh32(s, ShiftOp::Sar, rd, ib), mem)),
        Uop::SarRCl(rd) => Ok((sh32(s, ShiftOp::Sar, rd, get8(s, RtReg8::CL)), mem)),
        Uop::ShlI8(rd, ib) => Ok((sh8(s, ShiftOp::Shl, rd, ib), mem)),
        Uop::ShlI16(rd, iw) => Ok((sh16(s, ShiftOp::Shl, rd, iw), mem)),
        Uop::ShlI(rd, ib) => Ok((sh32(s, ShiftOp::Shl, rd, ib), mem)),
        Uop::ShlRCl8(rd) => Ok((sh8(s, ShiftOp::Shl, rd, get8(s, RtReg8::CL)), mem)),
        Uop::ShlRCl16(rd) => Ok((sh16(s, ShiftOp::Shl, rd, get8(s, RtReg8::CL)), mem)),
        Uop::ShlRCl(rd) => Ok((sh32(s, ShiftOp::Shl, rd, get8(s, RtReg8::CL)), mem)),
        Uop::ShrI8(rd, ib) => Ok((sh8(s, ShiftOp::Shr, rd, ib), mem)),
        Uop::ShrRCl8(rd) => Ok((sh8(s, ShiftOp::Shr, rd, get8(s, RtReg8::CL)), mem)),
        Uop::ShrI16(rd, ib) => Ok((sh16(s, ShiftOp::Shr, rd, ib), mem)),
        Uop::ShrRCl16(rd) => Ok((sh16(s, ShiftOp::Shr, rd, get8(s, RtReg8::CL)), mem)),
        Uop::ShrI(rd, ib) => Ok((sh32(s, ShiftOp::Shr, rd, ib), mem)),
        Uop::ShrRCl(rd) => Ok((sh32(s, ShiftOp::Shr, rd, get8(s, RtReg8::CL)), mem)),
        _ => Ok((s, mem)),
    }
}

/// A byte-by-byte copy of `n` bytes of `mem` from `esi` on to `edi` on, each
/// address wrapping around at 32 bits: the segment after it, the addresses
/// and count where it ends, and the segmentation violation that stops it.
pub open spec fn movs_bytes(mem: Seq<u8>, esi: u32, edi: u32, n: u32) -> (Seq<u8>, u32, u32, u32, Option<Exception>)
    decreases n,
{
    if n == 0 {
        (mem, esi, edi, 0, None)
    } else if esi >= mem.len() {
        (mem, esi, edi, n, Some(Exception::SegmentationViolation(Offset32(esi))))
    } else if edi >= mem.len() {
        (mem, esi, edi, n, Some(Exception::SegmentationViolation(Offset32(edi))))
    } else {
        movs_bytes(mem.update(edi as int, mem[esi as int]), esi.wrapping_add(1), edi.wrapping_add(1), (n - 1) as u32)
    }
}

/// A copy of `n` double words, one by one, as `movs_bytes` does bytes.
pub open spec fn movs_dwords(mem: Seq<u8>, esi: u32, edi: u32, n: u32) -> (Seq<u8>, u32, u32, u32, Option<Exception>)
    decreases n,
{
    if n == 0 {
        (mem, esi, edi, 0, None)
    } else if esi + 4 > mem.len() {
        (mem, esi, edi, n, Some(Exception::SegmentationViolation(Offset32(esi))))
    } else if edi + 4 > mem.len() {
        (mem, esi, edi, n, Some(Exception::SegmentationViolation(Offset32(edi))))
    } else {
        movs_dwords(
            write_bytes(mem, edi as int, bytes32(read32_at(mem, esi as int))),
            esi.wrapping_add(4),
            edi.wrapping_add(4),
            (n - 1) as u32,
        )
    }
}

/// `n` stores of the byte `v` from `edi` on: the segment after them, where
/// they end, and the segmentation violation that stops them.
pub open spec fn stos_bytes(mem: Seq<u8>, edi: u32, n: u32, v: u8) -> (Seq<u8>, u32, u32, Option<Exception>)
    decreases n,
{
    if n == 0 {
        (mem, edi, 0, None)
    } else if edi >= mem.len() {
        (mem, edi, n, Some(Exception::SegmentationViolation(Offset32(edi))))
    } else {
        stos_bytes(mem.update(edi as int, v), edi.wrapping_add(1), (n - 1) as u32, v)
    }
}

/// `n` stores of the double word `v`, as `stos_bytes` does bytes.
pub open spec fn stos_dwords(mem: Seq<u8>, edi: u32, n: u32, v: u32) -> (Seq<u8>, u32, u32, Option<Exception>)
    decreases n,
{
    if n == 0 {
        (mem, edi, 0, None)
    } else if edi + 4 > mem.len() {
        (mem, edi, n, Some(Exception::SegmentationViolation(Offset32(edi))))
    } else {
        stos_dwords(write_bytes(mem, edi as int, bytes32(v)), edi.wrapping_add(4), (n - 1) as u32, v)
    }
}

/// A comparison of up to `n` pairs of bytes from `esi` and `edi` on, that
/// stops after the first pair that differs: where it ends, the last pair
/// compared (`a` and `b` before the first), and the segmentation violation
/// that stops it.
pub open spec fn compare_bytes(mem: Seq<u8>, esi: u32, edi: u32, n: u32, a: u8, b: u8) -> (u32, u32, u32, u8, u8, Option<Exception>)
    decreases n,
{
    if n == 0 {
        (esi, edi, 0, a, b, None)
    } else if esi >= mem.len() {
        (esi, edi, n, a, b, Some(Exception::SegmentationViolation(Offset32(esi))))
    } else if edi >= mem.len() {
        (esi, edi, n, a, b, Some(Exception::SegmentationViolation(Offset32(edi))))
    } else {
        let x = mem[esi as int];
        let y = mem[edi as int];
        if x != y {
            (esi.wrapping_add(1), edi.wrapping_add(1), (n - 1) as u32, x, y, None)
        } else {
            compare_bytes(mem, esi.wrapping_add(1), edi.wrapping_add(1), (n - 1) as u32, x, y)
        }
    }
}

/// A scan of up to `n` bytes from `edi` on that stops after the first byte
/// equal to `al`: where it ends, the last byte read (`v` before the first),
/// and the segmentation violation that stops it.
pub open spec fn scas_bytes(mem: Seq<u8>, edi: u32, n: u32, al: u8, v: u8) -> (u32, u32, u8, Option<Exception>)
    decreases n,
{
    if n == 0 {
        (edi, 0, v, None)
    } else if edi >= mem.len() {
        (edi, n, v, Some(Exception::SegmentationViolation(Offset32(edi))))
    } else {
        let x = mem[edi as int];
        if x == al {
            (edi.wrapping_add(1), (n - 1) as u32, x, None)
        } else {
            scas_bytes(mem, edi.wrapping_add(1), (n - 1) as u32, al, x)
        }
    }
}

/// What the minor micro operation `mop` does to the state `s` and the data
/// segment `mem`: the exception it raises, if any, and the state and segment
/// after it. A repeated string operation that faults has done the steps before
/// the fault; the compare and scan then have their registers where the fault
/// stopped them, the moves and stores leave them as they were.
#[verifier::opaque]
pub open spec fn minor_step(s: StateView, mem: Seq<u8>, mop: UopMinor) -> (Option<Exception>, StateView, Seq<u8>) {
    let ecx = get32(s, RtReg::ECX);
    let esi = get32(s, RtReg::ESI);
    let edi = get32(s, RtReg::EDI);
    match mop {
        UopMinor::Cdq => (None, set32(s, RtReg::EDX, if (get32(s, RtReg::EAX) as i32) < 0 { u32::MAX } else { 0 }), mem),
        UopMinor::Cld => (
            None,
            StateView {
                flags: FlagsRegister { static_value: Flags(with_bits(s.flags.static_value.0, 0x400, false)), ..s.flags },
                ..s
            },
            mem,
        ),
        UopMinor::Cpuid => {
            let c = spec_cpuid(get32(s, RtReg::EAX));
            (None, set32(set32(set32(set32(s, RtReg::EAX, c.eax), RtReg::EBX, c.ebx), RtReg::ECX, c.ecx), RtReg::EDX, c.edx), mem)
        },
        UopMinor::MulR(rd) => {
            let a = get32(s, RtReg::EAX);
            let b = get32(s, rd);
            let p = (a * b) as u64;
            (None, set32(set32(after_mul(s, LazyOp::Mul32(a, b)), RtReg::EAX, p as u32), RtReg::EDX, (p >> 32u64) as u32), mem)
        },
        UopMinor::RdTsc => (Some(Exception::RdTsc), s, mem),
        UopMinor::RepMovsb => if ecx == 0 {
            (None, s, mem)
        } else {
            let (m, e1, d1, c1, f) = movs_bytes(mem, esi, edi, ecx);
            match f {
                Some(x) => (Some(x), s, m),
                None => (None, set32(set32(set32(s, RtReg::ESI, e1), RtReg::EDI, d1), RtReg::ECX, c1), m),
            }
        },
        UopMinor::RepMovsd => if ecx == 0 {
            (None, s, mem)
        } else {
            let (m, e1, d1, c1, f) = movs_dwords(mem, esi, edi, ecx);
            match f {
                Some(x) => (Some(x), s, m),
                None => (None, set32(set32(set32(s, RtReg::ESI, e1), RtReg::EDI, d1), RtReg::ECX, c1), m),
            }
        },
        UopMinor::RepStosd => if ecx == 0 {
            (None, s, mem)
        } else {
            let (m, d1, c1, f) = stos_dwords(mem, edi, ecx, get32(s, RtReg::EAX));
            match f {
                Some(x) => (Some(x), s, m),
                None => (None, set32(set32(s, RtReg::EDI, d1), RtReg::ECX, c1), m),
            }
        },
        UopMinor::RepStosb => if ecx == 0 {
            (None, s, mem)
        } else {
            let (m, d1, c1, f) = stos_bytes(mem, edi, ecx, get8(s, RtReg8::AL));
            match f {
                Some(x) => (Some(x), s, m),
                None => (None, set32(set32(s, RtReg::EDI, d1), RtReg::ECX, c1), m),
            }
        },
        UopMinor::RepZCmpsb => if ecx == 0 {
            (None, s, mem)
        } else if esi >= mem.len() {
            (Some(Exception::SegmentationViolation(Offset32(esi))), s, mem)
        } else if edi >= mem.len() {
            (Some(Exception::SegmentationViolation(Offset32(edi))), s, mem)
        } else {
            let (e1, d1, c1, a, b, f) = compare_bytes(mem, esi, edi, ecx, mem[esi as int], mem[edi as int]);
            match f {
                Some(x) => (Some(x), set32(set32(set32(s, RtReg::ESI, e1), RtReg::EDI, d1), RtReg::ECX, c1), mem),
                None => (None, set32(set32(set32(bin8(s, BinOp::Sub, a, b).1, RtReg::ESI, e1), RtReg::EDI, d1), RtReg::ECX, c1), mem),
            }
        },
        UopMinor::RepNzScasb => if ecx == 0 {
            (None, s, mem)
        } else if edi >= mem.len() {
            (Some(Exception::SegmentationViolation(Offset32(edi))), s, mem)
        } else {
            let al = get8(s, RtReg8::AL);
            let (d1, c1, v, f) = scas_bytes(mem, edi, ecx, al, mem[edi as int]);
            match f {
                Some(x) => (Some(x), set32(set32(s, RtReg::EDI, d1), RtReg::ECX, c1), mem),
                None => (None, set32(set32(bin8(s, BinOp::Sub, al, v).1, RtReg::EDI, d1), RtReg::ECX, c1), mem),
            }
        },
    }
}

/// Which group of arithmetic micro operations `uop` is in.
pub fn alu_group_of(uop: &Uop) -> (r: u8)
    ensures
        r == alu_group(*uop),
{
    match uop {
        Uop::AddI8(..)
        | Uop::AddI16(..)
        | Uop::AddI(..)
        | Uop::AddR8(..)
        | Uop::AddR16(..)
        | Uop::AddR(..)
        | Uop::AddRMW(..)
        | Uop::IncR(..)
        | Uop::SubI8(..)
        | Uop::SubI16(..)
        | Uop::SubI(..)
        | Uop::SubR8(..)
        | Uop::SubR16(..)
        | Uop::SubR(..)
        | Uop::SubRMW(..)
        | Uop::DecR(..)
        | Uop::NegR(..)
        | Uop::CmpI8(..)
        | Uop::CmpI16(..)
        | Uop::CmpI(..)
        | Uop::CmpR8(..)
        | Uop::CmpR16(..)
        | Uop::CmpR(..) => 0,
        Uop::AndI8(..)
        | Uop::AndI16(..)
        | Uop::AndI(..)
        | Uop::AndR8(..)
        | Uop::AndR16(..)
        | Uop::AndR(..)
        | Uop::OrI8(..)
        | Uop::OrI16(..)
        | Uop::OrI(..)
        | Uop::OrR8(..)
        | Uop::OrR16(..)
        | Uop::OrR(..)
        | Uop::XorI8(..)
        | Uop::XorI16(..)
        | Uop::XorI(..)
        | Uop::XorR8(..)
        | Uop::XorR16(..)
        | Uop::XorR(..)
        | Uop::TestI8(..)
        | Uop::TestI16(..)
        | Uop::TestI(..)
        | Uop::TestR8(..)
        | Uop::TestR16(..)
        | Uop::TestR(..) => 1,
        _ => 2,
    }
}


/// The kind of the micro operation `uop`: a jump or call (0), a register
/// operation (1), a load (2), a store (3), a stack operation (4), or the rest
/// (5): arithmetic, minor operations, interrupts and the ones that cannot run.
pub open spec fn uop_group(uop: Uop) -> u8 {
    match uop {
        Uop::Jump(..) | Uop::JumpR(..) | Uop::JccU(..) | Uop::Jcc(..) | Uop::Jz(..) | Uop::Jnz(..)
        | Uop::Call(..) | Uop::CallR(..) | Uop::Ret(..) => 0,
        Uop::SetCC(..) | Uop::LoadConst(..) | Uop::LoadConst8(..) | Uop::LoadConst16(..) | Uop::Move(..)
        | Uop::Move8(..) | Uop::Move16(..) | Uop::NotR(..) | Uop::XchgR(..) | Uop::MovZx8(..) | Uop::MovZx16(..)
        | Uop::MovSx8(..) | Uop::MovSx16(..) | Uop::LeaBD(..) | Uop::LeaSIB(..) => 1,
        Uop::LoadR8(..) | Uop::LoadR16(..) | Uop::LoadR32(..) | Uop::LoadBD32(..) | Uop::LoadSIB32(..)
        | Uop::LoadR32CS(..) | Uop::LoadBD32CS(..) | Uop::LoadSIB32CS(..) => 2,
        Uop::StoreR8(..) | Uop::StoreR16(..) | Uop::StoreR32(..) | Uop::StoreBD32(..) | Uop::StoreSIB32(..) => 3,
        Uop::PushAd | Uop::PushI(..) | Uop::PushR(..) | Uop::PopAd | Uop::PopR(..) => 4,
        _ => 5,
    }
}

/// The address that the scaled index `sib` names in `s`: its base register
/// (if any) plus its index register scaled, wrapping around at 32 bits.
pub open spec fn sib_addr(s: StateView, sib: SibIndex) -> u32 {
    let (base, index, scale) = spec_to_sib(sib.0);
    let b = match base {
        Some(b) => get32(s, rt_of(b)),
        None => 0,
    };
    wrap_add(b, get32(s, rt_of(index)) << (scale.value() as u32))
}

/// What a register operation does to `s`.
#[verifier::opaque]
pub open spec fn reg_step(s: StateView, uop: Uop) -> StateView {
    match uop {
        Uop::SetCC(cc, rd) => {
            let t = StateView { flags: resolved_for_cc(s.lazy_op, s.flags, cc), ..s };
            set8(t, rd, if cc_holds(cc, t.flags) { 1 } else { 0 })
        },
        Uop::LoadConst(rd, id) => set32(s, rd, id),
        Uop::LoadConst8(rd, ib) => set8(s, rd, ib),
        Uop::LoadConst16(rd, iw) => set16(s, rd, iw),
        Uop::Move(rd, rs) => set32(s, rd, get32(s, rs)),
        Uop::Move8(rd, rs) => set8(s, rd, get8(s, rs)),
        Uop::Move16(rd, rs) => set16(s, rd, get16(s, rs)),
        Uop::NotR(rd) => set32(s, rd, !get32(s, rd)),
        Uop::XchgR(rd, rs) => set32(set32(s, rd, get32(s, rs)), rs, get32(s, rd)),
        Uop::MovZx8(rd, rs) => set32(s, rd, get8(s, rs) as u32),
        Uop::MovZx16(rd, rs) => set32(s, rd, get16(s, rs) as u32),
        Uop::MovSx8(rd, rs) => set32(s, rd, get8(s, rs) as i8 as i32 as u32),
        Uop::MovSx16(rd, rs) => set32(s, rd, get16(s, rs) as i16 as i32 as u32),
        Uop::LeaBD(rd, rb, disp) => set32(s, rd, get32(s, rb).wrapping_add(disp.0)),
        Uop::LeaSIB(rd, sib, disp) => set32(s, rd, sib_addr(s, sib).wrapping_add(disp.0)),
        _ => s,
    }
}

/// What a load does to `s`, reading the data segment `mem` or the code
/// segment `code`: the state after it, or the segmentation violation where
/// what it reads does not lie in the segment.
#[verifier::opaque]
pub open spec fn load_step(s: StateView, mem: Seq<u8>, code: Seq<u8>, uop: Uop) -> Result<StateView, Exception> {
    match uop {
        Uop::LoadR8(rd, rb) => {
            let a = get32(s, rb);
            if a < mem.len() { Ok(set8(s, rd, mem[a as int])) } else { Err(Exception::SegmentationViolation(Offset32(a))) }
        },
        Uop::LoadR16(rd, rb) => {
            let a = get32(s, rb);
            if a + 2 <= mem.len() { Ok(set16(s, rd, read16_at(mem, a as int))) } else { Err(Exception::SegmentationViolation(Offset32(a))) }
        },
        Uop::LoadR32(rd, rb) => {
            let a = get32(s, rb);
            if a + 4 <= mem.len() { Ok(set32(s, rd, read32_at(mem, a as int))) } else { Err(Exception::SegmentationViolation(Offset32(a))) }
        },
        Uop::LoadBD32(rd, rb, disp) => {
            let a = get32(s, rb).wrapping_add(disp.0);
            if a + 4 <= mem.len() { Ok(set32(s, rd, read32_at(mem, a as int))) } else { Err(Exception::SegmentationViolation(Offset32(a))) }
        },
        Uop::LoadSIB32(rd, sib, disp) => {
            let a = sib_addr(s, sib).wrapping_add(disp.0);
            if a + 4 <= mem.len() { Ok(set32(s, rd, read32_at(mem, a as int))) } else { Err(Exception::SegmentationViolation(Offset32(a))) }
        },
        Uop::LoadR32CS(rd, rb) => {
            let a = get32(s, rb);
            if a + 4 <= code.len() { Ok(set32(s, rd, read32_at(code, a as int))) } else { Err(Exception::SegmentationViolation(Offset32(a))) }
        },
        Uop::LoadBD32CS(rd, rb, disp) => {
            let a = get32(s, rb).wrapping_add(disp.0);
            if a + 4 <= code.len() { Ok(set32(s, rd, read32_at(code, a as int))) } else { Err(Exception::SegmentationViolation(Offset32(a))) }
        },
        Uop::LoadSIB32CS(rd, sib, disp) => {
            let a = sib_addr(s, sib).wrapping_add(disp.0);
            if a + 4 <= code.len() { Ok(set32(s, rd, read32_at(code, a as int))) } else { Err(Exception::SegmentationViolation(Offset32(a))) }
        },
        _ => Ok(s),
    }
}

/// What a store does to the data segment `mem`, from the registers in `s`:
/// the segment after it, or the segmentation violation where the value does
/// not fit in the segment.
#[verifier::opaque]
pub open spec fn store_step(s: StateView, mem: Seq<u8>, uop: Uop) -> Result<Seq<u8>, Exception> {
    match uop {
        Uop::StoreR8(rd, rb) => {
            let a = get32(s, rb);
            if a < mem.len() { Ok(mem.update(a as int, get8(s, rd))) } else { Err(Exception::SegmentationViolation(Offset32(a))) }
        },
        Uop::StoreR16(rd, rb) => {
            let a = get32(s, rb);
            if a + 2 <= mem.len() { Ok(write_bytes(mem, a as int, bytes16(get16(s, rd)))) } else { Err(Exception::SegmentationViolation(Offset32(a))) }
        },
        Uop::StoreR32(rd, rb) => {
            let a = get32(s, rb);
            if a + 4 <= mem.len() { Ok(write_bytes(mem, a as int, bytes32(get32(s, rd)))) } else { Err(Exception::SegmentationViolation(Offset32(a))) }
        },
        Uop::StoreBD32(rd, rb, disp) => {
            let a = get32(s, rb).wrapping_add(disp.0);
            if a + 4 <= mem.len() { Ok(write_bytes(mem, a as int, bytes32(get32(s, rd)))) } else { Err(Exception::SegmentationViolation(Offset32(a))) }
        },
        Uop::StoreSIB32(rd, sib, disp) => {
            let a = sib_addr(s, sib).wrapping_add(disp.0);
            if a + 4 <= mem.len() { Ok(write_bytes(mem, a as int, bytes32(get32(s, rd)))) } else { Err(Exception::SegmentationViolation(Offset32(a))) }
        },
        _ => Ok(mem),
    }
}

/// `s` and `mem` after pushing `v`: ESP down by 4 and `v` stored there; a
/// stack fault where it does not fit in `mem`.
pub open spec fn push_step(s: StateView, mem: Seq<u8>, v: u32) -> Result<(StateView, Seq<u8>), Exception> {
    let e = wrap_sub(get32(s, RtReg::ESP), 4);
    if e + 4 <= mem.len() {
        Ok((set32(s, RtReg::ESP, e), write_bytes(mem, e as int, bytes32(v))))
    } else {
        Err(Exception::StackFault)
    }
}

/// What a stack operation does to `s` and `mem`; a stack fault, which
/// changes nothing, where the stack does not lie in `mem`.
#[verifier::opaque]
pub open spec fn stack_step(s: StateView, mem: Seq<u8>, uop: Uop) -> Result<(StateView, Seq<u8>), Exception> {
    let esp = get32(s, RtReg::ESP);
    match uop {
        Uop::PushI(id) => push_step(s, mem, id),
        Uop::PushR(rd) => push_step(s, mem, get32(s, rd)),
        Uop::PushAd => {
            let bottom = wrap_sub(esp, 32);
            if bottom + 32 <= mem.len() {
                Ok((
                    set32(s, RtReg::ESP, bottom),
                    write_bytes(
                        mem,
                        bottom as int,
                        pushad_bytes(
                            seq![
                                get32(s, RtReg::EDI),
                                get32(s, RtReg::ESI),
                                get32(s, RtReg::EBP),
                                esp,
                                get32(s, RtReg::EBX),
                                get32(s, RtReg::EDX),
                                get32(s, RtReg::ECX),
                                get32(s, RtReg::EAX),
                            ],
                        ),
                    ),
                ))
            } else {
                Err(Exception::StackFault)
            }
        },
        Uop::PopR(rd) => if esp + 4 <= mem.len() {
            Ok((set32(set32(s, RtReg::ESP, wrap_add(esp, 4)), rd, read32_at(mem, esp as int)), mem))
        } else {
            Err(Exception::StackFault)
        },
        Uop::PopAd => if esp + 32 <= mem.len() {
            Ok((
                set32(
                    set32(
                        set32(
                            set32(
                                set32(
                                    set32(
                                        set32(set32(s, RtReg::EDI, read32_at(mem, esp as int)), RtReg::ESI, read32_at(mem, esp + 4)),
                                        RtReg::EBP,
                                        read32_at(mem, esp + 8),
                                    ),
                                    RtReg::EBX,
                                    read32_at(mem, esp + 16),
                                ),
                                RtReg::EDX,
                                read32_at(mem, esp + 20),
                            ),
                            RtReg::ECX,
                            read32_at(mem, esp + 24),
                        ),
                        RtReg::EAX,
                        read32_at(mem, esp + 28),
                    ),
                    RtReg::ESP,
                    wrap_add(esp, 32),
                ),
                mem,
            ))
        } else {
            Err(Exception::StackFault)
        },
        _ => Ok((s, mem)),
    }
}

/// What a micro operation other than a jump or call does to the state `s`
/// and the data segment `mem`, with the code segment `code`: the exception
/// it raises, if any, and the state and segment after it.
pub open spec fn data_step(s: StateView, mem: Seq<u8>, code: Seq<u8>, uop: Uop) -> (Option<Exception>, StateView, Seq<u8>) {
    let g = uop_group(uop);
    if g == 1 {
        (None, reg_step(s, uop), mem)
    } else if g == 2 {
        match load_step(s, mem, code, uop) {
            Ok(t) => (None, t, mem),
            Err(e) => (Some(e), s, mem),
        }
    } else if g == 3 {
        match store_step(s, mem, uop) {
            Ok(m) => (None, s, m),
            Err(e) => (Some(e), s, mem),
        }
    } else if g == 4 {
        match stack_step(s, mem, uop) {
            Ok((t, m)) => (None, t, m),
            Err(e) => (Some(e), s, mem),
        }
    } else {
        match uop {
            Uop::Minor(mop) => minor_step(s, mem, mop),
            Uop::Swi(ib) => (Some(Exception::Swi(ib)), s, mem),
            Uop::FetchNext(_) | Uop::Unsupported => (Some(Exception::Unimplemented(uop)), s, mem),
            _ => match alu_step(s, mem, uop) {
                Ok((t, m)) => (None, t, m),
                Err(e) => (Some(e), s, mem),
            },
        }
    }
}

/// Which kind of micro operation `uop` is.
pub fn uop_group_of(uop: &Uop) -> (r: u8)
    ensures
        r == uop_group(*uop),
{
    match uop {
        Uop::Jump(..) | Uop::JumpR(..) | Uop::JccU(..) | Uop::Jcc(..) | Uop::Jz(..) | Uop::Jnz(..)
        | Uop::Call(..) | Uop::CallR(..) | Uop::Ret(..) => 0,
        Uop::SetCC(..) | Uop::LoadConst(..) | Uop::LoadConst8(..) | Uop::LoadConst16(..) | Uop::Move(..)
        | Uop::Move8(..) | Uop::Move16(..) | Uop::NotR(..) | Uop::XchgR(..) | Uop::MovZx8(..) | Uop::MovZx16(..)
        | Uop::MovSx8(..) | Uop::MovSx16(..) | Uop::LeaBD(..) | Uop::LeaSIB(..) => 1,
        Uop::LoadR8(..) | Uop::LoadR16(..) | Uop::LoadR32(..) | Uop::LoadBD32(..) | Uop::LoadSIB32(..)
        | Uop::LoadR32CS(..) | Uop::LoadBD32CS(..) | Uop::LoadSIB32CS(..) => 2,
        Uop::StoreR8(..) | Uop::StoreR16(..) | Uop::StoreR32(..) | Uop::StoreBD32(..) | Uop::StoreSIB32(..) => 3,
        Uop::PushAd | Uop::PushI(..) | Uop::PushR(..) | Uop::PopAd | Uop::PopR(..) => 4,
        _ => 5,
    }
}

} // verus!
