//! Trace based micro IR decoder

use vstd::prelude::*;
use std::collections::BTreeMap;
use crate::ir86::decoder::{imm_result, imm_size, opcode_context, operandless, prefix_count, Decoder};
use crate::ir86::encoding::{BaseIndex32, GprIndex32, CC, MemOpr32, SrIndex};
use crate::ir86::fetch::{Fetch, SimpleFetcher};
use crate::ir86::ir::IrOp;
use crate::ir86::types::Offset32;
use crate::ume86::state::{rt8_of, rt_of, RtReg, RtReg8, StateView};
use crate::ume86::ume::semantics::data_step;
use crate::ume86::ume::uop::{AddrIndex, FuncIndex, Uop, UopMinor};

verus! {

broadcast use vstd::std_specs::btree::group_btree_axioms, vstd::laws_cmp::group_laws_cmp;

/// The most micro operations that the cache holds.
pub const UOP_CACHE_LIMIT: usize = 0x1000_0000;

/// The number of bytes equal to `b` at the end of `s`.
pub open spec fn trailing_count(s: Seq<u8>, b: u8) -> nat
    decreases s.len(),
{
    if s.len() == 0 || s.last() != b {
        0
    } else {
        1 + trailing_count(s.drop_last(), b)
    }
}

/// The micro operation that loads the address of `memopr` into `rd`.
pub open spec fn lea_uop(rd: RtReg, memopr: MemOpr32) -> Uop {
    match memopr.base_index {
        BaseIndex32::DispOnly => Uop::LoadConst(rd, memopr.disp.0),
        BaseIndex32::Base(base) => if memopr.disp.0 == 0 {
            Uop::Move(rd, rt_of(base))
        } else {
            Uop::LeaBD(rd, rt_of(base), memopr.disp)
        },
        BaseIndex32::Sib(sib) => Uop::LeaSIB(rd, sib, memopr.disp),
    }
}

/// Where a trace goes on after an instruction.
pub enum Next {
    /// With the next instruction.
    Continue,
    /// Nowhere: the trace ends.
    Stop,
    /// At the given address.
    Goto(Offset32),
}

/// The micro operation that loads the 32-bit value at `memopr` into `rd`.
pub open spec fn load32_uop(rd: RtReg, memopr: MemOpr32) -> Uop {
    match memopr.segment {
        SrIndex::CS => match memopr.base_index {
            BaseIndex32::DispOnly => Uop::LoadBD32CS(rd, RtReg::Zero, memopr.disp),
            BaseIndex32::Base(base) => if memopr.disp.0 == 0 {
                Uop::LoadR32CS(rd, rt_of(base))
            } else {
                Uop::LoadBD32CS(rd, rt_of(base), memopr.disp)
            },
            BaseIndex32::Sib(sib) => Uop::LoadSIB32CS(rd, sib, memopr.disp),
        },
        _ => match memopr.base_index {
            BaseIndex32::DispOnly => Uop::LoadBD32(rd, RtReg::Zero, memopr.disp),
            BaseIndex32::Base(base) => if memopr.disp.0 == 0 {
                Uop::LoadR32(rd, rt_of(base))
            } else {
                Uop::LoadBD32(rd, rt_of(base), memopr.disp)
            },
            BaseIndex32::Sib(sib) => Uop::LoadSIB32(rd, sib, memopr.disp),
        },
    }
}

/// The micro operation that stores `rd` to the 32 bits at `memopr`; none
/// can store through the code segment.
pub open spec fn store32_uop(rd: RtReg, memopr: MemOpr32) -> Uop {
    match memopr.segment {
        SrIndex::CS => Uop::Unsupported,
        _ => match memopr.base_index {
            BaseIndex32::DispOnly => Uop::StoreBD32(rd, RtReg::Zero, memopr.disp),
            BaseIndex32::Base(base) => if memopr.disp.0 == 0 {
                Uop::StoreR32(rd, rt_of(base))
            } else {
                Uop::StoreBD32(rd, rt_of(base), memopr.disp)
            },
            BaseIndex32::Sib(sib) => Uop::StoreSIB32(rd, sib, memopr.disp),
        },
    }
}

/// `before` with a read-modify-write of the 32 bits at `ma` by `op`.
pub open spec fn rmw32(before: Seq<Uop>, ma: MemOpr32, op: Uop) -> Seq<Uop> {
    before.push(lea_uop(RtReg::MemAddr, ma)).push(Uop::LoadR32(RtReg::MemData, RtReg::MemAddr)).push(op)
        .push(Uop::StoreR32(RtReg::MemData, RtReg::MemAddr))
}

/// `before` with a read-modify-write of the 16 bits at `ma` by `op`.
pub open spec fn rmw16(before: Seq<Uop>, ma: MemOpr32, op: Uop) -> Seq<Uop> {
    before.push(lea_uop(RtReg::MemAddr, ma)).push(Uop::LoadR16(RtReg::MemData, RtReg::MemAddr)).push(op)
        .push(Uop::StoreR16(RtReg::MemData, RtReg::MemAddr))
}

/// `before` with a read-modify-write of the byte at `ma` by `op`.
pub open spec fn rmw8(before: Seq<Uop>, ma: MemOpr32, op: Uop) -> Seq<Uop> {
    before.push(lea_uop(RtReg::MemAddr, ma)).push(Uop::LoadR8(RtReg8::MemData, RtReg::MemAddr)).push(op)
        .push(Uop::StoreR8(RtReg8::MemData, RtReg::MemAddr))
}

/// What `translate` itself appends for the instructions it handles without a jump.
pub open spec fn translated_main(ir: IrOp, before: Seq<Uop>) -> Option<Seq<Uop>> {
    match ir {
        IrOp::ADD_Rd_Id(rd, id) => Some(before.push(Uop::AddI(rt_of(rd), id))),
        IrOp::ADD_Rd_Rd(rd, rs) => Some(before.push(Uop::AddR(rt_of(rd), rt_of(rs)))),
        IrOp::ADD_Rb_Rb(rd, rs) => Some(before.push(Uop::AddR8(rt8_of(rd), rt8_of(rs)))),
        IrOp::AND_Rd_Id(rd, id) => Some(before.push(Uop::AndI(rt_of(rd), id))),
        IrOp::AND_Rd_Rd(rd, rs) => Some(before.push(Uop::AndR(rt_of(rd), rt_of(rs)))),
        IrOp::AND_Rb_Ib(rd, ib) => Some(before.push(Uop::AndI8(rt8_of(rd), ib))),
        IrOp::CDQ => Some(before.push(Uop::Minor(UopMinor::Cdq))),
        IrOp::CLD => Some(before.push(Uop::Minor(UopMinor::Cld))),
        IrOp::CMP_Rb_Ib(rd, ib) => Some(before.push(Uop::CmpI8(rt8_of(rd), ib))),
        IrOp::CMP_Rd_Id(rd, id) => Some(before.push(Uop::CmpI(rt_of(rd), id))),
        IrOp::CMP_Rd_Rd(rd, rs) => Some(before.push(Uop::CmpR(rt_of(rd), rt_of(rs)))),
        IrOp::CPUID => Some(before.push(Uop::Minor(UopMinor::Cpuid))),
        IrOp::DEC_Rd(rd) => Some(before.push(Uop::DecR(rt_of(rd)))),
        IrOp::DIV_Rd(rd) => Some(before.push(Uop::DivR(rt_of(rd)))),
        IrOp::IDIV_Rd(rd) => Some(before.push(Uop::IDivR(rt_of(rd)))),
        IrOp::IMUL_Rd_Rd(rd, rs) => Some(before.push(Uop::IMulR(rt_of(rd), rt_of(rs)))),
        IrOp::INC_Rd(rd) => Some(before.push(Uop::IncR(rt_of(rd)))),
        IrOp::ADD_MdA32_Id(ma, id) => Some(rmw32(before, ma, Uop::AddI(RtReg::MemData, id))),
        IrOp::ADD_MdA32_Rd(ma, rs) => Some(rmw32(before, ma, Uop::AddR(RtReg::MemData, rt_of(rs)))),
        IrOp::ADD_Rd_MdA32(rd, ma) => Some(before.push(load32_uop(RtReg::MemData, ma)).push(Uop::AddR(rt_of(rd), RtReg::MemData))),
        IrOp::AND_MdA32_Id(ma, id) => Some(rmw32(before, ma, Uop::AndI(RtReg::MemData, id))),
        IrOp::CMP_MbA32_Ib(ma, ib) => Some(before.push(lea_uop(RtReg::MemAddr, ma)).push(Uop::LoadR8(RtReg8::MemData, RtReg::MemAddr)).push(Uop::CmpI8(RtReg8::MemData, ib))),
        IrOp::CMP_MdA32_Id(ma, id) => Some(before.push(load32_uop(RtReg::MemData, ma)).push(Uop::CmpI(RtReg::MemData, id))),
        IrOp::CMP_MdA32_Rd(ma, rs) => Some(before.push(load32_uop(RtReg::MemData, ma)).push(Uop::CmpR(RtReg::MemData, rt_of(rs)))),
        IrOp::CMP_Rd_MdA32(rd, ma) => Some(before.push(load32_uop(RtReg::MemData, ma)).push(Uop::CmpR(rt_of(rd), RtReg::MemData))),
        IrOp::CMP_MwA32_Iw(ma, iw) => Some(before.push(lea_uop(RtReg::MemAddr, ma)).push(Uop::LoadR16(RtReg::MemData, RtReg::MemAddr)).push(Uop::CmpI16(RtReg::MemData, iw))),
        IrOp::DEC_MdA32(ma) => Some(rmw32(before, ma, Uop::DecR(RtReg::MemData))),
        IrOp::IDIV_MdA32(ma) => Some(before.push(load32_uop(RtReg::MemData, ma)).push(Uop::IDivR(RtReg::MemData))),
        IrOp::IMUL_Rd_MdA32(rd, ma) => Some(before.push(load32_uop(RtReg::MemData, ma)).push(Uop::IMulR(rt_of(rd), RtReg::MemData))),
        IrOp::IMUL_Rd_MdA32_Id(rd, ma, id) => Some(before.push(load32_uop(RtReg::MemData, ma)).push(Uop::IMulRI(rt_of(rd), RtReg::MemData, id as i32))),
        IrOp::IMUL_Rd_Rd_Id(rd, rs, id) => Some(before.push(Uop::IMulRI(rt_of(rd), rt_of(rs), id as i32))),
        IrOp::INC_MdA32(ma) => Some(rmw32(before, ma, Uop::IncR(RtReg::MemData))),
        _ => None,
    }
}

/// What the table part 1 appends for the instructions it handles.
pub open spec fn translated_part1(ir: IrOp, before: Seq<Uop>) -> Option<Seq<Uop>> {
    match ir {
        IrOp::LEA_Rd_MdA32(rd, ma) => Some(before.push(lea_uop(rt_of(rd), ma))),
        IrOp::LEAVE => Some(before.push(Uop::Move(RtReg::ESP, RtReg::EBP)).push(Uop::PopR(RtReg::EBP))),
        IrOp::MOV_MbA32_Ib(ma, ib) => Some(before.push(Uop::LoadConst8(RtReg8::MemData, ib)).push(lea_uop(RtReg::MemAddr, ma)).push(Uop::StoreR8(RtReg8::MemData, RtReg::MemAddr))),
        IrOp::MOV_MbA32_Rb(ma, rb) => Some(before.push(lea_uop(RtReg::MemAddr, ma)).push(Uop::StoreR8(rt8_of(rb), RtReg::MemAddr))),
        IrOp::MOV_MdA32_Id(ma, id) => Some(before.push(Uop::LoadConst(RtReg::MemData, id)).push(store32_uop(RtReg::MemData, ma))),
        IrOp::MOV_MdA32_Rd(ma, rd) => Some(before.push(store32_uop(rt_of(rd), ma))),
        IrOp::MOV_MwA32_Iw(ma, iw) => Some(before.push(Uop::LoadConst16(RtReg::MemData, iw)).push(lea_uop(RtReg::MemAddr, ma)).push(Uop::StoreR16(RtReg::MemData, RtReg::MemAddr))),
        IrOp::MOV_MwA32_Rw(ma, rw) => Some(before.push(lea_uop(RtReg::MemAddr, ma)).push(Uop::StoreR16(rt_of(GprIndex32::spec_from(rw.index())), RtReg::MemAddr))),
        IrOp::MOV_Rb_Ib(rd, ib) => Some(before.push(Uop::LoadConst8(rt8_of(rd), ib))),
        IrOp::MOV_Rb_Rb(rd, rs) => Some(before.push(Uop::Move8(rt8_of(rd), rt8_of(rs)))),
        IrOp::MOV_Rb_MbA32(rd, ma) => Some(before.push(lea_uop(RtReg::MemAddr, ma)).push(Uop::LoadR8(rt8_of(rd), RtReg::MemAddr))),
        IrOp::MOV_Rw_MwA32(rd, ma) => Some(before.push(lea_uop(RtReg::MemAddr, ma)).push(Uop::LoadR16(rt_of(GprIndex32::spec_from(rd.index())), RtReg::MemAddr))),
        IrOp::MOV_Rd_Id(rd, id) => Some(before.push(Uop::LoadConst(rt_of(rd), id))),
        IrOp::MOV_Rd_MdA32(rd, memopr) => Some(before.push(load32_uop(rt_of(rd), memopr))),
        IrOp::MOVSX_Rd_MbA32(rd, ma) => Some(before.push(lea_uop(RtReg::MemAddr, ma)).push(Uop::LoadR8(RtReg8::MemData, RtReg::MemAddr)).push(Uop::MovSx8(rt_of(rd), RtReg8::MemData))),
        IrOp::MOVSX_Rd_Rb(rd, rs) => Some(before.push(Uop::MovSx8(rt_of(rd), rt8_of(rs)))),
        IrOp::MOVZX_Rd_Rb(rd, rs) => Some(before.push(Uop::MovZx8(rt_of(rd), rt8_of(rs)))),
        IrOp::MOVZX_Rd_MbA32(rd, rs) => Some(before.push(lea_uop(RtReg::MemAddr, rs)).push(Uop::LoadR8(RtReg8::MemData, RtReg::MemAddr)).push(Uop::MovZx8(rt_of(rd), RtReg8::MemData))),
        IrOp::MOVZX_Rd_MwA32(rd, ma) => Some(before.push(lea_uop(RtReg::MemAddr, ma)).push(Uop::LoadR16(RtReg::MemData, RtReg::MemAddr)).push(Uop::MovZx16(rt_of(rd), RtReg::MemData))),
        IrOp::MOVZX_Rd_Rw(rd, rs) => Some(before.push(Uop::MovZx16(rt_of(rd), rt_of(GprIndex32::spec_from(rs.index()))))),
        _ => None,
    }
}

/// What the table part 2 appends for the instructions it handles.
pub open spec fn translated_part2(ir: IrOp, before: Seq<Uop>) -> Option<Seq<Uop>> {
    match ir {
        IrOp::MUL_Rd(rd) => Some(before.push(Uop::Minor(UopMinor::MulR(rt_of(rd))))),
        IrOp::NEG_MdA32(ma) => Some(rmw32(before, ma, Uop::NegR(RtReg::MemData))),
        IrOp::NEG_Rd(rd) => Some(before.push(Uop::NegR(rt_of(rd)))),
        IrOp::NOT_Rd(rd) => Some(before.push(Uop::NotR(rt_of(rd)))),
        IrOp::OR_MdA32_Rd(ma, rs) => Some(rmw32(before, ma, Uop::OrR(RtReg::MemData, rt_of(rs)))),
        IrOp::OR_Rd_Id(rd, id) => Some(before.push(Uop::OrI(rt_of(rd), id))),
        IrOp::OR_Rd_Rd(rd, rs) => Some(before.push(Uop::OrR(rt_of(rd), rt_of(rs)))),
        IrOp::POPAD => Some(before.push(Uop::PopAd)),
        IrOp::POP_Rd(rd) => Some(before.push(Uop::PopR(rt_of(rd)))),
        IrOp::PUSHAD => Some(before.push(Uop::PushAd)),
        IrOp::PUSH_MdA32(ma) => Some(before.push(load32_uop(RtReg::MemData, ma)).push(Uop::PushR(RtReg::MemData))),
        IrOp::PUSH_Id(id) => Some(before.push(Uop::PushI(id))),
        IrOp::PUSH_Rd(rd) => Some(before.push(Uop::PushR(rt_of(rd)))),
        IrOp::RDTSC => Some(before.push(Uop::Minor(UopMinor::RdTsc))),
        IrOp::REPNZ_SCASB(_sr, _a32) => Some(before.push(Uop::Minor(UopMinor::RepNzScasb))),
        IrOp::SAR_MdA32_Ib(ma, ib) => Some(rmw32(before, ma, Uop::SarI(RtReg::MemData, ib))),
        IrOp::SAR_Rd_Cl(rd) => Some(before.push(Uop::SarRCl(rt_of(rd)))),
        IrOp::SAR_Rd_Ib(rd, ib) => Some(before.push(Uop::SarI(rt_of(rd), ib))),
        IrOp::SHL_MdA32_Cl(ma) => Some(rmw32(before, ma, Uop::ShlRCl(RtReg::MemData))),
        IrOp::SHL_MdA32_Ib(ma, ib) => Some(rmw32(before, ma, Uop::ShlI(RtReg::MemData, ib))),
        _ => None,
    }
}

/// What the table part 3 appends for the instructions it handles.
pub open spec fn translated_part3(ir: IrOp, before: Seq<Uop>) -> Option<Seq<Uop>> {
    match ir {
        IrOp::SHL_Rd_Cl(rd) => Some(before.push(Uop::ShlRCl(rt_of(rd)))),
        IrOp::SHL_Rd_Ib(rd, ib) => Some(before.push(Uop::ShlI(rt_of(rd), ib))),
        IrOp::SHL_Rw_Cl(rd) => Some(before.push(Uop::ShlRCl16(rt_of(GprIndex32::spec_from(rd.index()))))),
        IrOp::SHL_Rw_Ib(rd, ib) => Some(before.push(Uop::ShlI16(rt_of(GprIndex32::spec_from(rd.index())), ib))),
        IrOp::SHL_Rb_Cl(rd) => Some(before.push(Uop::ShlRCl8(rt8_of(rd)))),
        IrOp::SHL_Rb_Ib(rd, ib) => Some(before.push(Uop::ShlI8(rt8_of(rd), ib))),
        IrOp::SHR_Rb_Cl(rd) => Some(before.push(Uop::ShrRCl8(rt8_of(rd)))),
        IrOp::SHR_Rb_Ib(rd, ib) => Some(before.push(Uop::ShrI8(rt8_of(rd), ib))),
        IrOp::SHR_Rd_Cl(rd) => Some(before.push(Uop::ShrRCl(rt_of(rd)))),
        IrOp::SHR_Rd_Ib(rd, ib) => Some(before.push(Uop::ShrI(rt_of(rd), ib))),
        IrOp::SUB_MdA32_Id(ma, id) => Some(rmw32(before, ma, Uop::SubI(RtReg::MemData, id))),
        IrOp::SUB_MdA32_Rd(ma, rs) => Some(rmw32(before, ma, Uop::SubR(RtReg::MemData, rt_of(rs)))),
        IrOp::SUB_Rd_Id(rd, id) => Some(before.push(Uop::SubI(rt_of(rd), id))),
        IrOp::SUB_Rd_MdA32(rd, ma) => Some(before.push(load32_uop(RtReg::MemData, ma)).push(Uop::SubR(rt_of(rd), RtReg::MemData))),
        IrOp::SUB_Rd_Rd(rd, rs) => Some(before.push(Uop::SubR(rt_of(rd), rt_of(rs)))),
        IrOp::TEST_MbA32_Ib(ma, ib) => Some(before.push(lea_uop(RtReg::MemAddr, ma)).push(Uop::LoadR8(RtReg8::MemData, RtReg::MemAddr)).push(Uop::TestI8(RtReg8::MemData, ib))),
        IrOp::TEST_MdA32_Id(ma, id) => Some(before.push(load32_uop(RtReg::MemData, ma)).push(Uop::TestI(RtReg::MemData, id))),
        IrOp::TEST_Rb_Rb(rd, rs) => Some(before.push(Uop::TestR8(rt8_of(rd), rt8_of(rs)))),
        IrOp::TEST_Rd_Id(rd, id) => Some(before.push(Uop::TestI(rt_of(rd), id))),
        IrOp::TEST_Rd_Rd(rd, rs) => Some(before.push(Uop::TestR(rt_of(rd), rt_of(rs)))),
        _ => None,
    }
}

/// What the table part 4 appends for the instructions it handles.
pub open spec fn translated_part4(ir: IrOp, before: Seq<Uop>) -> Option<Seq<Uop>> {
    match ir {
        IrOp::XOR_Rd_Id(rd, id) => Some(before.push(Uop::XorI(rt_of(rd), id))),
        IrOp::XOR_Rd_MdA32(rd, ma) => Some(before.push(load32_uop(RtReg::MemData, ma)).push(Uop::XorR(rt_of(rd), RtReg::MemData))),
        IrOp::XOR_Rd_Rd(rd, rs) => Some(before.push(Uop::XorR(rt_of(rd), rt_of(rs)))),
        IrOp::MOV_Rd_Rd(rd, rs) => Some(if rd == rs { before } else { before.push(Uop::Move(rt_of(rd), rt_of(rs))) }),
        IrOp::XCHG_Rd_Rd(rd, rs) => Some(if rd == rs { before } else { before.push(Uop::XchgR(rt_of(rd), rt_of(rs))) }),
        _ => None,
    }
}

/// What translating the instruction `ir` appends to the micro operations
/// `before`, for the instructions whose translation goes on with the next
/// one: register, immediate and memory forms alike.
pub open spec fn translated(ir: IrOp, before: Seq<Uop>) -> Option<Seq<Uop>> {
    if translated_main(ir, before) is Some {
        translated_main(ir, before)
    } else if translated_part1(ir, before) is Some {
        translated_part1(ir, before)
    } else if translated_part2(ir, before) is Some {
        translated_part2(ir, before)
    } else if translated_part3(ir, before) is Some {
        translated_part3(ir, before)
    } else {
        translated_part4(ir, before)
    }
}

/// The one micro operation that `ir` becomes, for the register and
/// immediate forms of arithmetic and the minor instructions that become one.
pub open spec fn single_uop(ir: IrOp) -> Option<Uop> {
    match ir {
        IrOp::ADD_Rd_Id(rd, id) => Some(Uop::AddI(rt_of(rd), id)),
        IrOp::ADD_Rd_Rd(rd, rs) => Some(Uop::AddR(rt_of(rd), rt_of(rs))),
        IrOp::ADD_Rb_Rb(rd, rs) => Some(Uop::AddR8(rt8_of(rd), rt8_of(rs))),
        IrOp::AND_Rd_Id(rd, id) => Some(Uop::AndI(rt_of(rd), id)),
        IrOp::AND_Rd_Rd(rd, rs) => Some(Uop::AndR(rt_of(rd), rt_of(rs))),
        IrOp::AND_Rb_Ib(rd, ib) => Some(Uop::AndI8(rt8_of(rd), ib)),
        IrOp::CDQ => Some(Uop::Minor(UopMinor::Cdq)),
        IrOp::CLD => Some(Uop::Minor(UopMinor::Cld)),
        IrOp::CMP_Rb_Ib(rd, ib) => Some(Uop::CmpI8(rt8_of(rd), ib)),
        IrOp::CMP_Rd_Id(rd, id) => Some(Uop::CmpI(rt_of(rd), id)),
        IrOp::CMP_Rd_Rd(rd, rs) => Some(Uop::CmpR(rt_of(rd), rt_of(rs))),
        IrOp::CPUID => Some(Uop::Minor(UopMinor::Cpuid)),
        IrOp::DEC_Rd(rd) => Some(Uop::DecR(rt_of(rd))),
        IrOp::DIV_Rd(rd) => Some(Uop::DivR(rt_of(rd))),
        IrOp::IDIV_Rd(rd) => Some(Uop::IDivR(rt_of(rd))),
        IrOp::IMUL_Rd_Rd(rd, rs) => Some(Uop::IMulR(rt_of(rd), rt_of(rs))),
        IrOp::INC_Rd(rd) => Some(Uop::IncR(rt_of(rd))),
        _ => None,
    }
}

/// What translating a control transfer `ir` appends to the micro-operation
/// cache `before` and where the trace goes on: a jump to translated code
/// jumps there, one to code not yet translated follows it; a conditional
/// jump, an interrupt, a call and a return end the trace. Other instructions
/// never go on elsewhere.
pub open spec fn control_flow(ir: IrOp, map: Map<u32, u32>, next_eip: Offset32, before: Seq<Uop>, after: Seq<Uop>, r: Next) -> bool {
    match ir {
        IrOp::JMP_Jv(t) => if map.contains_key(t.0) {
            r == Next::Stop && after == before.push(Uop::Jump(AddrIndex(map[t.0])))
        } else {
            r == Next::Goto(t) && after == before
        },
        IrOp::JCC_Jv(cc, t) => r == Next::Stop && after == before.push(
            if map.contains_key(t.0) { Uop::Jcc(cc, AddrIndex(map[t.0])) } else { Uop::JccU(cc, t) },
        ).push(Uop::FetchNext(next_eip)),
        IrOp::INT_Ib(b) => r == Next::Stop && after == before.push(Uop::Swi(b)),
        IrOp::RET_D32(iw) => r == Next::Stop && after == before.push(Uop::Ret(iw)),
        IrOp::CALL_Jv(_) => r == Next::Stop && after.len() == before.len() + 1,
        _ => match translated(ir, before) {
            Some(a) => r == Next::Continue && after == a,
            None => r !is Goto,
        },
    }
}

/// Whether the 32-bit code `code`, loaded at `base`, holds at `eip` an
/// instruction that decodes whole with nothing but an immediate or a
/// displacement after its opcode.
pub open spec fn decodable(code: Seq<u8>, base: u32, eip: u32) -> bool {
    let s = code.skip(eip.wrapping_sub(base) as int);
    let n = prefix_count(s);
    let ctx = opcode_context(s.take(n as int), true);
    let op = s[n as int];
    let rest = s.skip(n + 1int);
    &&& n < s.len()
    &&& operandless(ctx, op) is Some || (imm_size(ctx, op) > 0 && rest.len() >= imm_size(ctx, op))
}

/// Whether `ir` is the instruction of that kind at `eip` in `code`.
pub open spec fn first_instruction(code: Seq<u8>, base: u32, eip: u32, ir: IrOp) -> bool {
    let s = code.skip(eip.wrapping_sub(base) as int);
    let n = prefix_count(s);
    let ctx = opcode_context(s.take(n as int), true);
    let op = s[n as int];
    let rest = s.skip(n + 1int);
    ||| operandless(ctx, op) == Some(ir)
    ||| imm_size(ctx, op) > 0 && rest.len() >= imm_size(ctx, op)
        && imm_result(ctx, op, rest, ((eip + n + 1) % 0x1_0000_0000) as u32, ir)
}

/// Translating MOV between two different 32-bit registers appends one micro
/// operation and goes on; running it raises nothing, sets the destination
/// (register slot `rd.index()`, EAX to EDI) to the source's former value,
/// and leaves every other register, the flags, the segments and memory as
/// they were.
pub proof fn lemma_mov_register_copies(rd: GprIndex32, rs: GprIndex32, before: Seq<Uop>, s: StateView, mem: Seq<u8>, code: Seq<u8>)
    requires
        rd != rs,
        s.regs.len() == 16,
    ensures
        translated(IrOp::MOV_Rd_Rd(rd, rs), before) matches Some(a) && a.len() == before.len() + 1 && a.drop_last() == before
            && ({
            let (f, t, m) = data_step(s, mem, code, a.last());
            &&& f is None
            &&& m == mem
            &&& t.regs.len() == 16
            &&& t.regs[rd.index() as int] == s.regs[rs.index() as int]
            &&& forall|j: int| 0 <= j < 16 && j != rd.index() ==> t.regs[j] == s.regs[j]
            &&& t.flags == s.flags && t.lazy_op == s.lazy_op && t.srs == s.srs
        }),
{
    let u = Uop::Move(rt_of(rd), rt_of(rs));
    assert(translated_main(IrOp::MOV_Rd_Rd(rd, rs), before) is None);
    assert(translated_part1(IrOp::MOV_Rd_Rd(rd, rs), before) is None);
    assert(translated_part2(IrOp::MOV_Rd_Rd(rd, rs), before) is None);
    assert(translated_part3(IrOp::MOV_Rd_Rd(rd, rs), before) is None);
    assert(rt_of(rd) != rt_of(rs));
    assert(translated(IrOp::MOV_Rd_Rd(rd, rs), before) == Some(before.push(u)));
    assert(before.push(u).drop_last() =~= before);
    assert(rt_of(rd).index() == rd.index() && rt_of(rs).index() == rs.index());
    assert(crate::ume86::ume::semantics::uop_group(u) == 1);
    assert(before.push(u).last() == u);
    reveal(crate::ume86::ume::semantics::reg_step);
    let t = crate::ume86::ume::semantics::reg_step(s, u);
    assert(data_step(s, mem, code, u) == (None::<crate::ume86::ume::Exception>, t, mem));
    assert(t.regs.len() == 16);
}

/// Translating XCHG between two different 32-bit registers appends one
/// micro operation and goes on; running it raises nothing, swaps the two
/// registers and leaves every other register, the flags and memory as they
/// were.
pub proof fn lemma_xchg_register_swaps(rd: GprIndex32, rs: GprIndex32, before: Seq<Uop>, s: StateView, mem: Seq<u8>, code: Seq<u8>)
    requires
        rd != rs,
        s.regs.len() == 16,
    ensures
        translated(IrOp::XCHG_Rd_Rd(rd, rs), before) matches Some(a) && a.len() == before.len() + 1 && a.drop_last() == before
            && ({
            let (f, t, m) = data_step(s, mem, code, a.last());
            &&& f is None
            &&& m == mem
            &&& t.regs.len() == 16
            &&& t.regs[rd.index() as int] == s.regs[rs.index() as int]
            &&& t.regs[rs.index() as int] == s.regs[rd.index() as int]
            &&& forall|j: int| 0 <= j < 16 && j != rd.index() && j != rs.index() ==> t.regs[j] == s.regs[j]
            &&& t.flags == s.flags && t.lazy_op == s.lazy_op && t.srs == s.srs
        }),
{
    let u = Uop::XchgR(rt_of(rd), rt_of(rs));
    assert(translated_main(IrOp::XCHG_Rd_Rd(rd, rs), before) is None);
    assert(translated_part1(IrOp::XCHG_Rd_Rd(rd, rs), before) is None);
    assert(translated_part2(IrOp::XCHG_Rd_Rd(rd, rs), before) is None);
    assert(translated_part3(IrOp::XCHG_Rd_Rd(rd, rs), before) is None);
    assert(rt_of(rd) != rt_of(rs));
    assert(translated(IrOp::XCHG_Rd_Rd(rd, rs), before) == Some(before.push(u)));
    assert(before.push(u).drop_last() =~= before);
    assert(rt_of(rd).index() == rd.index() && rt_of(rs).index() == rs.index());
    assert(crate::ume86::ume::semantics::uop_group(u) == 1);
    assert(before.push(u).last() == u);
    reveal(crate::ume86::ume::semantics::reg_step);
    let t = crate::ume86::ume::semantics::reg_step(s, u);
    assert(data_step(s, mem, code, u) == (None::<crate::ume86::ume::Exception>, t, mem));
    assert(t.regs.len() == 16);
}

/// Trace based micro IR decoder
pub struct TraceDecoder {
    code: Vec<u8>,
    code_base: Offset32,
    eip_to_fetch: Offset32,
    fetch_size: usize,
    max_step: usize,
    current_upc: AddrIndex,
    uop_cache: Vec<Uop>,
    address_map: BTreeMap<u32, u32>,
    functions: Vec<(Offset32, AddrIndex)>,
    function_map: BTreeMap<u32, u16>,
}

impl TraceDecoder {
    /// The code being translated.
    pub closed spec fn spec_code(&self) -> Seq<u8> {
        self.code@
    }

    /// The address of the first byte of the code.
    pub closed spec fn spec_code_base(&self) -> u32 {
        self.code_base.0
    }

    /// How many bytes of the code are translated: trailing padding is not.
    pub closed spec fn spec_fetch_size(&self) -> usize {
        self.fetch_size
    }

    /// The index of the current micro operation.
    pub closed spec fn spec_upc(&self) -> u32 {
        self.current_upc.0
    }

    /// The translated micro operations.
    pub closed spec fn spec_cache(&self) -> Seq<Uop> {
        self.uop_cache@
    }

    /// Where the translation of each translated address starts.
    pub closed spec fn spec_address_map(&self) -> Map<u32, u32> {
        self.address_map@
    }

    /// The called functions: their addresses and, once known, their translations.
    pub closed spec fn spec_functions(&self) -> Seq<(Offset32, AddrIndex)> {
        self.functions@
    }

    /// Whether decoding at the address to fetch, with `steps` steps, is sure
    /// to give the instruction there its micro operations: the address has
    /// none yet, a step is allowed, it lies in the code to fetch, the cache
    /// has room, and it holds an instruction with no byte after its opcode.
    pub closed spec fn translates_first(&self, steps: usize) -> bool {
        let eip = self.eip_to_fetch.0;
        let pos = eip.wrapping_sub(self.code_base.0);
        &&& !self.address_map@.contains_key(eip)
        &&& steps > 0
        &&& (pos as int) < self.fetch_size
        &&& self.uop_cache.len() + 4 <= UOP_CACHE_LIMIT
        &&& decodable(self.code@, self.code_base.0, eip)
    }

    /// Whether `ir` is the instruction at the address to fetch.
    pub closed spec fn first_at(&self, ir: IrOp) -> bool {
        first_instruction(self.code@, self.code_base.0, self.eip_to_fetch.0, ir)
    }

    /// The address where decoding goes on.
    pub closed spec fn spec_eip_to_fetch(&self) -> u32 {
        self.eip_to_fetch.0
    }

    /// Whether the next decoding, with the tracer's own step budget, is sure
    /// to give the instruction at the address to fetch its micro operations.
    pub closed spec fn translates_next(&self) -> bool {
        self.translates_first(self.max_step)
    }

    /// Whether every translated address starts within the micro operations
    /// or just past them.
    pub closed spec fn map_in_cache(&self) -> bool {
        forall|k: u32| #[trigger] self.address_map@.contains_key(k) ==> self.address_map@[k] <= self.uop_cache.len()
    }

    /// The internal invariant of the tracer.
    pub closed spec fn wf(&self) -> bool {
        &&& self.fetch_size <= self.code.len()
        &&& self.functions.len() <= 0xffff
        &&& forall|k: u32| #[trigger] self.function_map@.contains_key(k)
            ==> self.function_map@[k] < self.functions.len()
        &&& self.uop_cache.len() <= UOP_CACHE_LIMIT
    }

    /// Counts the bytes equal to `b` at the end of `code`.
    fn count_trailing(code: &Vec<u8>, b: u8) -> (r: usize)
        ensures
            r == trailing_count(code@, b),
            r <= code.len(),
    {
        let mut n: usize = 0;
        assert(code@.take(code.len() as int) =~= code@);
        while n < code.len() && code[code.len() - 1 - n] == b
            invariant
                n <= code.len(),
                trailing_count(code@, b) == n + trailing_count(code@.take(code.len() - n), b),
            decreases code.len() - n,
        {
            proof {
                let t = code@.take(code.len() - n);
                assert(t.drop_last() =~= code@.take(code.len() - n - 1));
            }
            n = n + 1;
        }
        proof {
            let t = code@.take(code.len() - n);
            if n < code.len() {
                assert(t.last() == code@[code.len() - 1 - n]);
            }
            assert(trailing_count(t, b) == 0);
        }
        n
    }

    /// Creates a new instance and translates the instruction at `eip`.
    pub fn new(code: Vec<u8>, code_base: Offset32, eip: Offset32) -> (r: Self)
        ensures
            r.wf(),
            r.spec_code() == code@,
            r.spec_code_base() == code_base.0,
            r.spec_fetch_size() == code.len() - trailing_count(code@, 0) - trailing_count(
                code@,
                0x90,
            ),
            r.spec_upc() == 0,
            r.map_in_cache(),
            ({
                let fetch_size = code.len() - trailing_count(code@, 0) - trailing_count(code@, 0x90);
                (eip.0.wrapping_sub(code_base.0) as int) < fetch_size && decodable(code@, code_base.0, eip.0) ==> {
                    &&& r.spec_address_map().contains_key(eip.0)
                    &&& r.spec_address_map()[eip.0] == 0
                    &&& exists|ir: IrOp, nx: Offset32, x: Next|
                        first_instruction(code@, code_base.0, eip.0, ir)
                            && control_flow(ir, r.spec_address_map(), nx, Seq::<Uop>::empty(), r.spec_cache(), x)
                }
            }),
    {
        let trailing_zeros = Self::count_trailing(&code, 0);
        let trailing_nops = Self::count_trailing(&code, 0x90);
        proof {
            if trailing_zeros > 0 {
                assert(code@.last() == 0);
                assert(trailing_nops == 0);
            }
        }
        let fetch_size = code.len() - trailing_zeros - trailing_nops;
        let mut result = Self {
            code,
            code_base,
            eip_to_fetch: eip,
            fetch_size,
            max_step: 1024,
            current_upc: AddrIndex(0),
            uop_cache: Vec::new(),
            function_map: BTreeMap::new(),
            address_map: BTreeMap::new(),
            functions: Vec::new(),
        };
        result._fetch_and_decode(1);
        result
    }

    /// The code being translated.
    pub fn code(&self) -> (r: &[u8])
        ensures
            r@ == self.spec_code(),
    {
        self.code.as_slice()
    }

    /// Returns the current micro operation, translating more code where needed.
    pub fn peek_uop(&mut self) -> (r: Option<Uop>)
        requires
            old(self).wf(),
        ensures
            final(self).wf(),
            final(self).spec_code() == old(self).spec_code(),
            r matches Some(u) ==> (u !is FetchNext && 0 <= final(self).spec_upc() < final(self).spec_cache().len()
                && u == final(self).spec_cache()[final(self).spec_upc() as int]),
            r is None ==> !(0 <= final(self).spec_upc() < final(self).spec_cache().len()
                && final(self).spec_cache()[final(self).spec_upc() as int] !is FetchNext),
            (0 <= old(self).spec_upc() < old(self).spec_cache().len()
                && old(self).spec_cache()[old(self).spec_upc() as int] !is FetchNext)
                ==> r == Some(old(self).spec_cache()[old(self).spec_upc() as int]) && *final(self) == *old(self),
    {
        let i = self.current_upc.0 as usize;
        if i < self.uop_cache.len() {
            let uop = self.uop_cache[i];
            match uop {
                Uop::FetchNext(eip) => self.handle_fetch_next(eip),
                _ => Some(uop),
            }
        } else {
            self._peek_uop2()
        }
    }

    /// Returns the current micro operation, translating more code where needed.
    pub fn fetch_uop(&mut self) -> (r: Option<Uop>)
        requires
            old(self).wf(),
        ensures
            final(self).wf(),
            final(self).spec_code() == old(self).spec_code(),
            r matches Some(u) ==> (u !is FetchNext && 0 <= final(self).spec_upc() < final(self).spec_cache().len()
                && u == final(self).spec_cache()[final(self).spec_upc() as int]),
            r is None ==> !(0 <= final(self).spec_upc() < final(self).spec_cache().len()
                && final(self).spec_cache()[final(self).spec_upc() as int] !is FetchNext),
            (0 <= old(self).spec_upc() < old(self).spec_cache().len()
                && old(self).spec_cache()[old(self).spec_upc() as int] !is FetchNext)
                ==> r == Some(old(self).spec_cache()[old(self).spec_upc() as int]) && *final(self) == *old(self),
    {
        self.peek_uop()
    }

    fn handle_fetch_next(&mut self, eip: Offset32) -> (r: Option<Uop>)
        requires
            old(self).wf(),
            (old(self).current_upc.0 as int) < old(self).uop_cache.len(),
        ensures
            final(self).wf(),
            final(self).spec_code() == old(self).spec_code(),
            r matches Some(u) ==> (u !is FetchNext && 0 <= final(self).spec_upc() < final(self).spec_cache().len()
                && u == final(self).spec_cache()[final(self).spec_upc() as int]),
            r is None ==> !(0 <= final(self).spec_upc() < final(self).spec_cache().len()
                && final(self).spec_cache()[final(self).spec_upc() as int] !is FetchNext),
    {
        self.eip_to_fetch = eip;
        if self.uop_cache.len() == 1 + self.current_upc.0 as usize {
            self.uop_cache.pop();
        } else {
            let addr_index = AddrIndex(self.uop_cache.len() as u32);
            self.replace(Uop::Jump(addr_index));
            self.current_upc = addr_index;
        }
        self.address_map.remove(&eip.0);
        self.fetch_and_decode();
        self.current_uop()
    }

    fn _peek_uop2(&mut self) -> (r: Option<Uop>)
        requires
            old(self).wf(),
        ensures
            final(self).wf(),
            final(self).spec_code() == old(self).spec_code(),
            r matches Some(u) ==> (u !is FetchNext && 0 <= final(self).spec_upc() < final(self).spec_cache().len()
                && u == final(self).spec_cache()[final(self).spec_upc() as int]),
            r is None ==> !(0 <= final(self).spec_upc() < final(self).spec_cache().len()
                && final(self).spec_cache()[final(self).spec_upc() as int] !is FetchNext),
    {
        self.fetch_and_decode();
        self.current_uop()
    }

    /// The micro operation at the current index, unless it is missing or
    /// still asks for a fetch.
    fn current_uop(&self) -> (r: Option<Uop>)
        ensures
            r matches Some(u) ==> (u !is FetchNext && 0 <= self.spec_upc() < self.spec_cache().len()
                && u == self.spec_cache()[self.spec_upc() as int]),
            (0 <= self.spec_upc() < self.spec_cache().len()
                && self.spec_cache()[self.spec_upc() as int] !is FetchNext) ==> r is Some,
    {
        let i = self.current_upc.0 as usize;
        if i < self.uop_cache.len() {
            match self.uop_cache[i] {
                Uop::FetchNext(_) => None,
                u => Some(u),
            }
        } else {
            None
        }
    }

    /// Advances the current UPC to the next instruction in the cache.
    pub fn advance_upc(&mut self)
        ensures
            final(self).spec_upc() == old(self).spec_upc().wrapping_add(1),
            final(self).spec_cache() == old(self).spec_cache(),
            final(self).spec_code() == old(self).spec_code(),
            final(self).spec_address_map() == old(self).spec_address_map(),
            old(self).wf() ==> final(self).wf(),
    {
        self.current_upc.0 = self.current_upc.0.wrapping_add(1);
    }

    /// Returns the current instruction pointer.
    pub fn current_upc(&self) -> (r: AddrIndex)
        ensures
            r.0 == self.spec_upc(),
    {
        self.current_upc
    }

    /// Sets the current instruction pointer.
    pub fn set_current_upc(&mut self, upc: AddrIndex)
        ensures
            final(self).spec_upc() == upc.0,
            final(self).spec_cache() == old(self).spec_cache(),
            final(self).spec_code() == old(self).spec_code(),
            final(self).spec_address_map() == old(self).spec_address_map(),
            old(self).wf() ==> final(self).wf(),
    {
        self.current_upc = upc;
    }

    /// Returns the address map: where the translation of each translated address starts.
    pub fn address_map(&self) -> (r: &BTreeMap<u32, u32>)
        ensures
            r@ == self.spec_address_map(),
    {
        &self.address_map
    }

    /// Returns the called functions: their addresses and, once known, their translations.
    pub fn functions(&self) -> (r: &[(Offset32, AddrIndex)])
        ensures
            r@ == self.spec_functions(),
    {
        self.functions.as_slice()
    }

    /// Returns the uop cache.
    pub fn uop_cache(&self) -> (r: &[Uop])
        ensures
            r@ == self.spec_cache(),
    {
        self.uop_cache.as_slice()
    }

    /// Resolves the target address to an AddrIndex, fetching and decoding if necessary.
    pub fn resolve_target(&mut self, target: Offset32) -> (r: Option<AddrIndex>)
        requires
            old(self).wf(),
        ensures
            final(self).wf(),
            final(self).spec_code() == old(self).spec_code(),
            final(self).spec_upc() == old(self).spec_upc(),
            old(self).spec_cache().len() <= final(self).spec_cache().len(),
            old(self).spec_functions().len() <= final(self).spec_functions().len(),
            old(self).spec_address_map().contains_key(target.0) ==> r == Some(
                AddrIndex(old(self).spec_address_map()[target.0]),
            ) && final(self).spec_address_map() == old(self).spec_address_map()
                && final(self).spec_cache() == old(self).spec_cache(),
            r matches Some(a) ==> final(self).spec_address_map().contains_key(target.0)
                && final(self).spec_address_map()[target.0] == a.0,
            r is None ==> !final(self).spec_address_map().contains_key(target.0),
    {
        match self.address_map.get(&target.0) {
            Some(addr_index) => Some(AddrIndex(*addr_index)),
            None => {
                let old_upc = self.current_upc;
                self.eip_to_fetch = target;
                self.fetch_and_decode();
                self.current_upc = old_upc;
                match self.address_map.get(&target.0) {
                    Some(a) => Some(AddrIndex(*a)),
                    None => None,
                }
            },
        }
    }

    /// Sets the instruction pointer to the specified EIP and updates the current UPC accordingly.
    ///
    /// Returns whether the code at `eip` could be translated; the UPC is
    /// left alone where it could not.
    pub fn set_eip(&mut self, eip: Offset32) -> (r: bool)
        requires
            old(self).wf(),
        ensures
            final(self).wf(),
            final(self).spec_code() == old(self).spec_code(),
            old(self).spec_functions().len() <= final(self).spec_functions().len(),
            r == final(self).spec_address_map().contains_key(eip.0),
            r ==> final(self).spec_upc() == final(self).spec_address_map()[eip.0],
            old(self).spec_address_map().contains_key(eip.0) ==> r,
    {
        self.eip_to_fetch = eip;
        match self.resolve_target(eip) {
            Some(v) => {
                self.current_upc = v;
                true
            },
            None => false,
        }
    }

    /// Replaces the current instruction with a new Uop in the cache.
    pub fn replace(&mut self, new_uop: Uop)
        requires
            (old(self).spec_upc() as int) < old(self).spec_cache().len(),
        ensures
            final(self).spec_cache() == old(self).spec_cache().update(
                old(self).spec_upc() as int,
                new_uop,
            ),
            final(self).spec_upc() == old(self).spec_upc(),
            final(self).spec_code() == old(self).spec_code(),
            final(self).spec_address_map() == old(self).spec_address_map(),
            old(self).wf() ==> final(self).wf(),
    {
        let i = self.current_upc.0 as usize;
        self.uop_cache[i] = new_uop;
    }

    /// The conditional jump to `target` on `cc`, as the cheapest micro operation.
    pub fn jcc_opt(cc: CC, target: AddrIndex) -> (r: Uop)
        ensures
            r == (match cc {
                CC::Z => Uop::Jz(target),
                CC::NZ => Uop::Jnz(target),
                _ => Uop::Jcc(cc, target),
            }),
    {
        match cc {
            CC::Z => Uop::Jz(target),
            CC::NZ => Uop::Jnz(target),
            _ => Uop::Jcc(cc, target),
        }
    }

    /// Resolves the function at the given index and updates the current UPC to point to it.
    ///
    /// Returns whether the function could be translated.
    pub fn resolve_and_invoke_function(&mut self, func_index: FuncIndex) -> (r: bool)
        requires
            old(self).wf(),
        ensures
            final(self).wf(),
            final(self).spec_code() == old(self).spec_code(),
            r ==> (func_index.0 as int) < old(self).spec_functions().len(),
            r ==> final(self).spec_upc() == (if old(self).spec_functions()[func_index.0 as int].1.0 != u32::MAX {
                old(self).spec_functions()[func_index.0 as int].1.0
            } else {
                final(self).spec_address_map()[old(self).spec_functions()[func_index.0 as int].0.0]
            }),
            (func_index.0 as int) >= old(self).spec_functions().len() ==> !r,
            (func_index.0 as int) < old(self).spec_functions().len() ==> (r <==> (
                old(self).spec_functions()[func_index.0 as int].1.0 != u32::MAX
                || final(self).spec_address_map().contains_key(old(self).spec_functions()[func_index.0 as int].0.0))),
            (func_index.0 as int) < old(self).spec_functions().len()
                && old(self).spec_address_map().contains_key(old(self).spec_functions()[func_index.0 as int].0.0) ==> r,
            r && old(self).spec_functions()[func_index.0 as int].1.0 == u32::MAX ==> final(self).spec_functions()[func_index.0 as int] == (
                old(self).spec_functions()[func_index.0 as int].0,
                AddrIndex(final(self).spec_address_map()[old(self).spec_functions()[func_index.0 as int].0.0]),
            ),
    {
        let i = func_index.0 as usize;
        if i >= self.functions.len() {
            return false;
        }
        let function = self.functions[i];
        if function.1.0 != u32::MAX {
            // Function already resolved
            self.current_upc = function.1;
            true
        } else if let Some(target) = self.address_map.get(&function.0.0) {
            // Function is not yet resolved, but we have a target address in the address map
            let target = AddrIndex(*target);
            self.functions[i] = (function.0, target);
            self.current_upc = target;
            true
        } else {
            // Function is not yet resolved, and we don't have a target address in the address map
            if !self.set_eip(function.0) {
                return false;
            }
            match self.address_map.get(&function.0.0) {
                Some(target) => {
                    let target = AddrIndex(*target);
                    self.functions[i] = (function.0, target);
                    true
                },
                None => false,
            }
        }
    }

    /// Generates a best effort LEA sequence for the given memory operand and destination register.
    pub fn generate_lea(rd: RtReg, memopr: MemOpr32) -> (r: Uop)
        ensures
            r == lea_uop(rd, memopr),
    {
        match memopr.base_index {
            BaseIndex32::DispOnly => Uop::LoadConst(rd, memopr.disp.0),
            BaseIndex32::Base(base) => {
                if memopr.disp.0 == 0 {
                    Uop::Move(rd, RtReg::from(base))
                } else {
                    Uop::LeaBD(rd, RtReg::from(base), memopr.disp)
                }
            },
            BaseIndex32::Sib(sib) => Uop::LeaSIB(rd, sib, memopr.disp),
        }
    }

    /// Generates a best effort load sequence for the given memory operand and destination register.
    pub fn generate_load32(rd: RtReg, memopr: MemOpr32) -> (r: Uop)
        ensures
            r == load32_uop(rd, memopr),
    {
        match memopr.segment {
            SrIndex::CS => match memopr.base_index {
                BaseIndex32::DispOnly => Uop::LoadBD32CS(rd, RtReg::Zero, memopr.disp),
                BaseIndex32::Base(base) => {
                    if memopr.disp.0 == 0 {
                        Uop::LoadR32CS(rd, RtReg::from(base))
                    } else {
                        Uop::LoadBD32CS(rd, RtReg::from(base), memopr.disp)
                    }
                },
                BaseIndex32::Sib(sib) => Uop::LoadSIB32CS(rd, sib, memopr.disp),
            },
            _ => match memopr.base_index {
                BaseIndex32::DispOnly => Uop::LoadBD32(rd, RtReg::Zero, memopr.disp),
                BaseIndex32::Base(base) => {
                    if memopr.disp.0 == 0 {
                        Uop::LoadR32(rd, RtReg::from(base))
                    } else {
                        Uop::LoadBD32(rd, RtReg::from(base), memopr.disp)
                    }
                },
                BaseIndex32::Sib(sib) => Uop::LoadSIB32(rd, sib, memopr.disp),
            },
        }
    }

    /// Generates a best effort store sequence for the given memory operand and source register.
    ///
    /// A store through the code segment cannot be translated.
    pub fn generate_store32(rd: RtReg, memopr: MemOpr32) -> (r: Uop)
        ensures
            r == store32_uop(rd, memopr),
    {
        match memopr.segment {
            SrIndex::CS => Uop::Unsupported,
            _ => match memopr.base_index {
                BaseIndex32::DispOnly => Uop::StoreBD32(rd, RtReg::Zero, memopr.disp),
                BaseIndex32::Base(base) => {
                    if memopr.disp.0 == 0 {
                        Uop::StoreR32(rd, RtReg::from(base))
                    } else {
                        Uop::StoreBD32(rd, RtReg::from(base), memopr.disp)
                    }
                },
                BaseIndex32::Sib(sib) => Uop::StoreSIB32(rd, sib, memopr.disp),
            },
        }
    }

    /// Emits a read-modify-write sequence for a 32-bit memory operand, with `op`
    /// applied to the loaded value.
    pub fn emit_rmw32(uop_cache: &mut Vec<Uop>, ma: MemOpr32, op: Uop)
        ensures
            final(uop_cache)@ == rmw32(old(uop_cache)@, ma, op),
    {
        uop_cache.push(Self::generate_lea(RtReg::MemAddr, ma));
        uop_cache.push(Uop::LoadR32(RtReg::MemData, RtReg::MemAddr));
        uop_cache.push(op);
        uop_cache.push(Uop::StoreR32(RtReg::MemData, RtReg::MemAddr));
    }

    /// Emits a read-modify-write sequence for a 16-bit memory operand, with `op`
    /// applied to the loaded value.
    pub fn emit_rmw16(uop_cache: &mut Vec<Uop>, ma: MemOpr32, op: Uop)
        ensures
            final(uop_cache)@ == rmw16(old(uop_cache)@, ma, op),
    {
        uop_cache.push(Self::generate_lea(RtReg::MemAddr, ma));
        uop_cache.push(Uop::LoadR16(RtReg::MemData, RtReg::MemAddr));
        uop_cache.push(op);
        uop_cache.push(Uop::StoreR16(RtReg::MemData, RtReg::MemAddr));
    }

    /// Emits a read-modify-write sequence for an 8-bit memory operand, with `op`
    /// applied to the loaded value.
    pub fn emit_rmw8(uop_cache: &mut Vec<Uop>, ma: MemOpr32, op: Uop)
        ensures
            final(uop_cache)@ == rmw8(old(uop_cache)@, ma, op),
    {
        uop_cache.push(Self::generate_lea(RtReg::MemAddr, ma));
        uop_cache.push(Uop::LoadR8(RtReg8::MemData, RtReg::MemAddr));
        uop_cache.push(op);
        uop_cache.push(Uop::StoreR8(RtReg8::MemData, RtReg::MemAddr));
    }

    /// Fetches and decodes next chunk of instructions.
    pub fn fetch_and_decode(&mut self)
        requires
            old(self).wf(),
        ensures
            final(self).wf(),
            final(self).spec_code() == old(self).spec_code(),
            final(self).spec_upc() == old(self).spec_upc(),
            final(self).spec_code_base() == old(self).spec_code_base(),
            final(self).spec_fetch_size() == old(self).spec_fetch_size(),
            old(self).spec_cache().len() <= final(self).spec_cache().len(),
            old(self).spec_functions().len() <= final(self).spec_functions().len(),
            final(self).spec_cache().subrange(0, old(self).spec_cache().len() as int) == old(self).spec_cache(),
            final(self).spec_functions().subrange(0, old(self).spec_functions().len() as int)
                == old(self).spec_functions(),
            forall|k: u32| #[trigger] old(self).spec_address_map().contains_key(k)
                ==> final(self).spec_address_map().contains_key(k)
                && final(self).spec_address_map()[k] == old(self).spec_address_map()[k],
            old(self).translates_next() ==> final(self).spec_address_map().contains_key(old(self).spec_eip_to_fetch())
                && final(self).spec_address_map()[old(self).spec_eip_to_fetch()] == old(self).spec_cache().len(),
            old(self).map_in_cache() ==> final(self).map_in_cache(),
    {
        self._fetch_and_decode(self.max_step);
    }

    /// Fetches and decodes next chunk of instructions, up to `max_step` instructions.
    fn _fetch_and_decode(&mut self, steps: usize)
        requires
            old(self).wf(),
        ensures
            final(self).wf(),
            final(self).spec_code() == old(self).spec_code(),
            final(self).spec_upc() == old(self).spec_upc(),
            final(self).spec_code_base() == old(self).spec_code_base(),
            final(self).spec_fetch_size() == old(self).spec_fetch_size(),
            old(self).spec_cache().len() <= final(self).spec_cache().len(),
            old(self).spec_functions().len() <= final(self).spec_functions().len(),
            old(self).spec_address_map().contains_key(old(self).eip_to_fetch.0) ==> *final(self) == *old(self),
            final(self).spec_cache().subrange(0, old(self).spec_cache().len() as int) == old(self).spec_cache(),
            final(self).spec_functions().subrange(0, old(self).spec_functions().len() as int)
                == old(self).spec_functions(),
            forall|k: u32| #[trigger] old(self).spec_address_map().contains_key(k)
                ==> final(self).spec_address_map().contains_key(k)
                && final(self).spec_address_map()[k] == old(self).spec_address_map()[k],
            old(self).translates_first(steps) ==> final(self).spec_address_map().contains_key(old(self).eip_to_fetch.0)
                && final(self).spec_address_map()[old(self).eip_to_fetch.0] == old(self).spec_cache().len(),
            old(self).map_in_cache() ==> final(self).map_in_cache(),
            old(self).translates_first(steps) && steps == 1 ==> exists|ir: IrOp, nx: Offset32, x: Next|
                old(self).first_at(ir) && control_flow(ir, final(self).spec_address_map(), nx, old(self).spec_cache(), final(self).spec_cache(), x),
    {
        let mut max_step = steps;
        let ghost mut ir0 = IrOp::NOP;
        let ghost mut nx0 = Offset32(0);
        let ghost mut x0 = Next::Continue;
        let current_eip = self.eip_to_fetch;
        let ghost first = false;
        let ghost sure = old(self).translates_first(steps);
        let ghost eip0 = current_eip.0;
        let ghost len0 = self.uop_cache.len();
        if self.address_map.get(&current_eip.0).is_some() {
            return;
        }

        let mut decoder = Decoder::with_use32();
        let mut fetcher = SimpleFetcher::new(self.code.as_slice(), self.code_base);
        fetcher.set_pos(current_eip.0.wrapping_sub(self.code_base.0) as usize);
        let ghost pos0 = fetcher.spec_pos();
        proof {
            let b = self.code_base.0;
            let d = eip0.wrapping_sub(b);
            assert(((b as u64 + d as u64) % 0x1_0000_0000) as u32 == eip0) by (bit_vector)
                requires
                    d == eip0.wrapping_sub(b),
            ;
        }

        while max_step > 0 && fetcher.pos() < self.fetch_size && self.uop_cache.len() + 4 <= UOP_CACHE_LIMIT
            invariant
                self.wf(),
                self.code@ == old(self).code@,
                self.current_upc == old(self).current_upc,
                self.code_base == old(self).code_base,
                self.fetch_size == old(self).fetch_size,
                old(self).uop_cache.len() <= self.uop_cache.len(),
                old(self).functions.len() <= self.functions.len(),
                self.uop_cache@.subrange(0, old(self).uop_cache@.len() as int) == old(self).uop_cache@,
                self.functions@.subrange(0, old(self).functions@.len() as int) == old(self).functions@,
                forall|k: u32| #[trigger] old(self).address_map@.contains_key(k)
                    ==> self.address_map@.contains_key(k) && self.address_map@[k] == old(self).address_map@[k],
                sure == old(self).translates_first(steps),
                eip0 == old(self).eip_to_fetch.0,
                len0 == old(self).uop_cache.len(),
                sure && !first ==> {
                    &&& self.address_map@ == old(self).address_map@
                    &&& self.uop_cache@ == old(self).uop_cache@
                    &&& fetcher.spec_pos() == pos0
                    &&& fetcher.bytes() == old(self).code@
                    &&& fetcher.base() == old(self).code_base.0
                    &&& max_step == steps
                    &&& decoder.use32
                    &&& pos0 == eip0.wrapping_sub(old(self).code_base.0) as usize
                    &&& fetcher.eip() == eip0
                },
                sure && first ==> self.address_map@.contains_key(eip0) && self.address_map@[eip0] == len0,
                old(self).map_in_cache() ==> self.map_in_cache(),
                max_step <= steps,
                first ==> max_step < steps,
                sure && first && steps == 1 ==> old(self).first_at(ir0)
                    && control_flow(ir0, self.address_map@, nx0, old(self).uop_cache@, self.uop_cache@, x0),
            ensures
                sure ==> first,
            decreases max_step,
        {
            max_step -= 1;
            let source_eip = fetcher.current_eip();

            if let Some(target) = self.address_map.get(&source_eip.0) {
                self.uop_cache.push(Uop::Jump(AddrIndex(*target)));
                break;
            }

            let ir = match decoder.decode(&mut fetcher) {
                Ok(ir) => ir,
                Err(_) => {
                    break;
                },
            };

            let addr_index = AddrIndex(self.uop_cache.len() as u32);
            self.address_map.insert(source_eip.0, addr_index.0);
            proof {
                first = true;
            }

            let next_eip = fetcher.current_eip();
            let next = Self::translate(
                &mut self.uop_cache,
                &mut self.functions,
                &mut self.function_map,
                &self.address_map,
                ir,
                next_eip,
            );
            proof {
                ir0 = ir;
                nx0 = next_eip;
                x0 = next;
            }
            match next {
                Next::Continue => {},
                Next::Stop => {
                    break;
                },
                Next::Goto(target) => {
                    fetcher.set_pos(target.0.wrapping_sub(self.code_base.0) as usize);
                },
            }
        }
        self.eip_to_fetch = fetcher.current_eip();
        proof {
            if sure && steps == 1 {
                assert(first);
                assert(old(self).first_at(ir0));
                assert(control_flow(ir0, self.spec_address_map(), nx0, old(self).spec_cache(), self.spec_cache(), x0));
            }
        }
    }

    /// Appends the one micro operation that `ir` becomes.
    fn emit_single(uop_cache: &mut Vec<Uop>, ir: IrOp)
        requires
            single_uop(ir) is Some,
        ensures
            final(uop_cache)@ == old(uop_cache)@.push(single_uop(ir)->0),
    {
        match ir {
            IrOp::ADD_Rd_Id(rd, id) => {
                uop_cache.push(Uop::AddI(RtReg::from(rd), id));
            }
            IrOp::ADD_Rd_Rd(rd, rs) => {
                uop_cache.push(Uop::AddR(RtReg::from(rd), RtReg::from(rs)));
            }
            IrOp::ADD_Rb_Rb(rd, rs) => {
                uop_cache.push(Uop::AddR8(RtReg8::from(rd), RtReg8::from(rs)));
            }
            IrOp::AND_Rd_Id(rd, id) => {
                uop_cache.push(Uop::AndI(RtReg::from(rd), id));
            }
            IrOp::AND_Rd_Rd(rd, rs) => {
                uop_cache.push(Uop::AndR(RtReg::from(rd), RtReg::from(rs)));
            }
            IrOp::AND_Rb_Ib(rd, ib) => {
                uop_cache.push(Uop::AndI8(RtReg8::from(rd), ib));
            }
            IrOp::CDQ => {
                uop_cache.push(Uop::Minor(UopMinor::Cdq));
            }
            IrOp::CLD => {
                uop_cache.push(Uop::Minor(UopMinor::Cld));
            }
            IrOp::CMP_Rb_Ib(rd, ib) => {
                uop_cache.push(Uop::CmpI8(RtReg8::from(rd), ib));
            }
            IrOp::CMP_Rd_Id(rd, id) => {
                uop_cache.push(Uop::CmpI(RtReg::from(rd), id));
            }
            IrOp::CMP_Rd_Rd(rd, rs) => {
                uop_cache.push(Uop::CmpR(RtReg::from(rd), RtReg::from(rs)));
            }
            IrOp::CPUID => {
                uop_cache.push(Uop::Minor(UopMinor::Cpuid));
            }
            IrOp::DEC_Rd(rd) => {
                uop_cache.push(Uop::DecR(RtReg::from(rd)));
            }
            IrOp::DIV_Rd(rd) => {
                uop_cache.push(Uop::DivR(RtReg::from(rd)));
            }
            IrOp::IDIV_Rd(rd) => {
                uop_cache.push(Uop::IDivR(RtReg::from(rd)));
            }
            IrOp::IMUL_Rd_Rd(rd, rs) => {
                uop_cache.push(Uop::IMulR(RtReg::from(rd), RtReg::from(rs)));
            }
            IrOp::INC_Rd(rd) => {
                uop_cache.push(Uop::IncR(RtReg::from(rd)));
            }
            _ => {},
        }
    }

    /// Appends the micro operations of one instruction, and says where the
    /// trace goes on.
    #[verifier::spinoff_prover]
    #[verifier::rlimit(60)]
    fn translate(
        uop_cache: &mut Vec<Uop>,
        functions: &mut Vec<(Offset32, AddrIndex)>,
        function_map: &mut BTreeMap<u32, u16>,
        address_map: &BTreeMap<u32, u32>,
        ir: IrOp,
        next_eip: Offset32,
    ) -> (r: Next)
        requires
            old(uop_cache).len() + 4 <= UOP_CACHE_LIMIT,
            old(functions).len() <= 0xffff,
            forall|k: u32| #[trigger] old(function_map)@.contains_key(k)
                ==> old(function_map)@[k] < old(functions).len(),
        ensures
            final(uop_cache).len() <= UOP_CACHE_LIMIT,
            final(functions).len() <= 0xffff,
            forall|k: u32| #[trigger] final(function_map)@.contains_key(k)
                ==> final(function_map)@[k] < final(functions).len(),
            old(uop_cache).len() <= final(uop_cache).len(),
            old(functions).len() <= final(functions).len(),
            final(uop_cache)@.subrange(0, old(uop_cache)@.len() as int) == old(uop_cache)@,
            final(functions)@.subrange(0, old(functions)@.len() as int) == old(functions)@,
            control_flow(ir, address_map@, next_eip, old(uop_cache)@, final(uop_cache)@, r),
    {
        match ir {
            IrOp::ADD_Rd_Id(..)
            | IrOp::ADD_Rd_Rd(..)
            | IrOp::ADD_Rb_Rb(..)
            | IrOp::AND_Rd_Id(..)
            | IrOp::AND_Rd_Rd(..)
            | IrOp::AND_Rb_Ib(..)
            | IrOp::CDQ
            | IrOp::CLD
            | IrOp::CMP_Rb_Ib(..)
            | IrOp::CMP_Rd_Id(..)
            | IrOp::CMP_Rd_Rd(..)
            | IrOp::CPUID
            | IrOp::DEC_Rd(..)
            | IrOp::DIV_Rd(..)
            | IrOp::IDIV_Rd(..)
            | IrOp::IMUL_Rd_Rd(..)
            | IrOp::INC_Rd(..) => {
                Self::emit_single(uop_cache, ir);
            }
            IrOp::ADD_MdA32_Id(ma, id) => {
                Self::emit_rmw32(uop_cache, ma, Uop::AddI(RtReg::MemData, id));
            }
            IrOp::ADD_MdA32_Rd(ma, rs) => {
                Self::emit_rmw32(uop_cache, ma, Uop::AddR(RtReg::MemData, RtReg::from(rs)));
            }
            IrOp::ADD_Rd_MdA32(rd, ma) => {
                uop_cache
                    .push(Self::generate_load32(RtReg::MemData, ma));
                uop_cache.push(Uop::AddR(RtReg::from(rd), RtReg::MemData));
            }

            IrOp::AND_MdA32_Id(ma, id) => {
                Self::emit_rmw32(uop_cache, ma, Uop::AndI(RtReg::MemData, id));
            }

            IrOp::CALL_Jv(target) => {
                let func_index = match function_map.get(&target.0) {
                    Some(f) => FuncIndex(*f),
                    None => {
                        if functions.len() >= 0xffff {
                            uop_cache.push(Uop::Unsupported);
                            return Next::Stop;
                        }
                        let func_index = FuncIndex(functions.len() as u16);
                        let target2 = match address_map.get(&target.0) {
                            Some(a) => AddrIndex(*a),
                            None => AddrIndex::bad_address(),
                        };
                        functions.push((target, target2));
                        function_map.insert(target.0, func_index.0);
                        func_index
                    },
                };
                uop_cache.push(Uop::Call(func_index, next_eip));
                return Next::Stop;
            }


            IrOp::CMP_MbA32_Ib(ma, ib) => {
                uop_cache.push(Self::generate_lea(RtReg::MemAddr, ma));
                uop_cache
                    .push(Uop::LoadR8(RtReg8::MemData, RtReg::MemAddr));
                uop_cache.push(Uop::CmpI8(RtReg8::MemData, ib));
            }
            IrOp::CMP_MdA32_Id(ma, id) => {
                uop_cache
                    .push(Self::generate_load32(RtReg::MemData, ma));
                uop_cache.push(Uop::CmpI(RtReg::MemData, id));
            }
            IrOp::CMP_MdA32_Rd(ma, rs) => {
                uop_cache
                    .push(Self::generate_load32(RtReg::MemData, ma));
                uop_cache.push(Uop::CmpR(RtReg::MemData, RtReg::from(rs)));
            }
            IrOp::CMP_Rd_MdA32(rd, ma) => {
                uop_cache
                    .push(Self::generate_load32(RtReg::MemData, ma));
                uop_cache.push(Uop::CmpR(RtReg::from(rd), RtReg::MemData));
            }
            IrOp::CMP_MwA32_Iw(ma, iw) => {
                uop_cache.push(Self::generate_lea(RtReg::MemAddr, ma));
                uop_cache
                    .push(Uop::LoadR16(RtReg::MemData, RtReg::MemAddr));
                uop_cache.push(Uop::CmpI16(RtReg::MemData, iw));
            }

            IrOp::DEC_MdA32(ma) => {
                Self::emit_rmw32(uop_cache, ma, Uop::DecR(RtReg::MemData));
            }

            IrOp::IDIV_MdA32(ma) => {
                uop_cache
                    .push(Self::generate_load32(RtReg::MemData, ma));
                uop_cache.push(Uop::IDivR(RtReg::MemData));
            }

            IrOp::IMUL_Rd_MdA32(rd, ma) => {
                uop_cache
                    .push(Self::generate_load32(RtReg::MemData, ma));
                uop_cache.push(Uop::IMulR(RtReg::from(rd), RtReg::MemData));
            }
            IrOp::IMUL_Rd_MdA32_Id(rd, ma, id) => {
                uop_cache
                    .push(Self::generate_load32(RtReg::MemData, ma));
                uop_cache
                    .push(Uop::IMulRI(RtReg::from(rd), RtReg::MemData, id as i32));
            }
            IrOp::IMUL_Rd_Rd_Id(rd, rs, id) => {
                uop_cache
                    .push(Uop::IMulRI(RtReg::from(rd), RtReg::from(rs), id as i32));
            }

            IrOp::INC_MdA32(ma) => {
                Self::emit_rmw32(uop_cache, ma, Uop::IncR(RtReg::MemData));
            }
            IrOp::INT_Ib(ib) => {
                uop_cache.push(Uop::Swi(ib));
                return Next::Stop;
            }
            _ => {
                return Self::translate_rest(uop_cache, functions, function_map, address_map, ir, next_eip);
            },
        }
        Next::Continue
    }

    /// Appends the micro operations of an instruction of table part 1,
    /// and says whether it was one.
    fn translate_part1(uop_cache: &mut Vec<Uop>, ir: IrOp) -> (handled: bool)
        ensures
            handled == translated_part1(ir, old(uop_cache)@) is Some,
            handled ==> final(uop_cache)@ == translated_part1(ir, old(uop_cache)@)->0,
            !handled ==> final(uop_cache)@ == old(uop_cache)@,
    {
        match ir {
            IrOp::LEA_Rd_MdA32(rd, ma) => {
                uop_cache.push(Self::generate_lea(RtReg::from(rd), ma));
                true
            }
            IrOp::LEAVE => {
                uop_cache.push(Uop::Move(RtReg::ESP, RtReg::EBP));
                uop_cache.push(Uop::PopR(RtReg::EBP));
                true
            }
            IrOp::MOV_MbA32_Ib(ma, ib) => {
                uop_cache.push(Uop::LoadConst8(RtReg8::MemData, ib));
                uop_cache.push(Self::generate_lea(RtReg::MemAddr, ma));
                uop_cache
                    .push(Uop::StoreR8(RtReg8::MemData, RtReg::MemAddr));
                true
            }
            IrOp::MOV_MbA32_Rb(ma, rb) => {
                uop_cache.push(Self::generate_lea(RtReg::MemAddr, ma));
                uop_cache.push(Uop::StoreR8(RtReg8::from(rb), RtReg::MemAddr));
                true
            }
            IrOp::MOV_MdA32_Id(ma, id) => {
                uop_cache.push(Uop::LoadConst(RtReg::MemData, id));
                uop_cache
                    .push(Self::generate_store32(RtReg::MemData, ma));
                true
            }
            IrOp::MOV_MdA32_Rd(ma, rd) => {
                uop_cache.push(Self::generate_store32(RtReg::from(rd), ma));
                true
            }
            IrOp::MOV_MwA32_Iw(ma, iw) => {
                uop_cache.push(Uop::LoadConst16(RtReg::MemData, iw));
                uop_cache.push(Self::generate_lea(RtReg::MemAddr, ma));
                uop_cache
                    .push(Uop::StoreR16(RtReg::MemData, RtReg::MemAddr));
                true
            }
            IrOp::MOV_MwA32_Rw(ma, rw) => {
                uop_cache.push(Self::generate_lea(RtReg::MemAddr, ma));
                uop_cache
                    .push(Uop::StoreR16(RtReg::from(rw.upgrade()), RtReg::MemAddr));
                true
            }
            IrOp::MOV_Rb_Ib(rd, ib) => {
                uop_cache.push(Uop::LoadConst8(RtReg8::from(rd), ib));
                true
            }
            IrOp::MOV_Rb_Rb(rd, rs) => {
                uop_cache.push(Uop::Move8(RtReg8::from(rd), RtReg8::from(rs)));
                true
            }
            IrOp::MOV_Rb_MbA32(rd, ma) => {
                uop_cache.push(Self::generate_lea(RtReg::MemAddr, ma));
                uop_cache.push(Uop::LoadR8(RtReg8::from(rd), RtReg::MemAddr));
                true
            }
            IrOp::MOV_Rw_MwA32(rd, ma) => {
                uop_cache.push(Self::generate_lea(RtReg::MemAddr, ma));
                uop_cache
                    .push(Uop::LoadR16(RtReg::from(rd.upgrade()), RtReg::MemAddr));
                true
            }
            IrOp::MOV_Rd_Id(rd, id) => {
                uop_cache.push(Uop::LoadConst(RtReg::from(rd), id));
                true
            }
            IrOp::MOV_Rd_MdA32(rd, memopr) => {
                uop_cache
                    .push(Self::generate_load32(RtReg::from(rd), memopr));
                true
            }
            IrOp::MOVSX_Rd_MbA32(rd, ma) => {
                uop_cache.push(Self::generate_lea(RtReg::MemAddr, ma));
                uop_cache
                    .push(Uop::LoadR8(RtReg8::MemData, RtReg::MemAddr));
                uop_cache.push(Uop::MovSx8(RtReg::from(rd), RtReg8::MemData));
                true
            }
            IrOp::MOVSX_Rd_Rb(rd, rs) => {
                uop_cache.push(Uop::MovSx8(RtReg::from(rd), RtReg8::from(rs)));
                true
            }
            IrOp::MOVZX_Rd_Rb(rd, rs) => {
                uop_cache.push(Uop::MovZx8(RtReg::from(rd), RtReg8::from(rs)));
                true
            }
            IrOp::MOVZX_Rd_MbA32(rd, rs) => {
                uop_cache.push(Self::generate_lea(RtReg::MemAddr, rs));
                uop_cache
                    .push(Uop::LoadR8(RtReg8::MemData, RtReg::MemAddr));
                uop_cache.push(Uop::MovZx8(RtReg::from(rd), RtReg8::MemData));
                true
            }
            IrOp::MOVZX_Rd_MwA32(rd, ma) => {
                uop_cache.push(Self::generate_lea(RtReg::MemAddr, ma));
                uop_cache
                    .push(Uop::LoadR16(RtReg::MemData, RtReg::MemAddr));
                uop_cache.push(Uop::MovZx16(RtReg::from(rd), RtReg::MemData));
                true
            }
            IrOp::MOVZX_Rd_Rw(rd, rs) => {
                uop_cache
                    .push(Uop::MovZx16(RtReg::from(rd), RtReg::from(rs.upgrade())));
                true
            }
            _ => false,
        }
    }

    /// Appends the micro operations of an instruction of table part 2,
    /// and says whether it was one.
    fn translate_part2(uop_cache: &mut Vec<Uop>, ir: IrOp) -> (handled: bool)
        ensures
            handled == translated_part2(ir, old(uop_cache)@) is Some,
            handled ==> final(uop_cache)@ == translated_part2(ir, old(uop_cache)@)->0,
            !handled ==> final(uop_cache)@ == old(uop_cache)@,
    {
        match ir {
            IrOp::MUL_Rd(rd) => {
                uop_cache.push(Uop::Minor(UopMinor::MulR(RtReg::from(rd))));
                true
            }
            IrOp::NEG_MdA32(ma) => {
                Self::emit_rmw32(uop_cache, ma, Uop::NegR(RtReg::MemData));
                true
            }
            IrOp::NEG_Rd(rd) => {
                uop_cache.push(Uop::NegR(RtReg::from(rd)));
                true
            }
            IrOp::NOT_Rd(rd) => {
                uop_cache.push(Uop::NotR(RtReg::from(rd)));
                true
            }
            IrOp::OR_MdA32_Rd(ma, rs) => {
                Self::emit_rmw32(uop_cache, ma, Uop::OrR(RtReg::MemData, RtReg::from(rs)));
                true
            }
            IrOp::OR_Rd_Id(rd, id) => {
                uop_cache.push(Uop::OrI(RtReg::from(rd), id));
                true
            }
            IrOp::OR_Rd_Rd(rd, rs) => {
                uop_cache.push(Uop::OrR(RtReg::from(rd), RtReg::from(rs)));
                true
            }
            IrOp::POPAD => {
                uop_cache.push(Uop::PopAd);
                true
            }
            IrOp::POP_Rd(rd) => {
                uop_cache.push(Uop::PopR(RtReg::from(rd)));
                true
            }
            IrOp::PUSHAD => {
                uop_cache.push(Uop::PushAd);
                true
            }
            IrOp::PUSH_MdA32(ma) => {
                uop_cache
                    .push(Self::generate_load32(RtReg::MemData, ma));
                uop_cache.push(Uop::PushR(RtReg::MemData));
                true
            }
            IrOp::PUSH_Id(id) => {
                uop_cache.push(Uop::PushI(id));
                true
            }
            IrOp::PUSH_Rd(rd) => {
                uop_cache.push(Uop::PushR(RtReg::from(rd)));
                true
            }
            IrOp::RDTSC => {
                uop_cache.push(Uop::Minor(UopMinor::RdTsc));
                true
            }
            IrOp::REPNZ_SCASB(_sr, _a32) => {
                uop_cache.push(Uop::Minor(UopMinor::RepNzScasb));
                true
            }
            IrOp::SAR_MdA32_Ib(ma, ib) => {
                Self::emit_rmw32(uop_cache, ma, Uop::SarI(RtReg::MemData, ib));
                true
            }
            IrOp::SAR_Rd_Cl(rd) => {
                uop_cache.push(Uop::SarRCl(RtReg::from(rd)));
                true
            }
            IrOp::SAR_Rd_Ib(rd, ib) => {
                uop_cache.push(Uop::SarI(RtReg::from(rd), ib));
                true
            }
            IrOp::SHL_MdA32_Cl(ma) => {
                Self::emit_rmw32(uop_cache, ma, Uop::ShlRCl(RtReg::MemData));
                true
            }
            IrOp::SHL_MdA32_Ib(ma, ib) => {
                Self::emit_rmw32(uop_cache, ma, Uop::ShlI(RtReg::MemData, ib));
                true
            }
            _ => false,
        }
    }

    /// Appends the micro operations of an instruction of table part 3,
    /// and says whether it was one.
    fn translate_part3(uop_cache: &mut Vec<Uop>, ir: IrOp) -> (handled: bool)
        ensures
            handled == translated_part3(ir, old(uop_cache)@) is Some,
            handled ==> final(uop_cache)@ == translated_part3(ir, old(uop_cache)@)->0,
            !handled ==> final(uop_cache)@ == old(uop_cache)@,
    {
        match ir {
            IrOp::SHL_Rd_Cl(rd) => {
                uop_cache.push(Uop::ShlRCl(RtReg::from(rd)));
                true
            }
            IrOp::SHL_Rd_Ib(rd, ib) => {
                uop_cache.push(Uop::ShlI(RtReg::from(rd), ib));
                true
            }
            IrOp::SHL_Rw_Cl(rd) => {
                uop_cache.push(Uop::ShlRCl16(RtReg::from(rd.upgrade())));
                true
            }
            IrOp::SHL_Rw_Ib(rd, ib) => {
                uop_cache.push(Uop::ShlI16(RtReg::from(rd.upgrade()), ib));
                true
            }
            IrOp::SHL_Rb_Cl(rd) => {
                uop_cache.push(Uop::ShlRCl8(RtReg8::from(rd)));
                true
            }
            IrOp::SHL_Rb_Ib(rd, ib) => {
                uop_cache.push(Uop::ShlI8(RtReg8::from(rd), ib));
                true
            }
            IrOp::SHR_Rb_Cl(rd) => {
                uop_cache.push(Uop::ShrRCl8(RtReg8::from(rd)));
                true
            }
            IrOp::SHR_Rb_Ib(rd, ib) => {
                uop_cache.push(Uop::ShrI8(RtReg8::from(rd), ib));
                true
            }
            IrOp::SHR_Rd_Cl(rd) => {
                uop_cache.push(Uop::ShrRCl(RtReg::from(rd)));
                true
            }
            IrOp::SHR_Rd_Ib(rd, ib) => {
                uop_cache.push(Uop::ShrI(RtReg::from(rd), ib));
                true
            }
            IrOp::SUB_MdA32_Id(ma, id) => {
                Self::emit_rmw32(uop_cache, ma, Uop::SubI(RtReg::MemData, id));
                true
            }
            IrOp::SUB_MdA32_Rd(ma, rs) => {
                Self::emit_rmw32(uop_cache, ma, Uop::SubR(RtReg::MemData, RtReg::from(rs)));
                true
            }
            IrOp::SUB_Rd_Id(rd, id) => {
                uop_cache.push(Uop::SubI(RtReg::from(rd), id));
                true
            }
            IrOp::SUB_Rd_MdA32(rd, ma) => {
                uop_cache
                    .push(Self::generate_load32(RtReg::MemData, ma));
                uop_cache.push(Uop::SubR(RtReg::from(rd), RtReg::MemData));
                true
            }
            IrOp::SUB_Rd_Rd(rd, rs) => {
                uop_cache.push(Uop::SubR(RtReg::from(rd), RtReg::from(rs)));
                true
            }
            IrOp::TEST_MbA32_Ib(ma, ib) => {
                uop_cache.push(Self::generate_lea(RtReg::MemAddr, ma));
                uop_cache
                    .push(Uop::LoadR8(RtReg8::MemData, RtReg::MemAddr));
                uop_cache.push(Uop::TestI8(RtReg8::MemData, ib));
                true
            }
            IrOp::TEST_MdA32_Id(ma, id) => {
                uop_cache
                    .push(Self::generate_load32(RtReg::MemData, ma));
                uop_cache.push(Uop::TestI(RtReg::MemData, id));
                true
            }
            IrOp::TEST_Rb_Rb(rd, rs) => {
                uop_cache.push(Uop::TestR8(RtReg8::from(rd), RtReg8::from(rs)));
                true
            }
            IrOp::TEST_Rd_Id(rd, id) => {
                uop_cache.push(Uop::TestI(RtReg::from(rd), id));
                true
            }
            IrOp::TEST_Rd_Rd(rd, rs) => {
                uop_cache.push(Uop::TestR(RtReg::from(rd), RtReg::from(rs)));
                true
            }
            _ => false,
        }
    }

    /// Appends the micro operations of an instruction of table part 4,
    /// and says whether it was one.
    fn translate_part4(uop_cache: &mut Vec<Uop>, ir: IrOp) -> (handled: bool)
        ensures
            handled == translated_part4(ir, old(uop_cache)@) is Some,
            handled ==> final(uop_cache)@ == translated_part4(ir, old(uop_cache)@)->0,
            !handled ==> final(uop_cache)@ == old(uop_cache)@,
    {
        match ir {
            IrOp::MOV_Rd_Rd(rd, rs) => {
                if rd != rs {
                    uop_cache.push(Uop::Move(RtReg::from(rd), RtReg::from(rs)));
                }
                true
            }
            IrOp::XCHG_Rd_Rd(rd, rs) => {
                if rd != rs {
                    uop_cache.push(Uop::XchgR(RtReg::from(rd), RtReg::from(rs)));
                }
                true
            }
            IrOp::XOR_Rd_Id(rd, id) => {
                uop_cache.push(Uop::XorI(RtReg::from(rd), id));
                true
            }
            IrOp::XOR_Rd_MdA32(rd, ma) => {
                uop_cache
                    .push(Self::generate_load32(RtReg::MemData, ma));
                uop_cache.push(Uop::XorR(RtReg::from(rd), RtReg::MemData));
                true
            }
            IrOp::XOR_Rd_Rd(rd, rs) => {
                uop_cache.push(Uop::XorR(RtReg::from(rd), RtReg::from(rs)));
                true
            }
            _ => false,
        }
    }

    /// Appends the micro operations of one instruction of the second half of
    /// the table, and says where the trace goes on.
    fn translate_rest(
        uop_cache: &mut Vec<Uop>,
        functions: &mut Vec<(Offset32, AddrIndex)>,
        function_map: &mut BTreeMap<u32, u16>,
        address_map: &BTreeMap<u32, u32>,
        ir: IrOp,
        next_eip: Offset32,
    ) -> (r: Next)
        requires
            old(uop_cache).len() + 4 <= UOP_CACHE_LIMIT,
            old(functions).len() <= 0xffff,
            forall|k: u32| #[trigger] old(function_map)@.contains_key(k)
                ==> old(function_map)@[k] < old(functions).len(),
            translated_main(ir, old(uop_cache)@) is None,
        ensures
            final(uop_cache).len() <= UOP_CACHE_LIMIT,
            final(functions).len() <= 0xffff,
            forall|k: u32| #[trigger] final(function_map)@.contains_key(k)
                ==> final(function_map)@[k] < final(functions).len(),
            old(uop_cache).len() <= final(uop_cache).len(),
            old(functions).len() <= final(functions).len(),
            final(uop_cache)@.subrange(0, old(uop_cache)@.len() as int) == old(uop_cache)@,
            final(functions)@.subrange(0, old(functions)@.len() as int) == old(functions)@,
            !(ir is INT_Ib || ir is CALL_Jv) ==> control_flow(ir, address_map@, next_eip, old(uop_cache)@, final(uop_cache)@, r),
            ir is INT_Ib || ir is CALL_Jv ==> r == Next::Stop && final(uop_cache)@ == old(uop_cache)@.push(Uop::Unsupported),
    {
        if Self::translate_part1(uop_cache, ir) {
            return Next::Continue;
        }
        if Self::translate_part2(uop_cache, ir) {
            return Next::Continue;
        }
        if Self::translate_part3(uop_cache, ir) {
            return Next::Continue;
        }
        if Self::translate_part4(uop_cache, ir) {
            return Next::Continue;
        }
        match ir {
            IrOp::JCC_Jv(cc, target) => {
                if let Some(addr_index) = address_map.get(&target.0) {
                    uop_cache.push(Uop::Jcc(cc, AddrIndex(*addr_index)));
                } else {
                    uop_cache.push(Uop::JccU(cc, target));
                }
                uop_cache.push(Uop::FetchNext(next_eip));
                return Next::Stop;
            }
            IrOp::JMP_Jv(target) => {
                if let Some(addr_index) = address_map.get(&target.0) {
                    uop_cache.push(Uop::Jump(AddrIndex(*addr_index)));
                    return Next::Stop;
                } else {
                    return Next::Goto(target);
                }
            }
            IrOp::JMP_MdA32(ma) => {
                uop_cache
                    .push(Self::generate_load32(RtReg::MemData, ma));
                uop_cache.push(Uop::JumpR(RtReg::MemData));
                return Next::Stop;
            }
            IrOp::RET_D32(iw) => {
                uop_cache.push(Uop::Ret(iw));
                return Next::Stop;
            }
            IrOp::SBB_Rd_Rd(_a1, _a2) => {
                uop_cache.push(Uop::Unsupported);
                return Next::Stop;
            }
            _ => {
                uop_cache.push(Uop::Unsupported);
                return Next::Stop;
            },
        }
        Next::Continue
    }
}

} // verus!
