//! An x86 instruction decoder

use vstd::prelude::*;
use crate::ir86::encoding::{
    spec_modrm16, spec_modrm32, BaseIndex32, CrIndex, DrIndex, GprIndex16, GprIndex32, GprIndex8, Index3,
    MemOpr16, MemOpr32, ModRM, ModRm16, ModRm32, OpGrp1, OpGrp3, OpGrp4, OpGrp5, OpGrp6, OpGrp7,
    OpGrp8, OpShift, PrefixFx, RegOrMem, SrIndex, CC,
};
use crate::ir86::encoding::GprIndex16::{AX, BP, BX, CX, DI, DX, SI, SP};
use crate::ir86::encoding::GprIndex32::{EAX, EBP, EBX, ECX, EDI, EDX, ESI, ESP};
use crate::ir86::encoding::GprIndex8::{AH, AL, BH, BL, CH, CL, DH, DL};
use crate::ir86::encoding::SrIndex::{CS, DS, ES, FS, GS, SS};
use crate::ir86::fetch::{le16, le32, read_on, Fetch};
use crate::ir86::ir::IrOp;
use crate::ir86::types::{Offset16, Offset32, SegmentSelector};

verus! {

/// An x86 instruction decoder
pub struct Decoder {
    pub use32: bool,
}

/// What the prefixes of the instruction being decoded have set.
pub struct DecoderContext {
    pub segment_override: Option<SrIndex>,
    pub is_opsize32: bool,
    pub is_addr32: bool,
    pub prefix_fx: PrefixFx,
}

/// Whether `b` is a prefix byte: a segment override, an operand-size or
/// address-size override, LOCK, REPNE or REP.
pub open spec fn is_prefix(b: u8) -> bool {
    b == 0x2e || b == 0x36 || b == 0x3e || b == 0x26 || b == 0x64 || b == 0x65 || b == 0x66 || b == 0x67
        || b == 0xf0 || b == 0xf2 || b == 0xf3
}

/// The number of prefix bytes at the start of `s`.
pub open spec fn prefix_count(s: Seq<u8>) -> nat
    decreases s.len(),
{
    if s.len() > 0 && is_prefix(s[0]) {
        1 + prefix_count(s.drop_first())
    } else {
        0
    }
}

/// Past `k` prefix bytes at its start, `s` has `k` more prefix bytes than
/// what follows them.
pub proof fn lemma_prefix_count(s: Seq<u8>, k: int)
    requires
        0 <= k <= s.len(),
        forall|i: int| 0 <= i < k ==> is_prefix(#[trigger] s[i]),
    ensures
        prefix_count(s) == k + prefix_count(s.skip(k)),
    decreases k,
{
    if k == 0 {
        assert(s.skip(0) =~= s);
    } else {
        let t = s.drop_first();
        assert forall|i: int| 0 <= i < k - 1 implies is_prefix(#[trigger] t[i]) by {
            assert(t[i] == s[i + 1]);
        }
        lemma_prefix_count(t, k - 1);
        assert(t.skip(k - 1) =~= s.skip(k));
    }
}

/// `ctx` once the prefix byte `b` is seen.
pub open spec fn with_prefix(ctx: DecoderContext, b: u8) -> DecoderContext {
    if b == 0x2e {
        DecoderContext { segment_override: Some(CS), ..ctx }
    } else if b == 0x36 {
        DecoderContext { segment_override: Some(SS), ..ctx }
    } else if b == 0x3e {
        DecoderContext { segment_override: Some(DS), ..ctx }
    } else if b == 0x26 {
        DecoderContext { segment_override: Some(ES), ..ctx }
    } else if b == 0x64 {
        DecoderContext { segment_override: Some(FS), ..ctx }
    } else if b == 0x65 {
        DecoderContext { segment_override: Some(GS), ..ctx }
    } else if b == 0x66 {
        DecoderContext { is_opsize32: true, ..ctx }
    } else if b == 0x67 {
        DecoderContext { is_addr32: true, ..ctx }
    } else if b == 0xf0 {
        DecoderContext { prefix_fx: PrefixFx::F0_LOCK, ..ctx }
    } else if b == 0xf2 {
        DecoderContext { prefix_fx: PrefixFx::F2_REPNZ, ..ctx }
    } else {
        DecoderContext { prefix_fx: PrefixFx::F3_REPZ, ..ctx }
    }
}

/// The context after the prefix bytes `p`, seen in order from no prefix;
/// the later of two conflicting prefixes wins.
pub open spec fn after_prefixes(p: Seq<u8>) -> DecoderContext
    decreases p.len(),
{
    if p.len() == 0 {
        DecoderContext { segment_override: None, is_opsize32: false, is_addr32: false, prefix_fx: PrefixFx::NP }
    } else {
        with_prefix(after_prefixes(p.drop_last()), p.last())
    }
}

/// The context in which the opcode after the prefixes `p` is decoded: the
/// size overrides switch from the default size, 32-bit where `use32`.
pub open spec fn opcode_context(p: Seq<u8>, use32: bool) -> DecoderContext {
    let c = after_prefixes(p);
    DecoderContext { is_opsize32: c.is_opsize32 != use32, is_addr32: c.is_addr32 != use32, ..c }
}

/// The 16-bit register whose number is `v` (taken modulo 8).
pub open spec fn gpr16(v: u8) -> GprIndex16 {
    let v = v % 8;
    if v == 0 {
        AX
    } else if v == 1 {
        CX
    } else if v == 2 {
        DX
    } else if v == 3 {
        BX
    } else if v == 4 {
        SP
    } else if v == 5 {
        BP
    } else if v == 6 {
        SI
    } else {
        DI
    }
}

/// The instruction of an opcode that takes no byte after it, in `ctx`; `None`
/// for the other opcodes.
pub open spec fn operandless(ctx: DecoderContext, op: u8) -> Option<IrOp> {
    let d = ctx.is_opsize32;
    let a = ctx.is_addr32;
    let seg = match ctx.segment_override {
        Some(sr) => sr,
        None => DS,
    };
    if 0x40 <= op <= 0x47 {
        Some(if d { IrOp::INC_Rd(GprIndex32::spec_from(op)) } else { IrOp::INC_Rw(gpr16(op)) })
    } else if 0x48 <= op <= 0x4f {
        Some(if d { IrOp::DEC_Rd(GprIndex32::spec_from(op)) } else { IrOp::DEC_Rw(gpr16(op)) })
    } else if 0x50 <= op <= 0x57 {
        Some(if d { IrOp::PUSH_Rd(GprIndex32::spec_from(op)) } else { IrOp::PUSH_Rw(gpr16(op)) })
    } else if 0x58 <= op <= 0x5f {
        Some(if d { IrOp::POP_Rd(GprIndex32::spec_from(op)) } else { IrOp::POP_Rw(gpr16(op)) })
    } else if op == 0x06 {
        Some(IrOp::PUSH_Sr(ES))
    } else if op == 0x07 {
        Some(IrOp::POP_Sr(ES))
    } else if op == 0x0e {
        Some(IrOp::PUSH_Sr(CS))
    } else if op == 0x16 {
        Some(IrOp::PUSH_Sr(SS))
    } else if op == 0x17 {
        Some(IrOp::POP_Sr(SS))
    } else if op == 0x1e {
        Some(IrOp::PUSH_Sr(DS))
    } else if op == 0x1f {
        Some(IrOp::POP_Sr(DS))
    } else if op == 0x27 {
        Some(IrOp::DAA)
    } else if op == 0x2f {
        Some(IrOp::DAS)
    } else if op == 0x37 {
        Some(IrOp::AAA)
    } else if op == 0x3f {
        Some(IrOp::AAS)
    } else if op == 0x6c {
        Some(rep_form(ctx, IrOp::INSB(ES, a), IrOp::REP_INSB(ES, a)))
    } else if op == 0x6d {
        Some(if d { rep_form(ctx, IrOp::INSD(ES, a), IrOp::REP_INSD(ES, a)) } else { rep_form(ctx, IrOp::INSW(ES, a), IrOp::REP_INSW(ES, a)) })
    } else if op == 0x6e {
        Some(rep_form(ctx, IrOp::OUTSB(seg, a), IrOp::REP_OUTSB(seg, a)))
    } else if op == 0x6f {
        Some(if d { rep_form(ctx, IrOp::OUTSD(seg, a), IrOp::REP_OUTSD(seg, a)) } else { rep_form(ctx, IrOp::OUTSW(seg, a), IrOp::REP_OUTSW(seg, a)) })
    } else if op == 0xa4 {
        Some(rep_form(ctx, IrOp::MOVSB(seg, a), IrOp::REP_MOVSB(seg, a)))
    } else if op == 0xa5 {
        Some(if d { rep_form(ctx, IrOp::MOVSD(seg, a), IrOp::REP_MOVSD(seg, a)) } else { rep_form(ctx, IrOp::MOVSW(seg, a), IrOp::REP_MOVSW(seg, a)) })
    } else if op == 0xa6 {
        Some(repz_form(ctx, IrOp::CMPSB(seg, a), IrOp::REPNZ_CMPSB(seg, a), IrOp::REPZ_CMPSB(seg, a)))
    } else if op == 0xa7 {
        Some(if d {
            repz_form(ctx, IrOp::CMPSD(seg, a), IrOp::REPNZ_CMPSD(seg, a), IrOp::REPZ_CMPSD(seg, a))
        } else {
            repz_form(ctx, IrOp::CMPSW(seg, a), IrOp::REPNZ_CMPSW(seg, a), IrOp::REPZ_CMPSW(seg, a))
        })
    } else if op == 0xaa {
        Some(rep_form(ctx, IrOp::STOSB(ES, a), IrOp::REP_STOSB(ES, a)))
    } else if op == 0xab {
        Some(if d { rep_form(ctx, IrOp::STOSD(ES, a), IrOp::REP_STOSD(ES, a)) } else { rep_form(ctx, IrOp::STOSW(ES, a), IrOp::REP_STOSW(ES, a)) })
    } else if op == 0xac {
        Some(rep_form(ctx, IrOp::LODSB(seg, a), IrOp::REP_LODSB(seg, a)))
    } else if op == 0xad {
        Some(if d { rep_form(ctx, IrOp::LODSD(seg, a), IrOp::REP_LODSD(seg, a)) } else { rep_form(ctx, IrOp::LODSW(seg, a), IrOp::REP_LODSW(seg, a)) })
    } else if op == 0xae {
        Some(repz_form(ctx, IrOp::SCASB(ES, a), IrOp::REPNZ_SCASB(ES, a), IrOp::REPZ_SCASB(ES, a)))
    } else if op == 0xaf {
        Some(if d {
            repz_form(ctx, IrOp::SCASD(ES, a), IrOp::REPNZ_SCASD(ES, a), IrOp::REPZ_SCASD(ES, a))
        } else {
            repz_form(ctx, IrOp::SCASW(ES, a), IrOp::REPNZ_SCASW(ES, a), IrOp::REPZ_SCASW(ES, a))
        })
    } else if op == 0xcb {
        Some(if d { IrOp::RETF_D32(0) } else { IrOp::RETF_D16(0) })
    } else if op == 0xce {
        Some(IrOp::INTO)
    } else if op == 0xcf {
        Some(if d { IrOp::IRETD } else { IrOp::IRET })
    } else if op == 0xd6 {
        Some(IrOp::SALC)
    } else if op == 0xec {
        Some(IrOp::IN_Al_Dx)
    } else if op == 0xed {
        Some(if d { IrOp::IN_Ad_Dx } else { IrOp::IN_Aw_Dx })
    } else if op == 0xee {
        Some(IrOp::OUT_Dx_Al)
    } else if op == 0xef {
        Some(if d { IrOp::OUT_Dx_Ad } else { IrOp::OUT_Dx_Aw })
    } else if op == 0xf1 {
        Some(IrOp::ICEBP)
    } else if op == 0x60 {
        Some(if d { IrOp::PUSHAD } else { IrOp::PUSHA })
    } else if op == 0x61 {
        Some(if d { IrOp::POPAD } else { IrOp::POPA })
    } else if op == 0x90 {
        Some(if ctx.prefix_fx == PrefixFx::F3_REPZ { IrOp::PAUSE } else { IrOp::NOP })
    } else if 0x91 <= op <= 0x97 {
        Some(if d { IrOp::XCHG_Rd_Rd(EAX, GprIndex32::spec_from(op)) } else { IrOp::XCHG_Rw_Rw(AX, gpr16(op)) })
    } else if op == 0x98 {
        Some(if d { IrOp::MOVSX_Rd_Rw(EAX, AX) } else { IrOp::MOVSX_Rw_Rb(AX, AL) })
    } else if op == 0x99 {
        Some(if d { IrOp::CDQ } else { IrOp::CWD })
    } else if op == 0x9b {
        Some(IrOp::WAIT)
    } else if op == 0x9c {
        Some(if d { IrOp::PUSHFD } else { IrOp::PUSHF })
    } else if op == 0x9d {
        Some(if d { IrOp::POPFD } else { IrOp::POPF })
    } else if op == 0x9e {
        Some(IrOp::SAHF)
    } else if op == 0x9f {
        Some(IrOp::LAHF)
    } else if op == 0xc3 {
        Some(if d { IrOp::RET_D32(0) } else { IrOp::RET_D16(0) })
    } else if op == 0xc9 {
        Some(IrOp::LEAVE)
    } else if op == 0xcc {
        Some(IrOp::INT_Ib(3))
    } else if op == 0xf4 {
        Some(IrOp::HLT)
    } else if op == 0xf5 {
        Some(IrOp::CMC)
    } else if op == 0xf8 {
        Some(IrOp::CLC)
    } else if op == 0xf9 {
        Some(IrOp::STC)
    } else if op == 0xfa {
        Some(IrOp::CLI)
    } else if op == 0xfb {
        Some(IrOp::STI)
    } else if op == 0xfc {
        Some(IrOp::CLD)
    } else if op == 0xfd {
        Some(IrOp::STD)
    } else {
        None
    }
}

/// Whether `op` is one of the eight arithmetic opcodes on AL with an 8-bit
/// immediate (ADD, OR, ADC, SBB, AND, SUB, XOR, CMP), or, `wide`, on eAX with
/// an immediate of the operand size.
pub open spec fn is_alu_acc(op: u8, wide: bool) -> bool {
    op < 0x40 && op % 8 == (if wide { 5u8 } else { 4u8 })
}

/// The number of bytes after an opcode whose only operand is an immediate
/// or a displacement, in `ctx`; 0 for the other opcodes.
pub open spec fn imm_size(ctx: DecoderContext, op: u8) -> nat {
    let v: nat = if ctx.is_opsize32 { 4 } else { 2 };
    if is_alu_acc(op, false) || op == 0x6a || 0x70 <= op <= 0x7f || op == 0xa8 || 0xb0 <= op <= 0xb7 || op == 0xcd || op == 0xeb {
        1
    } else if is_alu_acc(op, true) || op == 0x68 || op == 0xa9 || 0xb8 <= op <= 0xbf || op == 0xe8 || op == 0xe9 {
        v
    } else if op == 0xc2 {
        2
    } else {
        0
    }
}

/// The target of a relative jump or call whose displacement `rel` follows
/// and ends at `eip`: wrapped to 16 bits with a 16-bit operand size.
pub open spec fn rel_target(ctx: DecoderContext, eip: u32, rel: u32) -> u32 {
    if ctx.is_opsize32 { eip.wrapping_add(rel) } else { eip.wrapping_add(rel) & 0xffff }
}

/// Whether `ir` is the instruction of opcode `op` in `ctx`, with its
/// immediate or displacement read from `s`, where `eip` is the address of
/// `s`'s first byte; for the opcodes that `imm_size` counts.
pub open spec fn imm_result(ctx: DecoderContext, op: u8, s: Seq<u8>, eip: u32, ir: IrOp) -> bool {
    let d = ctx.is_opsize32;
    let b = s[0];
    let w = le16(s[0], s[1]);
    let q = le32(s[0], s[1], s[2], s[3]);
    let end = ((eip + imm_size(ctx, op)) % 0x1_0000_0000) as u32;
    let grp = op / 8;
    if is_alu_acc(op, false) {
        ir == (if grp == 0 {
            IrOp::ADD_Rb_Ib(AL, b)
        } else if grp == 1 {
            IrOp::OR_Rb_Ib(AL, b)
        } else if grp == 2 {
            IrOp::ADC_Rb_Ib(AL, b)
        } else if grp == 3 {
            IrOp::SBB_Rb_Ib(AL, b)
        } else if grp == 4 {
            IrOp::AND_Rb_Ib(AL, b)
        } else if grp == 5 {
            IrOp::SUB_Rb_Ib(AL, b)
        } else if grp == 6 {
            IrOp::XOR_Rb_Ib(AL, b)
        } else {
            IrOp::CMP_Rb_Ib(AL, b)
        })
    } else if is_alu_acc(op, true) {
        ir == (if grp == 0 {
            if d { IrOp::ADD_Rd_Id(EAX, q) } else { IrOp::ADD_Rw_Iw(AX, w) }
        } else if grp == 1 {
            if d { IrOp::OR_Rd_Id(EAX, q) } else { IrOp::OR_Rw_Iw(AX, w) }
        } else if grp == 2 {
            if d { IrOp::ADC_Rd_Id(EAX, q) } else { IrOp::ADC_Rw_Iw(AX, w) }
        } else if grp == 3 {
            if d { IrOp::SBB_Rd_Id(EAX, q) } else { IrOp::SBB_Rw_Iw(AX, w) }
        } else if grp == 4 {
            if d { IrOp::AND_Rd_Id(EAX, q) } else { IrOp::AND_Rw_Iw(AX, w) }
        } else if grp == 5 {
            if d { IrOp::SUB_Rd_Id(EAX, q) } else { IrOp::SUB_Rw_Iw(AX, w) }
        } else if grp == 6 {
            if d { IrOp::XOR_Rd_Id(EAX, q) } else { IrOp::XOR_Rw_Iw(AX, w) }
        } else {
            if d { IrOp::CMP_Rd_Id(EAX, q) } else { IrOp::CMP_Rw_Iw(AX, w) }
        })
    } else if op == 0x68 {
        ir == (if d { IrOp::PUSH_Id(q) } else { IrOp::PUSH_Iw(w) })
    } else if op == 0x6a {
        ir == (if d { IrOp::PUSH_Id(b as i8 as i32 as u32) } else { IrOp::PUSH_Iw(b as i8 as i32 as u16) })
    } else if 0x70 <= op <= 0x7f {
        ir matches IrOp::JCC_Jv(cc, t) && cc.code() == op % 16 && t.0 == rel_target(ctx, end, b as i8 as i32 as u32)
    } else if op == 0xa8 {
        ir == IrOp::TEST_Rb_Ib(AL, b)
    } else if op == 0xa9 {
        ir == (if d { IrOp::TEST_Rd_Id(EAX, q) } else { IrOp::TEST_Rw_Iw(AX, w) })
    } else if 0xb0 <= op <= 0xb7 {
        ir matches IrOp::MOV_Rb_Ib(g, i) && g.index() == op % 8 && i == b
    } else if 0xb8 <= op <= 0xbf {
        if d {
            ir == IrOp::MOV_Rd_Id(GprIndex32::spec_from(op), q)
        } else {
            ir matches IrOp::MOV_Rw_Iw(g, i) && g.index() == op % 8 && i == w
        }
    } else if op == 0xc2 {
        ir == (if d { IrOp::RET_D32(w) } else { IrOp::RET_D16(w) })
    } else if op == 0xcd {
        ir == IrOp::INT_Ib(b)
    } else if op == 0xe8 {
        ir == IrOp::CALL_Jv(Offset32(rel_target(ctx, end, if d { q } else { w as i16 as u32 })))
    } else if op == 0xe9 {
        ir == IrOp::JMP_Jv(Offset32(rel_target(ctx, end, if d { q } else { w as i16 as u32 })))
    } else {
        ir == IrOp::JMP_Jv(Offset32(rel_target(ctx, end, b as i8 as i32 as u32)))
    }
}

/// The number of bytes after the opcodes 0xc8 (ENTER), 0xca (far RET) and
/// 0xe0 to 0xe7 (LOOP, JCXZ, IN, OUT), whose operands are immediates only.
pub open spec fn imm2_size(op: u8) -> nat {
    if op == 0xc8 { 3 } else if op == 0xca { 2 } else { 1 }
}

/// Whether `ir` is the instruction of opcode `op` (0xc8, 0xca, 0xe0 to
/// 0xe7) in `ctx`, with its immediates read from `s`, where `eip` is the
/// address of `s`'s first byte.
pub open spec fn imm2_result(ctx: DecoderContext, op: u8, s: Seq<u8>, eip: u32, ir: IrOp) -> bool {
    let d = ctx.is_opsize32;
    let b = s[0];
    let w = le16(s[0], s[1]);
    let end = ((eip + imm2_size(op)) % 0x1_0000_0000) as u32;
    let target = Offset32(rel_target(ctx, end, b as i8 as i32 as u32));
    if op == 0xc8 {
        ir == IrOp::ENTER_Iw_Ib(w, s[2])
    } else if op == 0xca {
        ir == (if d { IrOp::RETF_D32(w) } else { IrOp::RETF_D16(w) })
    } else if op == 0xe0 {
        ir == IrOp::LOOPNZ_Jv(target)
    } else if op == 0xe1 {
        ir == IrOp::LOOPZ_Jv(target)
    } else if op == 0xe2 {
        ir == IrOp::LOOP_Jv(target)
    } else if op == 0xe3 {
        ir == IrOp::JCXZ_Jv(target)
    } else if op == 0xe4 {
        ir == IrOp::IN_Al_Ib(b)
    } else if op == 0xe5 {
        ir == (if d { IrOp::IN_Ad_Ib(b) } else { IrOp::IN_Aw_Ib(b) })
    } else if op == 0xe6 {
        ir == IrOp::OUT_Ib_Al(b)
    } else {
        ir == (if d { IrOp::OUT_Ib_Ad(b) } else { IrOp::OUT_Ib_Aw(b) })
    }
}

/// The number of address bytes after the opcodes 0xa0 to 0xa3 (moves
/// between the accumulator and a memory offset): by the address size.
pub open spec fn moffs_size(ctx: DecoderContext) -> nat {
    if ctx.is_addr32 { 4 } else { 2 }
}

/// Whether `ir` is the move of opcode `op` (0xa0, 0xa1: to AL or the
/// accumulator; 0xa2, 0xa3: from it) with the memory offset read from `s`,
/// in the segment of the override or DS.
pub open spec fn moffs_result(ctx: DecoderContext, op: u8, s: Seq<u8>, ir: IrOp) -> bool {
    let seg = match ctx.segment_override { Some(sr) => sr, None => DS };
    let m32 = MemOpr32 { segment: seg, base_index: BaseIndex32::DispOnly, disp: Offset32(le32(s[0], s[1], s[2], s[3])) };
    let m16 = MemOpr16 { segment: seg, base_index: None, disp: Offset16(le16(s[0], s[1])) };
    let d = ctx.is_opsize32;
    if ctx.is_addr32 {
        if op == 0xa0 {
            ir == IrOp::MOV_Rb_MbA32(AL, m32)
        } else if op == 0xa1 {
            ir == (if d { IrOp::MOV_Rd_MdA32(EAX, m32) } else { IrOp::MOV_Rw_MwA32(AX, m32) })
        } else if op == 0xa2 {
            ir == IrOp::MOV_MbA32_Rb(m32, AL)
        } else {
            ir == (if d { IrOp::MOV_MdA32_Rd(m32, EAX) } else { IrOp::MOV_MwA32_Rw(m32, AX) })
        }
    } else {
        if op == 0xa0 {
            ir == IrOp::MOV_Rb_MbA16(AL, m16)
        } else if op == 0xa1 {
            ir == (if d { IrOp::MOV_Rd_MdA16(EAX, m16) } else { IrOp::MOV_Rw_MwA16(AX, m16) })
        } else if op == 0xa2 {
            ir == IrOp::MOV_MbA16_Rb(m16, AL)
        } else {
            ir == (if d { IrOp::MOV_MdA16_Rd(m16, EAX) } else { IrOp::MOV_MwA16_Rw(m16, AX) })
        }
    }
}

/// Whether `ir` is the 8-bit arithmetic instruction of opcode `op` (ADD,
/// OR, ADC, SBB, AND, SUB, XOR or CMP; low bits 0: r/m destination, reg
/// source; 2: reg destination, r/m source) on the ModR/M operand `o`.
pub open spec fn alu8_rel(op: u8, o: RawOperand, ir: IrOp) -> bool {
    let grp = op / 8;
    let to_rm = op % 8 == 0;
    match o {
        ModRmOperand::Reg(m, x) => if to_rm {
            if grp == 0 {
                ir matches IrOp::ADD_Rb_Rb(a, b) && rm8(m, a) && reg8(x, b)
            } else if grp == 1 {
                ir matches IrOp::OR_Rb_Rb(a, b) && rm8(m, a) && reg8(x, b)
            } else if grp == 2 {
                ir matches IrOp::ADC_Rb_Rb(a, b) && rm8(m, a) && reg8(x, b)
            } else if grp == 3 {
                ir matches IrOp::SBB_Rb_Rb(a, b) && rm8(m, a) && reg8(x, b)
            } else if grp == 4 {
                ir matches IrOp::AND_Rb_Rb(a, b) && rm8(m, a) && reg8(x, b)
            } else if grp == 5 {
                ir matches IrOp::SUB_Rb_Rb(a, b) && rm8(m, a) && reg8(x, b)
            } else if grp == 6 {
                ir matches IrOp::XOR_Rb_Rb(a, b) && rm8(m, a) && reg8(x, b)
            } else {
                ir matches IrOp::CMP_Rb_Rb(a, b) && rm8(m, a) && reg8(x, b)
            }
        } else {
            if grp == 0 {
                ir matches IrOp::ADD_Rb_Rb(a, b) && reg8(x, a) && rm8(m, b)
            } else if grp == 1 {
                ir matches IrOp::OR_Rb_Rb(a, b) && reg8(x, a) && rm8(m, b)
            } else if grp == 2 {
                ir matches IrOp::ADC_Rb_Rb(a, b) && reg8(x, a) && rm8(m, b)
            } else if grp == 3 {
                ir matches IrOp::SBB_Rb_Rb(a, b) && reg8(x, a) && rm8(m, b)
            } else if grp == 4 {
                ir matches IrOp::AND_Rb_Rb(a, b) && reg8(x, a) && rm8(m, b)
            } else if grp == 5 {
                ir matches IrOp::SUB_Rb_Rb(a, b) && reg8(x, a) && rm8(m, b)
            } else if grp == 6 {
                ir matches IrOp::XOR_Rb_Rb(a, b) && reg8(x, a) && rm8(m, b)
            } else {
                ir matches IrOp::CMP_Rb_Rb(a, b) && reg8(x, a) && rm8(m, b)
            }
        },
        ModRmOperand::Mem16(mem, x) => if to_rm {
            if grp == 0 {
                ir matches IrOp::ADD_MbA16_Rb(a, b) && a == mem && reg8(x, b)
            } else if grp == 1 {
                ir matches IrOp::OR_MbA16_Rb(a, b) && a == mem && reg8(x, b)
            } else if grp == 2 {
                ir matches IrOp::ADC_MbA16_Rb(a, b) && a == mem && reg8(x, b)
            } else if grp == 3 {
                ir matches IrOp::SBB_MbA16_Rb(a, b) && a == mem && reg8(x, b)
            } else if grp == 4 {
                ir matches IrOp::AND_MbA16_Rb(a, b) && a == mem && reg8(x, b)
            } else if grp == 5 {
                ir matches IrOp::SUB_MbA16_Rb(a, b) && a == mem && reg8(x, b)
            } else if grp == 6 {
                ir matches IrOp::XOR_MbA16_Rb(a, b) && a == mem && reg8(x, b)
            } else {
                ir matches IrOp::CMP_MbA16_Rb(a, b) && a == mem && reg8(x, b)
            }
        } else {
            if grp == 0 {
                ir matches IrOp::ADD_Rb_MbA16(a, b) && reg8(x, a) && b == mem
            } else if grp == 1 {
                ir matches IrOp::OR_Rb_MbA16(a, b) && reg8(x, a) && b == mem
            } else if grp == 2 {
                ir matches IrOp::ADC_Rb_MbA16(a, b) && reg8(x, a) && b == mem
            } else if grp == 3 {
                ir matches IrOp::SBB_Rb_MbA16(a, b) && reg8(x, a) && b == mem
            } else if grp == 4 {
                ir matches IrOp::AND_Rb_MbA16(a, b) && reg8(x, a) && b == mem
            } else if grp == 5 {
                ir matches IrOp::SUB_Rb_MbA16(a, b) && reg8(x, a) && b == mem
            } else if grp == 6 {
                ir matches IrOp::XOR_Rb_MbA16(a, b) && reg8(x, a) && b == mem
            } else {
                ir matches IrOp::CMP_Rb_MbA16(a, b) && reg8(x, a) && b == mem
            }
        },
        ModRmOperand::Mem32(mem, x) => if to_rm {
            if grp == 0 {
                ir matches IrOp::ADD_MbA32_Rb(a, b) && a == mem && reg8(x, b)
            } else if grp == 1 {
                ir matches IrOp::OR_MbA32_Rb(a, b) && a == mem && reg8(x, b)
            } else if grp == 2 {
                ir matches IrOp::ADC_MbA32_Rb(a, b) && a == mem && reg8(x, b)
            } else if grp == 3 {
                ir matches IrOp::SBB_MbA32_Rb(a, b) && a == mem && reg8(x, b)
            } else if grp == 4 {
                ir matches IrOp::AND_MbA32_Rb(a, b) && a == mem && reg8(x, b)
            } else if grp == 5 {
                ir matches IrOp::SUB_MbA32_Rb(a, b) && a == mem && reg8(x, b)
            } else if grp == 6 {
                ir matches IrOp::XOR_MbA32_Rb(a, b) && a == mem && reg8(x, b)
            } else {
                ir matches IrOp::CMP_MbA32_Rb(a, b) && a == mem && reg8(x, b)
            }
        } else {
            if grp == 0 {
                ir matches IrOp::ADD_Rb_MbA32(a, b) && reg8(x, a) && b == mem
            } else if grp == 1 {
                ir matches IrOp::OR_Rb_MbA32(a, b) && reg8(x, a) && b == mem
            } else if grp == 2 {
                ir matches IrOp::ADC_Rb_MbA32(a, b) && reg8(x, a) && b == mem
            } else if grp == 3 {
                ir matches IrOp::SBB_Rb_MbA32(a, b) && reg8(x, a) && b == mem
            } else if grp == 4 {
                ir matches IrOp::AND_Rb_MbA32(a, b) && reg8(x, a) && b == mem
            } else if grp == 5 {
                ir matches IrOp::SUB_Rb_MbA32(a, b) && reg8(x, a) && b == mem
            } else if grp == 6 {
                ir matches IrOp::XOR_Rb_MbA32(a, b) && reg8(x, a) && b == mem
            } else {
                ir matches IrOp::CMP_Rb_MbA32(a, b) && reg8(x, a) && b == mem
            }
        },
    }
}

/// Whether `ir` is the 16- or 32-bit arithmetic instruction (by `is32`) of
/// opcode `op` (ADD, OR, ADC, SBB, AND, SUB, XOR or CMP; low bits 1: r/m
/// destination, reg source; 3: reg destination, r/m source) on the ModR/M
/// operand `o`.
pub open spec fn aluv_rel(is32: bool, op: u8, o: RawOperand, ir: IrOp) -> bool {
    let grp = op / 8;
    let to_rm = op % 8 == 1;
    match o {
        ModRmOperand::Reg(m, x) => {
            if is32 {
                if to_rm {
                    if grp == 0 {
                        ir matches IrOp::ADD_Rd_Rd(a, b) && rm32(m, a) && reg32(x, b)
                    } else if grp == 1 {
                        ir matches IrOp::OR_Rd_Rd(a, b) && rm32(m, a) && reg32(x, b)
                    } else if grp == 2 {
                        ir matches IrOp::ADC_Rd_Rd(a, b) && rm32(m, a) && reg32(x, b)
                    } else if grp == 3 {
                        ir matches IrOp::SBB_Rd_Rd(a, b) && rm32(m, a) && reg32(x, b)
                    } else if grp == 4 {
                        ir matches IrOp::AND_Rd_Rd(a, b) && rm32(m, a) && reg32(x, b)
                    } else if grp == 5 {
                        ir matches IrOp::SUB_Rd_Rd(a, b) && rm32(m, a) && reg32(x, b)
                    } else if grp == 6 {
                        ir matches IrOp::XOR_Rd_Rd(a, b) && rm32(m, a) && reg32(x, b)
                    } else {
                        ir matches IrOp::CMP_Rd_Rd(a, b) && rm32(m, a) && reg32(x, b)
                    }
                } else {
                    if grp == 0 {
                        ir matches IrOp::ADD_Rd_Rd(a, b) && reg32(x, a) && rm32(m, b)
                    } else if grp == 1 {
                        ir matches IrOp::OR_Rd_Rd(a, b) && reg32(x, a) && rm32(m, b)
                    } else if grp == 2 {
                        ir matches IrOp::ADC_Rd_Rd(a, b) && reg32(x, a) && rm32(m, b)
                    } else if grp == 3 {
                        ir matches IrOp::SBB_Rd_Rd(a, b) && reg32(x, a) && rm32(m, b)
                    } else if grp == 4 {
                        ir matches IrOp::AND_Rd_Rd(a, b) && reg32(x, a) && rm32(m, b)
                    } else if grp == 5 {
                        ir matches IrOp::SUB_Rd_Rd(a, b) && reg32(x, a) && rm32(m, b)
                    } else if grp == 6 {
                        ir matches IrOp::XOR_Rd_Rd(a, b) && reg32(x, a) && rm32(m, b)
                    } else {
                        ir matches IrOp::CMP_Rd_Rd(a, b) && reg32(x, a) && rm32(m, b)
                    }
                }
            } else {
                if to_rm {
                    if grp == 0 {
                        ir matches IrOp::ADD_Rw_Rw(a, b) && rm16(m, a) && reg16(x, b)
                    } else if grp == 1 {
                        ir matches IrOp::OR_Rw_Rw(a, b) && rm16(m, a) && reg16(x, b)
                    } else if grp == 2 {
                        ir matches IrOp::ADC_Rw_Rw(a, b) && rm16(m, a) && reg16(x, b)
                    } else if grp == 3 {
                        ir matches IrOp::SBB_Rw_Rw(a, b) && rm16(m, a) && reg16(x, b)
                    } else if grp == 4 {
                        ir matches IrOp::AND_Rw_Rw(a, b) && rm16(m, a) && reg16(x, b)
                    } else if grp == 5 {
                        ir matches IrOp::SUB_Rw_Rw(a, b) && rm16(m, a) && reg16(x, b)
                    } else if grp == 6 {
                        ir matches IrOp::XOR_Rw_Rw(a, b) && rm16(m, a) && reg16(x, b)
                    } else {
                        ir matches IrOp::CMP_Rw_Rw(a, b) && rm16(m, a) && reg16(x, b)
                    }
                } else {
                    if grp == 0 {
                        ir matches IrOp::ADD_Rw_Rw(a, b) && reg16(x, a) && rm16(m, b)
                    } else if grp == 1 {
                        ir matches IrOp::OR_Rw_Rw(a, b) && reg16(x, a) && rm16(m, b)
                    } else if grp == 2 {
                        ir matches IrOp::ADC_Rw_Rw(a, b) && reg16(x, a) && rm16(m, b)
                    } else if grp == 3 {
                        ir matches IrOp::SBB_Rw_Rw(a, b) && reg16(x, a) && rm16(m, b)
                    } else if grp == 4 {
                        ir matches IrOp::AND_Rw_Rw(a, b) && reg16(x, a) && rm16(m, b)
                    } else if grp == 5 {
                        ir matches IrOp::SUB_Rw_Rw(a, b) && reg16(x, a) && rm16(m, b)
                    } else if grp == 6 {
                        ir matches IrOp::XOR_Rw_Rw(a, b) && reg16(x, a) && rm16(m, b)
                    } else {
                        ir matches IrOp::CMP_Rw_Rw(a, b) && reg16(x, a) && rm16(m, b)
                    }
                }
            }
        },
        ModRmOperand::Mem16(mem, x) => {
            if is32 {
                if to_rm {
                    if grp == 0 {
                        ir matches IrOp::ADD_MdA16_Rd(a, b) && a == mem && reg32(x, b)
                    } else if grp == 1 {
                        ir matches IrOp::OR_MdA16_Rd(a, b) && a == mem && reg32(x, b)
                    } else if grp == 2 {
                        ir matches IrOp::ADC_MdA16_Rd(a, b) && a == mem && reg32(x, b)
                    } else if grp == 3 {
                        ir matches IrOp::SBB_MdA16_Rd(a, b) && a == mem && reg32(x, b)
                    } else if grp == 4 {
                        ir matches IrOp::AND_MdA16_Rd(a, b) && a == mem && reg32(x, b)
                    } else if grp == 5 {
                        ir matches IrOp::SUB_MdA16_Rd(a, b) && a == mem && reg32(x, b)
                    } else if grp == 6 {
                        ir matches IrOp::XOR_MdA16_Rd(a, b) && a == mem && reg32(x, b)
                    } else {
                        ir matches IrOp::CMP_MdA16_Rd(a, b) && a == mem && reg32(x, b)
                    }
                } else {
                    if grp == 0 {
                        ir matches IrOp::ADD_Rd_MdA16(a, b) && reg32(x, a) && b == mem
                    } else if grp == 1 {
                        ir matches IrOp::OR_Rd_MdA16(a, b) && reg32(x, a) && b == mem
                    } else if grp == 2 {
                        ir matches IrOp::ADC_Rd_MdA16(a, b) && reg32(x, a) && b == mem
                    } else if grp == 3 {
                        ir matches IrOp::SBB_Rd_MdA16(a, b) && reg32(x, a) && b == mem
                    } else if grp == 4 {
                        ir matches IrOp::AND_Rd_MdA16(a, b) && reg32(x, a) && b == mem
                    } else if grp == 5 {
                        ir matches IrOp::SUB_Rd_MdA16(a, b) && reg32(x, a) && b == mem
                    } else if grp == 6 {
                        ir matches IrOp::XOR_Rd_MdA16(a, b) && reg32(x, a) && b == mem
                    } else {
                        ir matches IrOp::CMP_Rd_MdA16(a, b) && reg32(x, a) && b == mem
                    }
                }
            } else {
                if to_rm {
                    if grp == 0 {
                        ir matches IrOp::ADD_MwA16_Rw(a, b) && a == mem && reg16(x, b)
                    } else if grp == 1 {
                        ir matches IrOp::OR_MwA16_Rw(a, b) && a == mem && reg16(x, b)
                    } else if grp == 2 {
                        ir matches IrOp::ADC_MwA16_Rw(a, b) && a == mem && reg16(x, b)
                    } else if grp == 3 {
                        ir matches IrOp::SBB_MwA16_Rw(a, b) && a == mem && reg16(x, b)
                    } else if grp == 4 {
                        ir matches IrOp::AND_MwA16_Rw(a, b) && a == mem && reg16(x, b)
                    } else if grp == 5 {
                        ir matches IrOp::SUB_MwA16_Rw(a, b) && a == mem && reg16(x, b)
                    } else if grp == 6 {
                        ir matches IrOp::XOR_MwA16_Rw(a, b) && a == mem && reg16(x, b)
                    } else {
                        ir matches IrOp::CMP_MwA16_Rw(a, b) && a == mem && reg16(x, b)
                    }
                } else {
                    if grp == 0 {
                        ir matches IrOp::ADD_Rw_MwA16(a, b) && reg16(x, a) && b == mem
                    } else if grp == 1 {
                        ir matches IrOp::OR_Rw_MwA16(a, b) && reg16(x, a) && b == mem
                    } else if grp == 2 {
                        ir matches IrOp::ADC_Rw_MwA16(a, b) && reg16(x, a) && b == mem
                    } else if grp == 3 {
                        ir matches IrOp::SBB_Rw_MwA16(a, b) && reg16(x, a) && b == mem
                    } else if grp == 4 {
                        ir matches IrOp::AND_Rw_MwA16(a, b) && reg16(x, a) && b == mem
                    } else if grp == 5 {
                        ir matches IrOp::SUB_Rw_MwA16(a, b) && reg16(x, a) && b == mem
                    } else if grp == 6 {
                        ir matches IrOp::XOR_Rw_MwA16(a, b) && reg16(x, a) && b == mem
                    } else {
                        ir matches IrOp::CMP_Rw_MwA16(a, b) && reg16(x, a) && b == mem
                    }
                }
            }
        },
        ModRmOperand::Mem32(mem, x) => {
            if is32 {
                if to_rm {
                    if grp == 0 {
                        ir matches IrOp::ADD_MdA32_Rd(a, b) && a == mem && reg32(x, b)
                    } else if grp == 1 {
                        ir matches IrOp::OR_MdA32_Rd(a, b) && a == mem && reg32(x, b)
                    } else if grp == 2 {
                        ir matches IrOp::ADC_MdA32_Rd(a, b) && a == mem && reg32(x, b)
                    } else if grp == 3 {
                        ir matches IrOp::SBB_MdA32_Rd(a, b) && a == mem && reg32(x, b)
                    } else if grp == 4 {
                        ir matches IrOp::AND_MdA32_Rd(a, b) && a == mem && reg32(x, b)
                    } else if grp == 5 {
                        ir matches IrOp::SUB_MdA32_Rd(a, b) && a == mem && reg32(x, b)
                    } else if grp == 6 {
                        ir matches IrOp::XOR_MdA32_Rd(a, b) && a == mem && reg32(x, b)
                    } else {
                        ir matches IrOp::CMP_MdA32_Rd(a, b) && a == mem && reg32(x, b)
                    }
                } else {
                    if grp == 0 {
                        ir matches IrOp::ADD_Rd_MdA32(a, b) && reg32(x, a) && b == mem
                    } else if grp == 1 {
                        ir matches IrOp::OR_Rd_MdA32(a, b) && reg32(x, a) && b == mem
                    } else if grp == 2 {
                        ir matches IrOp::ADC_Rd_MdA32(a, b) && reg32(x, a) && b == mem
                    } else if grp == 3 {
                        ir matches IrOp::SBB_Rd_MdA32(a, b) && reg32(x, a) && b == mem
                    } else if grp == 4 {
                        ir matches IrOp::AND_Rd_MdA32(a, b) && reg32(x, a) && b == mem
                    } else if grp == 5 {
                        ir matches IrOp::SUB_Rd_MdA32(a, b) && reg32(x, a) && b == mem
                    } else if grp == 6 {
                        ir matches IrOp::XOR_Rd_MdA32(a, b) && reg32(x, a) && b == mem
                    } else {
                        ir matches IrOp::CMP_Rd_MdA32(a, b) && reg32(x, a) && b == mem
                    }
                }
            } else {
                if to_rm {
                    if grp == 0 {
                        ir matches IrOp::ADD_MwA32_Rw(a, b) && a == mem && reg16(x, b)
                    } else if grp == 1 {
                        ir matches IrOp::OR_MwA32_Rw(a, b) && a == mem && reg16(x, b)
                    } else if grp == 2 {
                        ir matches IrOp::ADC_MwA32_Rw(a, b) && a == mem && reg16(x, b)
                    } else if grp == 3 {
                        ir matches IrOp::SBB_MwA32_Rw(a, b) && a == mem && reg16(x, b)
                    } else if grp == 4 {
                        ir matches IrOp::AND_MwA32_Rw(a, b) && a == mem && reg16(x, b)
                    } else if grp == 5 {
                        ir matches IrOp::SUB_MwA32_Rw(a, b) && a == mem && reg16(x, b)
                    } else if grp == 6 {
                        ir matches IrOp::XOR_MwA32_Rw(a, b) && a == mem && reg16(x, b)
                    } else {
                        ir matches IrOp::CMP_MwA32_Rw(a, b) && a == mem && reg16(x, b)
                    }
                } else {
                    if grp == 0 {
                        ir matches IrOp::ADD_Rw_MwA32(a, b) && reg16(x, a) && b == mem
                    } else if grp == 1 {
                        ir matches IrOp::OR_Rw_MwA32(a, b) && reg16(x, a) && b == mem
                    } else if grp == 2 {
                        ir matches IrOp::ADC_Rw_MwA32(a, b) && reg16(x, a) && b == mem
                    } else if grp == 3 {
                        ir matches IrOp::SBB_Rw_MwA32(a, b) && reg16(x, a) && b == mem
                    } else if grp == 4 {
                        ir matches IrOp::AND_Rw_MwA32(a, b) && reg16(x, a) && b == mem
                    } else if grp == 5 {
                        ir matches IrOp::SUB_Rw_MwA32(a, b) && reg16(x, a) && b == mem
                    } else if grp == 6 {
                        ir matches IrOp::XOR_Rw_MwA32(a, b) && reg16(x, a) && b == mem
                    } else {
                        ir matches IrOp::CMP_Rw_MwA32(a, b) && reg16(x, a) && b == mem
                    }
                }
            }
        },
    }
}

/// Whether `ir` is the 16- or 32-bit group-1 instruction (ADD, OR, ADC,
/// SBB, AND, SUB, XOR or CMP by the reg field) on the ModR/M operand `o` of
/// the size that `is32` gives, with the immediate `w` or `d` of that size.
pub open spec fn grp1_rel(is32: bool, o: RawOperand, w: u16, d: u32, ir: IrOp) -> bool {
    match o {
        ModRmOperand::Reg(m, x) => {
            let sub = x.value();
            if is32 {
                if sub == 0 {
                    ir matches IrOp::ADD_Rd_Id(g, i) && rm32(m, g) && i == d
                } else if sub == 1 {
                    ir matches IrOp::OR_Rd_Id(g, i) && rm32(m, g) && i == d
                } else if sub == 2 {
                    ir matches IrOp::ADC_Rd_Id(g, i) && rm32(m, g) && i == d
                } else if sub == 3 {
                    ir matches IrOp::SBB_Rd_Id(g, i) && rm32(m, g) && i == d
                } else if sub == 4 {
                    ir matches IrOp::AND_Rd_Id(g, i) && rm32(m, g) && i == d
                } else if sub == 5 {
                    ir matches IrOp::SUB_Rd_Id(g, i) && rm32(m, g) && i == d
                } else if sub == 6 {
                    ir matches IrOp::XOR_Rd_Id(g, i) && rm32(m, g) && i == d
                } else {
                    ir matches IrOp::CMP_Rd_Id(g, i) && rm32(m, g) && i == d
                }
            } else {
                if sub == 0 {
                    ir matches IrOp::ADD_Rw_Iw(g, i) && rm16(m, g) && i == w
                } else if sub == 1 {
                    ir matches IrOp::OR_Rw_Iw(g, i) && rm16(m, g) && i == w
                } else if sub == 2 {
                    ir matches IrOp::ADC_Rw_Iw(g, i) && rm16(m, g) && i == w
                } else if sub == 3 {
                    ir matches IrOp::SBB_Rw_Iw(g, i) && rm16(m, g) && i == w
                } else if sub == 4 {
                    ir matches IrOp::AND_Rw_Iw(g, i) && rm16(m, g) && i == w
                } else if sub == 5 {
                    ir matches IrOp::SUB_Rw_Iw(g, i) && rm16(m, g) && i == w
                } else if sub == 6 {
                    ir matches IrOp::XOR_Rw_Iw(g, i) && rm16(m, g) && i == w
                } else {
                    ir matches IrOp::CMP_Rw_Iw(g, i) && rm16(m, g) && i == w
                }
            }
        },
        ModRmOperand::Mem16(a, x) => {
            let sub = x.value();
            if is32 {
                if sub == 0 {
                    ir matches IrOp::ADD_MdA16_Id(p, i) && p == a && i == d
                } else if sub == 1 {
                    ir matches IrOp::OR_MdA16_Id(p, i) && p == a && i == d
                } else if sub == 2 {
                    ir matches IrOp::ADC_MdA16_Id(p, i) && p == a && i == d
                } else if sub == 3 {
                    ir matches IrOp::SBB_MdA16_Id(p, i) && p == a && i == d
                } else if sub == 4 {
                    ir matches IrOp::AND_MdA16_Id(p, i) && p == a && i == d
                } else if sub == 5 {
                    ir matches IrOp::SUB_MdA16_Id(p, i) && p == a && i == d
                } else if sub == 6 {
                    ir matches IrOp::XOR_MdA16_Id(p, i) && p == a && i == d
                } else {
                    ir matches IrOp::CMP_MdA16_Id(p, i) && p == a && i == d
                }
            } else {
                if sub == 0 {
                    ir matches IrOp::ADD_MwA16_Iw(p, i) && p == a && i == w
                } else if sub == 1 {
                    ir matches IrOp::OR_MwA16_Iw(p, i) && p == a && i == w
                } else if sub == 2 {
                    ir matches IrOp::ADC_MwA16_Iw(p, i) && p == a && i == w
                } else if sub == 3 {
                    ir matches IrOp::SBB_MwA16_Iw(p, i) && p == a && i == w
                } else if sub == 4 {
                    ir matches IrOp::AND_MwA16_Iw(p, i) && p == a && i == w
                } else if sub == 5 {
                    ir matches IrOp::SUB_MwA16_Iw(p, i) && p == a && i == w
                } else if sub == 6 {
                    ir matches IrOp::XOR_MwA16_Iw(p, i) && p == a && i == w
                } else {
                    ir matches IrOp::CMP_MwA16_Iw(p, i) && p == a && i == w
                }
            }
        },
        ModRmOperand::Mem32(a, x) => {
            let sub = x.value();
            if is32 {
                if sub == 0 {
                    ir matches IrOp::ADD_MdA32_Id(p, i) && p == a && i == d
                } else if sub == 1 {
                    ir matches IrOp::OR_MdA32_Id(p, i) && p == a && i == d
                } else if sub == 2 {
                    ir matches IrOp::ADC_MdA32_Id(p, i) && p == a && i == d
                } else if sub == 3 {
                    ir matches IrOp::SBB_MdA32_Id(p, i) && p == a && i == d
                } else if sub == 4 {
                    ir matches IrOp::AND_MdA32_Id(p, i) && p == a && i == d
                } else if sub == 5 {
                    ir matches IrOp::SUB_MdA32_Id(p, i) && p == a && i == d
                } else if sub == 6 {
                    ir matches IrOp::XOR_MdA32_Id(p, i) && p == a && i == d
                } else {
                    ir matches IrOp::CMP_MdA32_Id(p, i) && p == a && i == d
                }
            } else {
                if sub == 0 {
                    ir matches IrOp::ADD_MwA32_Iw(p, i) && p == a && i == w
                } else if sub == 1 {
                    ir matches IrOp::OR_MwA32_Iw(p, i) && p == a && i == w
                } else if sub == 2 {
                    ir matches IrOp::ADC_MwA32_Iw(p, i) && p == a && i == w
                } else if sub == 3 {
                    ir matches IrOp::SBB_MwA32_Iw(p, i) && p == a && i == w
                } else if sub == 4 {
                    ir matches IrOp::AND_MwA32_Iw(p, i) && p == a && i == w
                } else if sub == 5 {
                    ir matches IrOp::SUB_MwA32_Iw(p, i) && p == a && i == w
                } else if sub == 6 {
                    ir matches IrOp::XOR_MwA32_Iw(p, i) && p == a && i == w
                } else {
                    ir matches IrOp::CMP_MwA32_Iw(p, i) && p == a && i == w
                }
            }
        },
    }
}

/// Whether `ir` is the 8-bit group-1 instruction (ADD, OR, ADC, SBB, AND,
/// SUB, XOR or CMP by the reg field) on the ModR/M operand `o` with the
/// immediate byte `b`.
pub open spec fn grp1_b_rel(o: RawOperand, b: u8, ir: IrOp) -> bool {
    match o {
        ModRmOperand::Reg(m, x) => {
            let sub = x.value();
            if sub == 0 {
                ir matches IrOp::ADD_Rb_Ib(g, i) && rm8(m, g) && i == b
            } else if sub == 1 {
                ir matches IrOp::OR_Rb_Ib(g, i) && rm8(m, g) && i == b
            } else if sub == 2 {
                ir matches IrOp::ADC_Rb_Ib(g, i) && rm8(m, g) && i == b
            } else if sub == 3 {
                ir matches IrOp::SBB_Rb_Ib(g, i) && rm8(m, g) && i == b
            } else if sub == 4 {
                ir matches IrOp::AND_Rb_Ib(g, i) && rm8(m, g) && i == b
            } else if sub == 5 {
                ir matches IrOp::SUB_Rb_Ib(g, i) && rm8(m, g) && i == b
            } else if sub == 6 {
                ir matches IrOp::XOR_Rb_Ib(g, i) && rm8(m, g) && i == b
            } else {
                ir matches IrOp::CMP_Rb_Ib(g, i) && rm8(m, g) && i == b
            }
        },
        ModRmOperand::Mem16(a, x) => {
            let sub = x.value();
            if sub == 0 {
                ir matches IrOp::ADD_MbA16_Ib(p, i) && p == a && i == b
            } else if sub == 1 {
                ir matches IrOp::OR_MbA16_Ib(p, i) && p == a && i == b
            } else if sub == 2 {
                ir matches IrOp::ADC_MbA16_Ib(p, i) && p == a && i == b
            } else if sub == 3 {
                ir matches IrOp::SBB_MbA16_Ib(p, i) && p == a && i == b
            } else if sub == 4 {
                ir matches IrOp::AND_MbA16_Ib(p, i) && p == a && i == b
            } else if sub == 5 {
                ir matches IrOp::SUB_MbA16_Ib(p, i) && p == a && i == b
            } else if sub == 6 {
                ir matches IrOp::XOR_MbA16_Ib(p, i) && p == a && i == b
            } else {
                ir matches IrOp::CMP_MbA16_Ib(p, i) && p == a && i == b
            }
        },
        ModRmOperand::Mem32(a, x) => {
            let sub = x.value();
            if sub == 0 {
                ir matches IrOp::ADD_MbA32_Ib(p, i) && p == a && i == b
            } else if sub == 1 {
                ir matches IrOp::OR_MbA32_Ib(p, i) && p == a && i == b
            } else if sub == 2 {
                ir matches IrOp::ADC_MbA32_Ib(p, i) && p == a && i == b
            } else if sub == 3 {
                ir matches IrOp::SBB_MbA32_Ib(p, i) && p == a && i == b
            } else if sub == 4 {
                ir matches IrOp::AND_MbA32_Ib(p, i) && p == a && i == b
            } else if sub == 5 {
                ir matches IrOp::SUB_MbA32_Ib(p, i) && p == a && i == b
            } else if sub == 6 {
                ir matches IrOp::XOR_MbA32_Ib(p, i) && p == a && i == b
            } else {
                ir matches IrOp::CMP_MbA32_Ib(p, i) && p == a && i == b
            }
        },
    }
}

/// How many immediate bytes follow the ModR/M operand of the group-1
/// opcode `op` (0x80 to 0x83).
pub open spec fn grp1_imm_len(is32: bool, op: u8) -> nat {
    if op == 0x81 {
        if is32 { 4 } else { 2 }
    } else {
        1
    }
}

/// Whether `ir` is the instruction of the group-1 opcode `op` (0x80 to
/// 0x83: 0x82 as 0x80; 0x83 with its immediate byte sign-extended) on the
/// ModR/M operand `o`, followed by the bytes `t`.
pub open spec fn grp1_imm_rel(is32: bool, op: u8, o: RawOperand, t: Seq<u8>, ir: IrOp) -> bool {
    if op == 0x83 {
        grp1_rel(is32, o, t[0] as i8 as i16 as u16, t[0] as i8 as i32 as u32, ir)
    } else if op == 0x81 {
        grp1_rel(is32, o, le16(t[0], t[1]), le32(t[0], t[1], t[2], t[3]), ir)
    } else {
        grp1_b_rel(o, t[0], ir)
    }
}

/// The reg field of the raw operand `o`.
pub open spec fn reg_field(o: RawOperand) -> u8 {
    match o {
        ModRmOperand::Reg(_, x) => x.value(),
        ModRmOperand::Mem16(_, x) => x.value(),
        ModRmOperand::Mem32(_, x) => x.value(),
    }
}

/// How many immediate bytes follow the ModR/M operand `o` of the move of
/// an immediate, opcode `op` (0xc6: 8-bit; 0xc7: 16- or 32-bit by `is32`):
/// none where the instruction is undefined and decoding stops at the operand.
pub open spec fn mov_imm_len(is32: bool, op: u8, o: RawOperand) -> nat {
    if op == 0xc6 {
        if reg_field(o) == 0 { 1 } else { 0 }
    } else if is32 {
        4
    } else if o is Reg && reg_field(o) != 0 {
        0
    } else {
        2
    }
}

/// Whether `ir` is the move of an immediate (opcode `op`, 0xc6 or 0xc7) to
/// the ModR/M operand `o`, the immediate read from the bytes `t` after it.
pub open spec fn mov_imm_rel(is32: bool, op: u8, o: RawOperand, t: Seq<u8>, ir: IrOp) -> bool {
    if op == 0xc6 {
        if reg_field(o) != 0 {
            ir == IrOp::UD
        } else {
            match o {
                ModRmOperand::Reg(m, _) => ir matches IrOp::MOV_Rb_Ib(g, i) && rm8(m, g) && i == t[0],
                ModRmOperand::Mem16(a, _) => ir matches IrOp::MOV_MbA16_Ib(p, i) && p == a && i == t[0],
                ModRmOperand::Mem32(a, _) => ir matches IrOp::MOV_MbA32_Ib(p, i) && p == a && i == t[0],
            }
        }
    } else if is32 {
        let d = le32(t[0], t[1], t[2], t[3]);
        match o {
            ModRmOperand::Reg(m, _) => ir matches IrOp::MOV_Rd_Id(g, i) && rm32(m, g) && i == d,
            ModRmOperand::Mem16(a, _) => ir matches IrOp::MOV_MdA16_Id(p, i) && p == a && i == d,
            ModRmOperand::Mem32(a, _) => ir matches IrOp::MOV_MdA32_Id(p, i) && p == a && i == d,
        }
    } else {
        let w = le16(t[0], t[1]);
        match o {
            ModRmOperand::Reg(m, x) => if x.value() != 0 {
                ir == IrOp::UD
            } else {
                ir matches IrOp::MOV_Rw_Iw(g, i) && rm16(m, g) && i == w
            },
            ModRmOperand::Mem16(a, _) => ir matches IrOp::MOV_MwA16_Iw(p, i) && p == a && i == w,
            ModRmOperand::Mem32(a, _) => ir matches IrOp::MOV_MwA32_Iw(p, i) && p == a && i == w,
        }
    }
}

/// How many immediate bytes follow the ModR/M operand `o` of the group-3
/// opcode `op` (0xf6: 8-bit; 0xf7: 16- or 32-bit by `is32`): those of TEST
/// (reg field 0 or 1), none for the other operations.
pub open spec fn grp3_imm_len(is32: bool, op: u8, o: RawOperand) -> nat {
    if reg_field(o) > 1 {
        0
    } else if op == 0xf6 {
        1
    } else if is32 {
        4
    } else {
        2
    }
}

/// Whether `ir` is the group-3 instruction of opcode `op` (TEST with an
/// immediate, NOT, NEG, MUL, IMUL, DIV or IDIV by the reg field) on the
/// ModR/M operand `o`, the immediate read from the bytes `t` after it.
pub open spec fn grp3_rel(is32: bool, op: u8, o: RawOperand, t: Seq<u8>, ir: IrOp) -> bool {
    let sub = reg_field(o);
    let b = t[0];
    let w = le16(t[0], t[1]);
    let d = le32(t[0], t[1], t[2], t[3]);
    match o {
        ModRmOperand::Reg(m, _) => {
            if op == 0xf6 {
                if sub <= 1 {
                    ir matches IrOp::TEST_Rb_Ib(g, i) && rm8(m, g) && i == b
                } else if sub == 2 {
                    ir matches IrOp::NOT_Rb(g) && rm8(m, g)
                } else if sub == 3 {
                    ir matches IrOp::NEG_Rb(g) && rm8(m, g)
                } else if sub == 4 {
                    ir matches IrOp::MUL_Rb(g) && rm8(m, g)
                } else if sub == 5 {
                    ir matches IrOp::IMUL_Rb(g) && rm8(m, g)
                } else if sub == 6 {
                    ir matches IrOp::DIV_Rb(g) && rm8(m, g)
                } else {
                    ir matches IrOp::IDIV_Rb(g) && rm8(m, g)
                }
            } else if is32 {
                if sub <= 1 {
                    ir matches IrOp::TEST_Rd_Id(g, i) && rm32(m, g) && i == d
                } else if sub == 2 {
                    ir matches IrOp::NOT_Rd(g) && rm32(m, g)
                } else if sub == 3 {
                    ir matches IrOp::NEG_Rd(g) && rm32(m, g)
                } else if sub == 4 {
                    ir matches IrOp::MUL_Rd(g) && rm32(m, g)
                } else if sub == 5 {
                    ir matches IrOp::IMUL_Rd(g) && rm32(m, g)
                } else if sub == 6 {
                    ir matches IrOp::DIV_Rd(g) && rm32(m, g)
                } else {
                    ir matches IrOp::IDIV_Rd(g) && rm32(m, g)
                }
            } else {
                if sub <= 1 {
                    ir matches IrOp::TEST_Rw_Iw(g, i) && rm16(m, g) && i == w
                } else if sub == 2 {
                    ir matches IrOp::NOT_Rw(g) && rm16(m, g)
                } else if sub == 3 {
                    ir matches IrOp::NEG_Rw(g) && rm16(m, g)
                } else if sub == 4 {
                    ir matches IrOp::MUL_Rw(g) && rm16(m, g)
                } else if sub == 5 {
                    ir matches IrOp::IMUL_Rw(g) && rm16(m, g)
                } else if sub == 6 {
                    ir matches IrOp::DIV_Rw(g) && rm16(m, g)
                } else {
                    ir matches IrOp::IDIV_Rw(g) && rm16(m, g)
                }
            }
        },
        ModRmOperand::Mem16(a, _) => {
            if op == 0xf6 {
                if sub <= 1 {
                    ir matches IrOp::TEST_MbA16_Ib(p, i) && p == a && i == b
                } else if sub == 2 {
                    ir matches IrOp::NOT_MbA16(p) && p == a
                } else if sub == 3 {
                    ir matches IrOp::NEG_MbA16(p) && p == a
                } else if sub == 4 {
                    ir matches IrOp::MUL_MbA16(p) && p == a
                } else if sub == 5 {
                    ir matches IrOp::IMUL_MbA16(p) && p == a
                } else if sub == 6 {
                    ir matches IrOp::DIV_MbA16(p) && p == a
                } else {
                    ir matches IrOp::IDIV_MbA16(p) && p == a
                }
            } else if is32 {
                if sub <= 1 {
                    ir matches IrOp::TEST_MdA16_Id(p, i) && p == a && i == d
                } else if sub == 2 {
                    ir matches IrOp::NOT_MdA16(p) && p == a
                } else if sub == 3 {
                    ir matches IrOp::NEG_MdA16(p) && p == a
                } else if sub == 4 {
                    ir matches IrOp::MUL_MdA16(p) && p == a
                } else if sub == 5 {
                    ir matches IrOp::IMUL_MdA16(p) && p == a
                } else if sub == 6 {
                    ir matches IrOp::DIV_MdA16(p) && p == a
                } else {
                    ir matches IrOp::IDIV_MdA16(p) && p == a
                }
            } else {
                if sub <= 1 {
                    ir matches IrOp::TEST_MwA16_Iw(p, i) && p == a && i == w
                } else if sub == 2 {
                    ir matches IrOp::NOT_MwA16(p) && p == a
                } else if sub == 3 {
                    ir matches IrOp::NEG_MwA16(p) && p == a
                } else if sub == 4 {
                    ir matches IrOp::MUL_MwA16(p) && p == a
                } else if sub == 5 {
                    ir matches IrOp::IMUL_MwA16(p) && p == a
                } else if sub == 6 {
                    ir matches IrOp::DIV_MwA16(p) && p == a
                } else {
                    ir matches IrOp::IDIV_MwA16(p) && p == a
                }
            }
        },
        ModRmOperand::Mem32(a, _) => {
            if op == 0xf6 {
                if sub <= 1 {
                    ir matches IrOp::TEST_MbA32_Ib(p, i) && p == a && i == b
                } else if sub == 2 {
                    ir matches IrOp::NOT_MbA32(p) && p == a
                } else if sub == 3 {
                    ir matches IrOp::NEG_MbA32(p) && p == a
                } else if sub == 4 {
                    ir matches IrOp::MUL_MbA32(p) && p == a
                } else if sub == 5 {
                    ir matches IrOp::IMUL_MbA32(p) && p == a
                } else if sub == 6 {
                    ir matches IrOp::DIV_MbA32(p) && p == a
                } else {
                    ir matches IrOp::IDIV_MbA32(p) && p == a
                }
            } else if is32 {
                if sub <= 1 {
                    ir matches IrOp::TEST_MdA32_Id(p, i) && p == a && i == d
                } else if sub == 2 {
                    ir matches IrOp::NOT_MdA32(p) && p == a
                } else if sub == 3 {
                    ir matches IrOp::NEG_MdA32(p) && p == a
                } else if sub == 4 {
                    ir matches IrOp::MUL_MdA32(p) && p == a
                } else if sub == 5 {
                    ir matches IrOp::IMUL_MdA32(p) && p == a
                } else if sub == 6 {
                    ir matches IrOp::DIV_MdA32(p) && p == a
                } else {
                    ir matches IrOp::IDIV_MdA32(p) && p == a
                }
            } else {
                if sub <= 1 {
                    ir matches IrOp::TEST_MwA32_Iw(p, i) && p == a && i == w
                } else if sub == 2 {
                    ir matches IrOp::NOT_MwA32(p) && p == a
                } else if sub == 3 {
                    ir matches IrOp::NEG_MwA32(p) && p == a
                } else if sub == 4 {
                    ir matches IrOp::MUL_MwA32(p) && p == a
                } else if sub == 5 {
                    ir matches IrOp::IMUL_MwA32(p) && p == a
                } else if sub == 6 {
                    ir matches IrOp::DIV_MwA32(p) && p == a
                } else {
                    ir matches IrOp::IDIV_MwA32(p) && p == a
                }
            }
        },
    }
}

/// How many immediate bytes follow the ModR/M operand of the shift or
/// rotation opcode `op`: the count byte of 0xc0 and 0xc1, none for 0xd0 to
/// 0xd3.
pub open spec fn shift_imm_len(is32: bool, op: u8, o: RawOperand) -> nat {
    if op == 0xc0 || op == 0xc1 { 1 } else { 0 }
}

/// Whether `ir` is the shift or rotation of opcode `op` (0xc0, 0xc1: by an
/// immediate count; 0xd0, 0xd1: by one; 0xd2, 0xd3: by CL; the even ones
/// 8-bit, the odd ones 16- or 32-bit by `is32`) that the reg field selects
/// (ROL, ROR, RCL, RCR, SHL, SHR, SHL, SAR), on the ModR/M operand `o`, the
/// count read from the bytes `t` after it.
pub open spec fn shift_rel(is32: bool, op: u8, o: RawOperand, t: Seq<u8>, ir: IrOp) -> bool {
    let sub = reg_field(o);
    let byte = op % 2 == 0;
    let by_cl = op == 0xd2 || op == 0xd3;
    let count: u8 = if op == 0xc0 || op == 0xc1 { t[0] } else { 1 };
    match o {
        ModRmOperand::Reg(m, _) => {
            if byte {
                if by_cl {
                    if sub == 0 {
                        ir matches IrOp::ROL_Rb_Cl(g) && rm8(m, g)
                    } else if sub == 1 {
                        ir matches IrOp::ROR_Rb_Cl(g) && rm8(m, g)
                    } else if sub == 2 {
                        ir matches IrOp::RCL_Rb_Cl(g) && rm8(m, g)
                    } else if sub == 3 {
                        ir matches IrOp::RCR_Rb_Cl(g) && rm8(m, g)
                    } else if sub == 4 {
                        ir matches IrOp::SHL_Rb_Cl(g) && rm8(m, g)
                    } else if sub == 5 {
                        ir matches IrOp::SHR_Rb_Cl(g) && rm8(m, g)
                    } else if sub == 6 {
                        ir matches IrOp::SHL_Rb_Cl(g) && rm8(m, g)
                    } else {
                        ir matches IrOp::SAR_Rb_Cl(g) && rm8(m, g)
                    }
                } else {
                    if sub == 0 {
                        ir matches IrOp::ROL_Rb_Ib(g, i) && rm8(m, g) && i == count
                    } else if sub == 1 {
                        ir matches IrOp::ROR_Rb_Ib(g, i) && rm8(m, g) && i == count
                    } else if sub == 2 {
                        ir matches IrOp::RCL_Rb_Ib(g, i) && rm8(m, g) && i == count
                    } else if sub == 3 {
                        ir matches IrOp::RCR_Rb_Ib(g, i) && rm8(m, g) && i == count
                    } else if sub == 4 {
                        ir matches IrOp::SHL_Rb_Ib(g, i) && rm8(m, g) && i == count
                    } else if sub == 5 {
                        ir matches IrOp::SHR_Rb_Ib(g, i) && rm8(m, g) && i == count
                    } else if sub == 6 {
                        ir matches IrOp::SHL_Rb_Ib(g, i) && rm8(m, g) && i == count
                    } else {
                        ir matches IrOp::SAR_Rb_Ib(g, i) && rm8(m, g) && i == count
                    }
                }
            } else if is32 {
                if by_cl {
                    if sub == 0 {
                        ir matches IrOp::ROL_Rd_Cl(g) && rm32(m, g)
                    } else if sub == 1 {
                        ir matches IrOp::ROR_Rd_Cl(g) && rm32(m, g)
                    } else if sub == 2 {
                        ir matches IrOp::RCL_Rd_Cl(g) && rm32(m, g)
                    } else if sub == 3 {
                        ir matches IrOp::RCR_Rd_Cl(g) && rm32(m, g)
                    } else if sub == 4 {
                        ir matches IrOp::SHL_Rd_Cl(g) && rm32(m, g)
                    } else if sub == 5 {
                        ir matches IrOp::SHR_Rd_Cl(g) && rm32(m, g)
                    } else if sub == 6 {
                        ir matches IrOp::SHL_Rd_Cl(g) && rm32(m, g)
                    } else {
                        ir matches IrOp::SAR_Rd_Cl(g) && rm32(m, g)
                    }
                } else {
                    if sub == 0 {
                        ir matches IrOp::ROL_Rd_Ib(g, i) && rm32(m, g) && i == count
                    } else if sub == 1 {
                        ir matches IrOp::ROR_Rd_Ib(g, i) && rm32(m, g) && i == count
                    } else if sub == 2 {
                        ir matches IrOp::RCL_Rd_Ib(g, i) && rm32(m, g) && i == count
                    } else if sub == 3 {
                        ir matches IrOp::RCR_Rd_Ib(g, i) && rm32(m, g) && i == count
                    } else if sub == 4 {
                        ir matches IrOp::SHL_Rd_Ib(g, i) && rm32(m, g) && i == count
                    } else if sub == 5 {
                        ir matches IrOp::SHR_Rd_Ib(g, i) && rm32(m, g) && i == count
                    } else if sub == 6 {
                        ir matches IrOp::SHL_Rd_Ib(g, i) && rm32(m, g) && i == count
                    } else {
                        ir matches IrOp::SAR_Rd_Ib(g, i) && rm32(m, g) && i == count
                    }
                }
            } else {
                if by_cl {
                    if sub == 0 {
                        ir matches IrOp::ROL_Rw_Cl(g) && rm16(m, g)
                    } else if sub == 1 {
                        ir matches IrOp::ROR_Rw_Cl(g) && rm16(m, g)
                    } else if sub == 2 {
                        ir matches IrOp::RCL_Rw_Cl(g) && rm16(m, g)
                    } else if sub == 3 {
                        ir matches IrOp::RCR_Rw_Cl(g) && rm16(m, g)
                    } else if sub == 4 {
                        ir matches IrOp::SHL_Rw_Cl(g) && rm16(m, g)
                    } else if sub == 5 {
                        ir matches IrOp::SHR_Rw_Cl(g) && rm16(m, g)
                    } else if sub == 6 {
                        ir matches IrOp::SHL_Rw_Cl(g) && rm16(m, g)
                    } else {
                        ir matches IrOp::SAR_Rw_Cl(g) && rm16(m, g)
                    }
                } else {
                    if sub == 0 {
                        ir matches IrOp::ROL_Rw_Ib(g, i) && rm16(m, g) && i == count
                    } else if sub == 1 {
                        ir matches IrOp::ROR_Rw_Ib(g, i) && rm16(m, g) && i == count
                    } else if sub == 2 {
                        ir matches IrOp::RCL_Rw_Ib(g, i) && rm16(m, g) && i == count
                    } else if sub == 3 {
                        ir matches IrOp::RCR_Rw_Ib(g, i) && rm16(m, g) && i == count
                    } else if sub == 4 {
                        ir matches IrOp::SHL_Rw_Ib(g, i) && rm16(m, g) && i == count
                    } else if sub == 5 {
                        ir matches IrOp::SHR_Rw_Ib(g, i) && rm16(m, g) && i == count
                    } else if sub == 6 {
                        ir matches IrOp::SHL_Rw_Ib(g, i) && rm16(m, g) && i == count
                    } else {
                        ir matches IrOp::SAR_Rw_Ib(g, i) && rm16(m, g) && i == count
                    }
                }
            }
        },
        ModRmOperand::Mem16(a, _) => {
            if byte {
                if by_cl {
                    if sub == 0 {
                        ir matches IrOp::ROL_MbA16_Cl(p) && p == a
                    } else if sub == 1 {
                        ir matches IrOp::ROR_MbA16_Cl(p) && p == a
                    } else if sub == 2 {
                        ir matches IrOp::RCL_MbA16_Cl(p) && p == a
                    } else if sub == 3 {
                        ir matches IrOp::RCR_MbA16_Cl(p) && p == a
                    } else if sub == 4 {
                        ir matches IrOp::SHL_MbA16_Cl(p) && p == a
                    } else if sub == 5 {
                        ir matches IrOp::SHR_MbA16_Cl(p) && p == a
                    } else if sub == 6 {
                        ir matches IrOp::SHL_MbA16_Cl(p) && p == a
                    } else {
                        ir matches IrOp::SAR_MbA16_Cl(p) && p == a
                    }
                } else {
                    if sub == 0 {
                        ir matches IrOp::ROL_MbA16_Ib(p, i) && p == a && i == count
                    } else if sub == 1 {
                        ir matches IrOp::ROR_MbA16_Ib(p, i) && p == a && i == count
                    } else if sub == 2 {
                        ir matches IrOp::RCL_MbA16_Ib(p, i) && p == a && i == count
                    } else if sub == 3 {
                        ir matches IrOp::RCR_MbA16_Ib(p, i) && p == a && i == count
                    } else if sub == 4 {
                        ir matches IrOp::SHL_MbA16_Ib(p, i) && p == a && i == count
                    } else if sub == 5 {
                        ir matches IrOp::SHR_MbA16_Ib(p, i) && p == a && i == count
                    } else if sub == 6 {
                        ir matches IrOp::SHL_MbA16_Ib(p, i) && p == a && i == count
                    } else {
                        ir matches IrOp::SAR_MbA16_Ib(p, i) && p == a && i == count
                    }
                }
            } else if is32 {
                if by_cl {
                    if sub == 0 {
                        ir matches IrOp::ROL_MdA16_Cl(p) && p == a
                    } else if sub == 1 {
                        ir matches IrOp::ROR_MdA16_Cl(p) && p == a
                    } else if sub == 2 {
                        ir matches IrOp::RCL_MdA16_Cl(p) && p == a
                    } else if sub == 3 {
                        ir matches IrOp::RCR_MdA16_Cl(p) && p == a
                    } else if sub == 4 {
                        ir matches IrOp::SHL_MdA16_Cl(p) && p == a
                    } else if sub == 5 {
                        ir matches IrOp::SHR_MdA16_Cl(p) && p == a
                    } else if sub == 6 {
                        ir matches IrOp::SHL_MdA16_Cl(p) && p == a
                    } else {
                        ir matches IrOp::SAR_MdA16_Cl(p) && p == a
                    }
                } else {
                    if sub == 0 {
                        ir matches IrOp::ROL_MdA16_Ib(p, i) && p == a && i == count
                    } else if sub == 1 {
                        ir matches IrOp::ROR_MdA16_Ib(p, i) && p == a && i == count
                    } else if sub == 2 {
                        ir matches IrOp::RCL_MdA16_Ib(p, i) && p == a && i == count
                    } else if sub == 3 {
                        ir matches IrOp::RCR_MdA16_Ib(p, i) && p == a && i == count
                    } else if sub == 4 {
                        ir matches IrOp::SHL_MdA16_Ib(p, i) && p == a && i == count
                    } else if sub == 5 {
                        ir matches IrOp::SHR_MdA16_Ib(p, i) && p == a && i == count
                    } else if sub == 6 {
                        ir matches IrOp::SHL_MdA16_Ib(p, i) && p == a && i == count
                    } else {
                        ir matches IrOp::SAR_MdA16_Ib(p, i) && p == a && i == count
                    }
                }
            } else {
                if by_cl {
                    if sub == 0 {
                        ir matches IrOp::ROL_MwA16_Cl(p) && p == a
                    } else if sub == 1 {
                        ir matches IrOp::ROR_MwA16_Cl(p) && p == a
                    } else if sub == 2 {
                        ir matches IrOp::RCL_MwA16_Cl(p) && p == a
                    } else if sub == 3 {
                        ir matches IrOp::RCR_MwA16_Cl(p) && p == a
                    } else if sub == 4 {
                        ir matches IrOp::SHL_MwA16_Cl(p) && p == a
                    } else if sub == 5 {
                        ir matches IrOp::SHR_MwA16_Cl(p) && p == a
                    } else if sub == 6 {
                        ir matches IrOp::SHL_MwA16_Cl(p) && p == a
                    } else {
                        ir matches IrOp::SAR_MwA16_Cl(p) && p == a
                    }
                } else {
                    if sub == 0 {
                        ir matches IrOp::ROL_MwA16_Ib(p, i) && p == a && i == count
                    } else if sub == 1 {
                        ir matches IrOp::ROR_MwA16_Ib(p, i) && p == a && i == count
                    } else if sub == 2 {
                        ir matches IrOp::RCL_MwA16_Ib(p, i) && p == a && i == count
                    } else if sub == 3 {
                        ir matches IrOp::RCR_MwA16_Ib(p, i) && p == a && i == count
                    } else if sub == 4 {
                        ir matches IrOp::SHL_MwA16_Ib(p, i) && p == a && i == count
                    } else if sub == 5 {
                        ir matches IrOp::SHR_MwA16_Ib(p, i) && p == a && i == count
                    } else if sub == 6 {
                        ir matches IrOp::SHL_MwA16_Ib(p, i) && p == a && i == count
                    } else {
                        ir matches IrOp::SAR_MwA16_Ib(p, i) && p == a && i == count
                    }
                }
            }
        },
        ModRmOperand::Mem32(a, _) => {
            if byte {
                if by_cl {
                    if sub == 0 {
                        ir matches IrOp::ROL_MbA32_Cl(p) && p == a
                    } else if sub == 1 {
                        ir matches IrOp::ROR_MbA32_Cl(p) && p == a
                    } else if sub == 2 {
                        ir matches IrOp::RCL_MbA32_Cl(p) && p == a
                    } else if sub == 3 {
                        ir matches IrOp::RCR_MbA32_Cl(p) && p == a
                    } else if sub == 4 {
                        ir matches IrOp::SHL_MbA32_Cl(p) && p == a
                    } else if sub == 5 {
                        ir matches IrOp::SHR_MbA32_Cl(p) && p == a
                    } else if sub == 6 {
                        ir matches IrOp::SHL_MbA32_Cl(p) && p == a
                    } else {
                        ir matches IrOp::SAR_MbA32_Cl(p) && p == a
                    }
                } else {
                    if sub == 0 {
                        ir matches IrOp::ROL_MbA32_Ib(p, i) && p == a && i == count
                    } else if sub == 1 {
                        ir matches IrOp::ROR_MbA32_Ib(p, i) && p == a && i == count
                    } else if sub == 2 {
                        ir matches IrOp::RCL_MbA32_Ib(p, i) && p == a && i == count
                    } else if sub == 3 {
                        ir matches IrOp::RCR_MbA32_Ib(p, i) && p == a && i == count
                    } else if sub == 4 {
                        ir matches IrOp::SHL_MbA32_Ib(p, i) && p == a && i == count
                    } else if sub == 5 {
                        ir matches IrOp::SHR_MbA32_Ib(p, i) && p == a && i == count
                    } else if sub == 6 {
                        ir matches IrOp::SHL_MbA32_Ib(p, i) && p == a && i == count
                    } else {
                        ir matches IrOp::SAR_MbA32_Ib(p, i) && p == a && i == count
                    }
                }
            } else if is32 {
                if by_cl {
                    if sub == 0 {
                        ir matches IrOp::ROL_MdA32_Cl(p) && p == a
                    } else if sub == 1 {
                        ir matches IrOp::ROR_MdA32_Cl(p) && p == a
                    } else if sub == 2 {
                        ir matches IrOp::RCL_MdA32_Cl(p) && p == a
                    } else if sub == 3 {
                        ir matches IrOp::RCR_MdA32_Cl(p) && p == a
                    } else if sub == 4 {
                        ir matches IrOp::SHL_MdA32_Cl(p) && p == a
                    } else if sub == 5 {
                        ir matches IrOp::SHR_MdA32_Cl(p) && p == a
                    } else if sub == 6 {
                        ir matches IrOp::SHL_MdA32_Cl(p) && p == a
                    } else {
                        ir matches IrOp::SAR_MdA32_Cl(p) && p == a
                    }
                } else {
                    if sub == 0 {
                        ir matches IrOp::ROL_MdA32_Ib(p, i) && p == a && i == count
                    } else if sub == 1 {
                        ir matches IrOp::ROR_MdA32_Ib(p, i) && p == a && i == count
                    } else if sub == 2 {
                        ir matches IrOp::RCL_MdA32_Ib(p, i) && p == a && i == count
                    } else if sub == 3 {
                        ir matches IrOp::RCR_MdA32_Ib(p, i) && p == a && i == count
                    } else if sub == 4 {
                        ir matches IrOp::SHL_MdA32_Ib(p, i) && p == a && i == count
                    } else if sub == 5 {
                        ir matches IrOp::SHR_MdA32_Ib(p, i) && p == a && i == count
                    } else if sub == 6 {
                        ir matches IrOp::SHL_MdA32_Ib(p, i) && p == a && i == count
                    } else {
                        ir matches IrOp::SAR_MdA32_Ib(p, i) && p == a && i == count
                    }
                }
            } else {
                if by_cl {
                    if sub == 0 {
                        ir matches IrOp::ROL_MwA32_Cl(p) && p == a
                    } else if sub == 1 {
                        ir matches IrOp::ROR_MwA32_Cl(p) && p == a
                    } else if sub == 2 {
                        ir matches IrOp::RCL_MwA32_Cl(p) && p == a
                    } else if sub == 3 {
                        ir matches IrOp::RCR_MwA32_Cl(p) && p == a
                    } else if sub == 4 {
                        ir matches IrOp::SHL_MwA32_Cl(p) && p == a
                    } else if sub == 5 {
                        ir matches IrOp::SHR_MwA32_Cl(p) && p == a
                    } else if sub == 6 {
                        ir matches IrOp::SHL_MwA32_Cl(p) && p == a
                    } else {
                        ir matches IrOp::SAR_MwA32_Cl(p) && p == a
                    }
                } else {
                    if sub == 0 {
                        ir matches IrOp::ROL_MwA32_Ib(p, i) && p == a && i == count
                    } else if sub == 1 {
                        ir matches IrOp::ROR_MwA32_Ib(p, i) && p == a && i == count
                    } else if sub == 2 {
                        ir matches IrOp::RCL_MwA32_Ib(p, i) && p == a && i == count
                    } else if sub == 3 {
                        ir matches IrOp::RCR_MwA32_Ib(p, i) && p == a && i == count
                    } else if sub == 4 {
                        ir matches IrOp::SHL_MwA32_Ib(p, i) && p == a && i == count
                    } else if sub == 5 {
                        ir matches IrOp::SHR_MwA32_Ib(p, i) && p == a && i == count
                    } else if sub == 6 {
                        ir matches IrOp::SHL_MwA32_Ib(p, i) && p == a && i == count
                    } else {
                        ir matches IrOp::SAR_MwA32_Ib(p, i) && p == a && i == count
                    }
                }
            }
        },
    }
}

/// No immediate follows the ModR/M operand of opcodes 0xfe and 0xff.
pub open spec fn incdec_imm_len(is32: bool, op: u8, o: RawOperand) -> nat {
    0
}

/// Whether `ir` is the group-4 (0xfe: 8-bit INC, DEC) or group-5 (0xff:
/// INC, DEC, CALL, far CALL, JMP, far JMP, PUSH, 16- or 32-bit by `is32`)
/// instruction that the reg field selects on the ModR/M operand `o`; the
/// far forms and the last subcode have no register form, and decode as
/// undefined there.
pub open spec fn incdec_rel(is32: bool, op: u8, o: RawOperand, t: Seq<u8>, ir: IrOp) -> bool {
    let sub = reg_field(o);
    match o {
        ModRmOperand::Reg(m, _) => {
            if op == 0xfe {
                if sub == 0 {
                    ir matches IrOp::INC_Rb(g) && rm8(m, g)
                } else if sub == 1 {
                    ir matches IrOp::DEC_Rb(g) && rm8(m, g)
                } else {
                    ir == IrOp::UD
                }
            } else if is32 {
                if sub == 0 {
                    ir matches IrOp::INC_Rd(g) && rm32(m, g)
                } else if sub == 1 {
                    ir matches IrOp::DEC_Rd(g) && rm32(m, g)
                } else if sub == 2 {
                    ir matches IrOp::CALL_Rd(g) && rm32(m, g)
                } else if sub == 4 {
                    ir matches IrOp::JMP_Rd(g) && rm32(m, g)
                } else if sub == 6 {
                    ir matches IrOp::PUSH_Rd(g) && rm32(m, g)
                } else {
                    ir == IrOp::UD
                }
            } else {
                if sub == 0 {
                    ir matches IrOp::INC_Rw(g) && rm16(m, g)
                } else if sub == 1 {
                    ir matches IrOp::DEC_Rw(g) && rm16(m, g)
                } else if sub == 2 {
                    ir matches IrOp::CALL_Rw(g) && rm16(m, g)
                } else if sub == 4 {
                    ir matches IrOp::JMP_Rw(g) && rm16(m, g)
                } else if sub == 6 {
                    ir matches IrOp::PUSH_Rw(g) && rm16(m, g)
                } else {
                    ir == IrOp::UD
                }
            }
        },
        ModRmOperand::Mem16(a, _) => {
            if op == 0xfe {
                if sub == 0 {
                    ir matches IrOp::INC_MbA16(p) && p == a
                } else if sub == 1 {
                    ir matches IrOp::DEC_MbA16(p) && p == a
                } else {
                    ir == IrOp::UD
                }
            } else if is32 {
                if sub == 0 {
                    ir matches IrOp::INC_MdA16(p) && p == a
                } else if sub == 1 {
                    ir matches IrOp::DEC_MdA16(p) && p == a
                } else if sub == 2 {
                    ir matches IrOp::CALL_MdA16(p) && p == a
                } else if sub == 3 {
                    ir matches IrOp::CALLF_MpA16O32(p) && p == a
                } else if sub == 4 {
                    ir matches IrOp::JMP_MdA16(p) && p == a
                } else if sub == 5 {
                    ir matches IrOp::JMPF_MpA16O32(p) && p == a
                } else if sub == 6 {
                    ir matches IrOp::PUSH_MdA16(p) && p == a
                } else {
                    ir == IrOp::UD
                }
            } else {
                if sub == 0 {
                    ir matches IrOp::INC_MwA16(p) && p == a
                } else if sub == 1 {
                    ir matches IrOp::DEC_MwA16(p) && p == a
                } else if sub == 2 {
                    ir matches IrOp::CALL_MwA16(p) && p == a
                } else if sub == 3 {
                    ir matches IrOp::CALLF_MpA16O16(p) && p == a
                } else if sub == 4 {
                    ir matches IrOp::JMP_MwA16(p) && p == a
                } else if sub == 5 {
                    ir matches IrOp::JMPF_MpA16O16(p) && p == a
                } else if sub == 6 {
                    ir matches IrOp::PUSH_MwA16(p) && p == a
                } else {
                    ir == IrOp::UD
                }
            }
        },
        ModRmOperand::Mem32(a, _) => {
            if op == 0xfe {
                if sub == 0 {
                    ir matches IrOp::INC_MbA32(p) && p == a
                } else if sub == 1 {
                    ir matches IrOp::DEC_MbA32(p) && p == a
                } else {
                    ir == IrOp::UD
                }
            } else if is32 {
                if sub == 0 {
                    ir matches IrOp::INC_MdA32(p) && p == a
                } else if sub == 1 {
                    ir matches IrOp::DEC_MdA32(p) && p == a
                } else if sub == 2 {
                    ir matches IrOp::CALL_MdA32(p) && p == a
                } else if sub == 3 {
                    ir matches IrOp::CALLF_MpA32O32(p) && p == a
                } else if sub == 4 {
                    ir matches IrOp::JMP_MdA32(p) && p == a
                } else if sub == 5 {
                    ir matches IrOp::JMPF_MpA32O32(p) && p == a
                } else if sub == 6 {
                    ir matches IrOp::PUSH_MdA32(p) && p == a
                } else {
                    ir == IrOp::UD
                }
            } else {
                if sub == 0 {
                    ir matches IrOp::INC_MwA32(p) && p == a
                } else if sub == 1 {
                    ir matches IrOp::DEC_MwA32(p) && p == a
                } else if sub == 2 {
                    ir matches IrOp::CALL_MwA32(p) && p == a
                } else if sub == 3 {
                    ir matches IrOp::CALLF_MpA32O16(p) && p == a
                } else if sub == 4 {
                    ir matches IrOp::JMP_MwA32(p) && p == a
                } else if sub == 5 {
                    ir matches IrOp::JMPF_MpA32O16(p) && p == a
                } else if sub == 6 {
                    ir matches IrOp::PUSH_MwA32(p) && p == a
                } else {
                    ir == IrOp::UD
                }
            }
        },
    }
}

/// How many immediate bytes follow the ModR/M operand of opcode `op`: the
/// 16- or 32-bit immediate of IMUL (0x69), none for LEA (0x8d) and POP
/// (0x8f).
pub open spec fn lea_pop_imul_len(is32: bool, op: u8, o: RawOperand) -> nat {
    if op == 0x69 {
        if is32 { 4 } else { 2 }
    } else {
        0
    }
}

/// Whether `ir` is the instruction of opcode `op` on the ModR/M operand `o`
/// of the size that `is32` gives: IMUL of the r/m operand by the immediate
/// read from `t` into the reg operand (0x69), LEA of the memory operand into
/// the reg operand, undefined for a register (0x8d), or POP to the r/m
/// operand, undefined for a reg field other than 0 (0x8f).
pub open spec fn lea_pop_imul_rel(is32: bool, op: u8, o: RawOperand, t: Seq<u8>, ir: IrOp) -> bool {
    let w = le16(t[0], t[1]);
    let d = le32(t[0], t[1], t[2], t[3]);
    if op == 0x69 {
        match o {
            ModRmOperand::Reg(m, x) => if is32 {
                ir matches IrOp::IMUL_Rd_Rd_Id(r, g, i) && reg32(x, r) && rm32(m, g) && i == d
            } else {
                ir matches IrOp::IMUL_Rw_Rw_Iw(r, g, i) && reg16(x, r) && rm16(m, g) && i == w
            },
            ModRmOperand::Mem16(a, x) => if is32 {
                ir matches IrOp::IMUL_Rd_MdA16_Id(r, p, i) && reg32(x, r) && p == a && i == d
            } else {
                ir matches IrOp::IMUL_Rw_MwA16_Iw(r, p, i) && reg16(x, r) && p == a && i == w
            },
            ModRmOperand::Mem32(a, x) => if is32 {
                ir matches IrOp::IMUL_Rd_MdA32_Id(r, p, i) && reg32(x, r) && p == a && i == d
            } else {
                ir matches IrOp::IMUL_Rw_MwA32_Iw(r, p, i) && reg16(x, r) && p == a && i == w
            },
        }
    } else if op == 0x8d {
        match o {
            ModRmOperand::Reg(_, _) => ir == IrOp::UD,
            ModRmOperand::Mem16(a, x) => if is32 {
                ir matches IrOp::LEA_Rd_MdA16(r, p) && reg32(x, r) && p == a
            } else {
                ir matches IrOp::LEA_Rw_MwA16(r, p) && reg16(x, r) && p == a
            },
            ModRmOperand::Mem32(a, x) => if is32 {
                ir matches IrOp::LEA_Rd_MdA32(r, p) && reg32(x, r) && p == a
            } else {
                ir matches IrOp::LEA_Rw_MwA32(r, p) && reg16(x, r) && p == a
            },
        }
    } else if reg_field(o) != 0 {
        ir == IrOp::UD
    } else {
        match o {
            ModRmOperand::Reg(m, _) => if is32 {
                ir matches IrOp::POP_Rd(g) && rm32(m, g)
            } else {
                ir matches IrOp::POP_Rw(g) && rm16(m, g)
            },
            ModRmOperand::Mem16(a, _) => if is32 {
                ir matches IrOp::POP_MdA16(p) && p == a
            } else {
                ir matches IrOp::POP_MwA16(p) && p == a
            },
            ModRmOperand::Mem32(a, _) => if is32 {
                ir matches IrOp::POP_MdA32(p) && p == a
            } else {
                ir matches IrOp::POP_MwA32(p) && p == a
            },
        }
    }
}

/// No immediate follows the ModR/M operand of the two-byte opcodes 0xaf,
/// 0xb6, 0xb7, 0xbe and 0xbf.
pub open spec fn ext_imm_len(is32: bool, op: u8, o: RawOperand) -> nat {
    0
}

/// Whether `ir` is the instruction of the two-byte opcode `op` (after 0x0f)
/// on the ModR/M operand `o` and the reg operand of the size that `is32`
/// gives: IMUL (0xaf), MOVZX from 8 bits (0xb6) or 16 bits (0xb7), MOVSX
/// from 8 bits (0xbe) or 16 bits (0xbf); from 16 bits to 16 bits a MOV.
pub open spec fn ext_rel(is32: bool, op: u8, o: RawOperand, t: Seq<u8>, ir: IrOp) -> bool {
    match o {
        ModRmOperand::Reg(m, x) => if is32 {
            if op == 0xaf {
                ir matches IrOp::IMUL_Rd_Rd(r, g) && reg32(x, r) && rm32(m, g)
            } else if op == 0xb6 {
                ir matches IrOp::MOVZX_Rd_Rb(r, g) && reg32(x, r) && rm8(m, g)
            } else if op == 0xb7 {
                ir matches IrOp::MOVZX_Rd_Rw(r, g) && reg32(x, r) && rm16(m, g)
            } else if op == 0xbe {
                ir matches IrOp::MOVSX_Rd_Rb(r, g) && reg32(x, r) && rm8(m, g)
            } else {
                ir matches IrOp::MOVSX_Rd_Rw(r, g) && reg32(x, r) && rm16(m, g)
            }
        } else {
            if op == 0xaf {
                ir matches IrOp::IMUL_Rw_Rw(r, g) && reg16(x, r) && rm16(m, g)
            } else if op == 0xb6 {
                ir matches IrOp::MOVZX_Rw_Rb(r, g) && reg16(x, r) && rm8(m, g)
            } else if op == 0xb7 {
                ir matches IrOp::MOV_Rw_Rw(r, g) && reg16(x, r) && rm16(m, g)
            } else if op == 0xbe {
                ir matches IrOp::MOVSX_Rw_Rb(r, g) && reg16(x, r) && rm8(m, g)
            } else {
                ir matches IrOp::MOV_Rw_Rw(r, g) && reg16(x, r) && rm16(m, g)
            }
        },
        ModRmOperand::Mem16(a, x) => if is32 {
            if op == 0xaf {
                ir matches IrOp::IMUL_Rd_MdA16(r, p) && reg32(x, r) && p == a
            } else if op == 0xb6 {
                ir matches IrOp::MOVZX_Rd_MbA16(r, p) && reg32(x, r) && p == a
            } else if op == 0xb7 {
                ir matches IrOp::MOVZX_Rd_MwA16(r, p) && reg32(x, r) && p == a
            } else if op == 0xbe {
                ir matches IrOp::MOVSX_Rd_MbA16(r, p) && reg32(x, r) && p == a
            } else {
                ir matches IrOp::MOVSX_Rd_MwA16(r, p) && reg32(x, r) && p == a
            }
        } else {
            if op == 0xaf {
                ir matches IrOp::IMUL_Rw_MwA16(r, p) && reg16(x, r) && p == a
            } else if op == 0xb6 {
                ir matches IrOp::MOVZX_Rw_MbA16(r, p) && reg16(x, r) && p == a
            } else if op == 0xb7 {
                ir matches IrOp::MOV_Rw_MwA16(r, p) && reg16(x, r) && p == a
            } else if op == 0xbe {
                ir matches IrOp::MOVSX_Rw_MbA16(r, p) && reg16(x, r) && p == a
            } else {
                ir matches IrOp::MOV_Rw_MwA16(r, p) && reg16(x, r) && p == a
            }
        },
        ModRmOperand::Mem32(a, x) => if is32 {
            if op == 0xaf {
                ir matches IrOp::IMUL_Rd_MdA32(r, p) && reg32(x, r) && p == a
            } else if op == 0xb6 {
                ir matches IrOp::MOVZX_Rd_MbA32(r, p) && reg32(x, r) && p == a
            } else if op == 0xb7 {
                ir matches IrOp::MOVZX_Rd_MwA32(r, p) && reg32(x, r) && p == a
            } else if op == 0xbe {
                ir matches IrOp::MOVSX_Rd_MbA32(r, p) && reg32(x, r) && p == a
            } else {
                ir matches IrOp::MOVSX_Rd_MwA32(r, p) && reg32(x, r) && p == a
            }
        } else {
            if op == 0xaf {
                ir matches IrOp::IMUL_Rw_MwA32(r, p) && reg16(x, r) && p == a
            } else if op == 0xb6 {
                ir matches IrOp::MOVZX_Rw_MbA32(r, p) && reg16(x, r) && p == a
            } else if op == 0xb7 {
                ir matches IrOp::MOV_Rw_MwA32(r, p) && reg16(x, r) && p == a
            } else if op == 0xbe {
                ir matches IrOp::MOVSX_Rw_MbA32(r, p) && reg16(x, r) && p == a
            } else {
                ir matches IrOp::MOV_Rw_MwA32(r, p) && reg16(x, r) && p == a
            }
        },
    }
}

/// Whether `ir` is the instruction of opcode `op`, 0x84 to 0x8b (TEST,
/// XCHG, MOV to r/m, MOV to reg; even: 8-bit, odd: 16- or 32-bit by
/// `is32`), on the ModR/M operand `o`.
pub open spec fn mov_test_xchg_rel(is32: bool, op: u8, o: RawOperand, ir: IrOp) -> bool {
    match o {
        ModRmOperand::Reg(m, x) => if op % 2 == 0 {
            if op == 0x84 {
                ir matches IrOp::TEST_Rb_Rb(a, b) && rm8(m, a) && reg8(x, b)
            } else if op == 0x86 {
                ir matches IrOp::XCHG_Rb_Rb(a, b) && rm8(m, a) && reg8(x, b)
            } else if op == 0x88 {
                ir matches IrOp::MOV_Rb_Rb(a, b) && rm8(m, a) && reg8(x, b)
            } else {
                ir matches IrOp::MOV_Rb_Rb(a, b) && reg8(x, a) && rm8(m, b)
            }
        } else if is32 {
            if op == 0x85 {
                ir matches IrOp::TEST_Rd_Rd(a, b) && rm32(m, a) && reg32(x, b)
            } else if op == 0x87 {
                ir matches IrOp::XCHG_Rd_Rd(a, b) && rm32(m, a) && reg32(x, b)
            } else if op == 0x89 {
                ir matches IrOp::MOV_Rd_Rd(a, b) && rm32(m, a) && reg32(x, b)
            } else {
                ir matches IrOp::MOV_Rd_Rd(a, b) && reg32(x, a) && rm32(m, b)
            }
        } else {
            if op == 0x85 {
                ir matches IrOp::TEST_Rw_Rw(a, b) && rm16(m, a) && reg16(x, b)
            } else if op == 0x87 {
                ir matches IrOp::XCHG_Rw_Rw(a, b) && rm16(m, a) && reg16(x, b)
            } else if op == 0x89 {
                ir matches IrOp::MOV_Rw_Rw(a, b) && rm16(m, a) && reg16(x, b)
            } else {
                ir matches IrOp::MOV_Rw_Rw(a, b) && reg16(x, a) && rm16(m, b)
            }
        },
        ModRmOperand::Mem16(mem, x) => if op % 2 == 0 {
            if op == 0x84 {
                ir matches IrOp::TEST_MbA16_Rb(a, b) && a == mem && reg8(x, b)
            } else if op == 0x86 {
                ir matches IrOp::XCHG_MbA16_Rb(a, b) && a == mem && reg8(x, b)
            } else if op == 0x88 {
                ir matches IrOp::MOV_MbA16_Rb(a, b) && a == mem && reg8(x, b)
            } else {
                ir matches IrOp::MOV_Rb_MbA16(a, b) && reg8(x, a) && b == mem
            }
        } else if is32 {
            if op == 0x85 {
                ir matches IrOp::TEST_MdA16_Rd(a, b) && a == mem && reg32(x, b)
            } else if op == 0x87 {
                ir matches IrOp::XCHG_MdA16_Rd(a, b) && a == mem && reg32(x, b)
            } else if op == 0x89 {
                ir matches IrOp::MOV_MdA16_Rd(a, b) && a == mem && reg32(x, b)
            } else {
                ir matches IrOp::MOV_Rd_MdA16(a, b) && reg32(x, a) && b == mem
            }
        } else {
            if op == 0x85 {
                ir matches IrOp::TEST_MwA16_Rw(a, b) && a == mem && reg16(x, b)
            } else if op == 0x87 {
                ir matches IrOp::XCHG_MwA16_Rw(a, b) && a == mem && reg16(x, b)
            } else if op == 0x89 {
                ir matches IrOp::MOV_MwA16_Rw(a, b) && a == mem && reg16(x, b)
            } else {
                ir matches IrOp::MOV_Rw_MwA16(a, b) && reg16(x, a) && b == mem
            }
        },
        ModRmOperand::Mem32(mem, x) => if op % 2 == 0 {
            if op == 0x84 {
                ir matches IrOp::TEST_MbA32_Rb(a, b) && a == mem && reg8(x, b)
            } else if op == 0x86 {
                ir matches IrOp::XCHG_MbA32_Rb(a, b) && a == mem && reg8(x, b)
            } else if op == 0x88 {
                ir matches IrOp::MOV_MbA32_Rb(a, b) && a == mem && reg8(x, b)
            } else {
                ir matches IrOp::MOV_Rb_MbA32(a, b) && reg8(x, a) && b == mem
            }
        } else if is32 {
            if op == 0x85 {
                ir matches IrOp::TEST_MdA32_Rd(a, b) && a == mem && reg32(x, b)
            } else if op == 0x87 {
                ir matches IrOp::XCHG_MdA32_Rd(a, b) && a == mem && reg32(x, b)
            } else if op == 0x89 {
                ir matches IrOp::MOV_MdA32_Rd(a, b) && a == mem && reg32(x, b)
            } else {
                ir matches IrOp::MOV_Rd_MdA32(a, b) && reg32(x, a) && b == mem
            }
        } else {
            if op == 0x85 {
                ir matches IrOp::TEST_MwA32_Rw(a, b) && a == mem && reg16(x, b)
            } else if op == 0x87 {
                ir matches IrOp::XCHG_MwA32_Rw(a, b) && a == mem && reg16(x, b)
            } else if op == 0x89 {
                ir matches IrOp::MOV_MwA32_Rw(a, b) && a == mem && reg16(x, b)
            } else {
                ir matches IrOp::MOV_Rw_MwA32(a, b) && reg16(x, a) && b == mem
            }
        },
    }
}


/// A string instruction as the prefix in `ctx` makes it: `rep` after REP or
/// REPNE, undefined after LOCK.
pub open spec fn rep_form(ctx: DecoderContext, plain: IrOp, rep: IrOp) -> IrOp {
    match ctx.prefix_fx {
        PrefixFx::NP => plain,
        PrefixFx::F2_REPNZ | PrefixFx::F3_REPZ => rep,
        PrefixFx::F0_LOCK => IrOp::UD,
    }
}

/// A comparing string instruction as the prefix in `ctx` makes it: `repnz`
/// after REPNE, `repz` after REP, undefined after LOCK.
pub open spec fn repz_form(ctx: DecoderContext, plain: IrOp, repnz: IrOp, repz: IrOp) -> IrOp {
    match ctx.prefix_fx {
        PrefixFx::NP => plain,
        PrefixFx::F2_REPNZ => repnz,
        PrefixFx::F3_REPZ => repz,
        PrefixFx::F0_LOCK => IrOp::UD,
    }
}

/// The instruction of a two-byte opcode `0x0f op` that takes no byte after
/// it; `None` for the others.
pub open spec fn operandless_0f(op: u8) -> Option<IrOp> {
    if op == 0x05 {
        Some(IrOp::SYSCALL)
    } else if op == 0x06 {
        Some(IrOp::CLTS)
    } else if op == 0x07 {
        Some(IrOp::SYSRET)
    } else if op == 0x08 {
        Some(IrOp::INVD)
    } else if op == 0x09 {
        Some(IrOp::WBINVD)
    } else if op == 0x0b || op == 0x38 || op == 0x3a {
        Some(IrOp::UD)
    } else if op == 0x30 {
        Some(IrOp::WRMSR)
    } else if op == 0x31 {
        Some(IrOp::RDTSC)
    } else if op == 0x32 {
        Some(IrOp::RDMSR)
    } else if op == 0x34 {
        Some(IrOp::SYSENTER)
    } else if op == 0x35 {
        Some(IrOp::SYSEXIT)
    } else if op == 0xa0 {
        Some(IrOp::PUSH_Sr(FS))
    } else if op == 0xa1 {
        Some(IrOp::POP_Sr(FS))
    } else if op == 0xa2 {
        Some(IrOp::CPUID)
    } else if op == 0xa8 {
        Some(IrOp::PUSH_Sr(GS))
    } else if op == 0xa9 {
        Some(IrOp::POP_Sr(GS))
    } else if op == 0xaa {
        Some(IrOp::RSM)
    } else if 0xc8 <= op <= 0xcf {
        Some(IrOp::BSWAP_Rd(GprIndex32::spec_from(op)))
    } else {
        None
    }
}

/// Whether `r` is the near conditional jump `0x0f op` (op from 0x80 to
/// 0x8f), its displacement read from `s` at `eip`, in `ctx`: a 32-bit
/// displacement, or a 16-bit one whose target wraps to 16 bits; `rest` is
/// what follows it.
pub open spec fn is_jcc_near(ctx: DecoderContext, op: u8, s: Seq<u8>, eip: u32, r: IrOp, rest: Seq<u8>) -> bool {
    if ctx.is_opsize32 {
        &&& s.len() >= 4
        &&& rest == s.skip(4)
        &&& r matches IrOp::JCC_Jv(cc, target) && cc.code() == op % 16
            && target.0 == (((eip + 4) % 0x1_0000_0000) as u32).wrapping_add(le32(s[0], s[1], s[2], s[3]))
    } else {
        &&& s.len() >= 2
        &&& rest == s.skip(2)
        &&& r matches IrOp::JCC_Jv(cc, target) && cc.code() == op % 16
            && target.0 == (((eip + 2) % 0x1_0000_0000) as u32).wrapping_add(le16(s[0], s[1]) as i16 as u32) & 0xffff
    }
}

/// The operand that a ModR/M byte selects in its r/m field, with the operand
/// that its reg field selects.
#[derive(Debug, Clone, Copy, PartialEq, Eq, Structural)]
pub enum ModRmOperand<R, X> {
    /// The r/m field names a register (the mod field is 3).
    Reg(R, X),
    /// The r/m field names memory, with 16-bit addressing.
    Mem16(MemOpr16, X),
    /// The r/m field names memory, with 32-bit addressing.
    Mem32(MemOpr32, X),
}

/// An operand whose size follows the operand-size attribute.
#[derive(Debug, Clone, Copy, PartialEq, Eq, Structural)]
pub enum SizedOperand<W, D> {
    /// 16-bit operand size.
    Word(W),
    /// 32-bit operand size.
    Dword(D),
}

/// The raw operand of a ModR/M byte: the byte itself when it names a register,
/// the memory operand otherwise, each with the number in its reg field.
pub type RawOperand = ModRmOperand<ModRM, Index3>;

/// Whether `r` is the raw operand `o` with its register and reg-field parts
/// read by `reg` and `idx`.
pub open spec fn operand_rel<R, X>(
    o: RawOperand,
    r: ModRmOperand<R, X>,
    reg: spec_fn(ModRM, R) -> bool,
    idx: spec_fn(Index3, X) -> bool,
) -> bool {
    match (o, r) {
        (ModRmOperand::Reg(m, x), ModRmOperand::Reg(g, y)) => reg(m, g) && idx(x, y),
        (ModRmOperand::Mem16(a, x), ModRmOperand::Mem16(b, y)) => a == b && idx(x, y),
        (ModRmOperand::Mem32(a, x), ModRmOperand::Mem32(b, y)) => a == b && idx(x, y),
        _ => false,
    }
}

/// Whether `r` is the operand `o` sized by the operand-size attribute `is32`.
pub open spec fn sized_rel<W, D>(
    is32: bool,
    o: RawOperand,
    r: SizedOperand<W, D>,
    w: spec_fn(RawOperand, W) -> bool,
    d: spec_fn(RawOperand, D) -> bool,
) -> bool {
    match r {
        SizedOperand::Word(x) => !is32 && w(o, x),
        SizedOperand::Dword(x) => is32 && d(o, x),
    }
}

/// The raw operand itself.
pub open spec fn same_operand(o: RawOperand, x: RawOperand) -> bool {
    o == x
}

/// The raw ModR/M byte of a register operand.
pub open spec fn same_modrm(m: ModRM, g: ModRM) -> bool {
    m == g
}

/// The 8-bit register that the r/m field names.
pub open spec fn rm8(m: ModRM, g: GprIndex8) -> bool {
    g.index() == m.spec_rm()
}

/// The 16-bit register that the r/m field names.
pub open spec fn rm16(m: ModRM, g: GprIndex16) -> bool {
    g.index() == m.spec_rm()
}

/// The 32-bit register that the r/m field names.
pub open spec fn rm32(m: ModRM, g: GprIndex32) -> bool {
    g.index() == m.spec_rm()
}

/// The reg field itself.
pub open spec fn same_index(x: Index3, y: Index3) -> bool {
    x == y
}

/// The 8-bit register that the reg field names.
pub open spec fn reg8(x: Index3, g: GprIndex8) -> bool {
    g.index() == x.value()
}

/// The 16-bit register that the reg field names.
pub open spec fn reg16(x: Index3, g: GprIndex16) -> bool {
    g.index() == x.value()
}

/// The 32-bit register that the reg field names.
pub open spec fn reg32(x: Index3, g: GprIndex32) -> bool {
    g.index() == x.value()
}

impl DecoderContext {
    /// What the ModR/M byte at the start of `s`, with its SIB byte and
    /// displacement, stands for under the prefixes, and how many bytes it
    /// takes; `None` when `s` is too short.
    pub open spec fn spec_operand(self, s: Seq<u8>) -> Option<(RawOperand, nat)> {
        if self.is_addr32 {
            match spec_modrm32(s, self.segment_override) {
                Some((m, n)) => Some((
                    if m.modrm.spec_mod() == 3 {
                        ModRmOperand::Reg(m.modrm, Index3::spec_from(m.modrm.spec_reg()))
                    } else {
                        ModRmOperand::Mem32(m.mem, Index3::spec_from(m.modrm.spec_reg()))
                    },
                    n,
                )),
                None => None,
            }
        } else {
            match spec_modrm16(s, self.segment_override) {
                Some((m, n)) => Some((
                    if m.modrm.spec_mod() == 3 {
                        ModRmOperand::Reg(m.modrm, Index3::spec_from(m.modrm.spec_reg()))
                    } else {
                        ModRmOperand::Mem16(m.mem, Index3::spec_from(m.modrm.spec_reg()))
                    },
                    n,
                )),
                None => None,
            }
        }
    }

    /// What a ModR/M helper owes: it fails exactly where the operand cannot
    /// be read from a reliable stream, and on success consumes the operand's
    /// bytes and returns what `rel` relates to the operand.
    pub open spec fn fetched<FETCH: Fetch, T, E>(
        self,
        old_is: FETCH,
        new_is: FETCH,
        r: Result<T, E>,
        rel: spec_fn(RawOperand, T) -> bool,
    ) -> bool {
        &&& new_is.reliable() == old_is.reliable()
        &&& old_is.reliable() ==> (r is Ok <==> self.spec_operand(old_is.stream()) is Some)
        &&& r is Ok ==> {
            let (o, n) = self.spec_operand(old_is.stream())->0;
            &&& self.spec_operand(old_is.stream()) is Some
            &&& rel(o, r->Ok_0)
            &&& new_is.stream() == old_is.stream().skip(n as int)
            &&& new_is.stream().len() < old_is.stream().len()
        }
    }
}

} // verus!

verus! {

/// Every index is the one built from its number.
pub proof fn lemma_index3_from_value(x: Index3)
    ensures
        Index3::spec_from(x.value()) == x,
{
}

impl DecoderContext {
    /// A context with no prefix seen.
    pub fn new() -> (r: Self)
        ensures
            r.segment_override is None,
            !r.is_opsize32,
            !r.is_addr32,
            r.prefix_fx == PrefixFx::NP,
    {
        Self { segment_override: None, is_opsize32: false, is_addr32: false, prefix_fx: PrefixFx::NP }
    }

    /// Decodes a ModR/M byte with its SIB byte and displacement: the r/m
    /// operand, given as the raw byte when it names a register, and the reg field.
    pub fn modrm_mw_sub3<FETCH: Fetch<E = E>, E>(&self, is: &mut FETCH) -> (r: Result<RawOperand, E>)
        ensures
            read_on(*old(is), *final(is), r is Err),
            self.fetched(*old(is), *final(is), r, |o: RawOperand, x: RawOperand| same_operand(o, x)),
    {
        if self.is_addr32 {
            let modrm = ModRm32::fetch(is, self.segment_override)?;
            let reg = modrm.reg_index();
            proof {
                lemma_index3_from_value(reg);
            }
            match modrm.reg_or_mem() {
                RegOrMem::Reg(_) => Ok(ModRmOperand::Reg(modrm.raw_modrm(), reg)),
                RegOrMem::Mem(mem) => Ok(ModRmOperand::Mem32(mem, reg)),
            }
        } else {
            let modrm = ModRm16::fetch(is, self.segment_override)?;
            let reg = modrm.reg_index();
            proof {
                lemma_index3_from_value(reg);
            }
            match modrm.reg_or_mem() {
                RegOrMem::Reg(_) => Ok(ModRmOperand::Reg(modrm.raw_modrm(), reg)),
                RegOrMem::Mem(mem) => Ok(ModRmOperand::Mem16(mem, reg)),
            }
        }
    }

    /// Decodes a ModR/M byte whose r/m field names an 8-bit register or
    /// memory, and whose reg field is a subcode.
    pub fn modrm_rb_sub3<FETCH: Fetch<E = E>, E>(&self, is: &mut FETCH) -> (r: Result<ModRmOperand<GprIndex8, Index3>, E>)
        ensures
            read_on(*old(is), *final(is), r is Err),
            self.fetched(
                *old(is),
                *final(is),
                r,
                |o: RawOperand, x: ModRmOperand<GprIndex8, Index3>|
                    operand_rel(o, x, |m: ModRM, g: GprIndex8| rm8(m, g), |a: Index3, b: Index3| same_index(a, b)),
            ),
    {
        match self.modrm_mw_sub3(is)? {
            ModRmOperand::Reg(m, c) => Ok(ModRmOperand::Reg(GprIndex8::from_idx3(m.rm_index()), c)),
            ModRmOperand::Mem16(a, c) => Ok(ModRmOperand::Mem16(a, c)),
            ModRmOperand::Mem32(a, c) => Ok(ModRmOperand::Mem32(a, c)),
        }
    }

    /// Decodes a ModR/M byte with an 8-bit register or memory operand and an
    /// 8-bit register operand.
    pub fn modrm_rb<FETCH: Fetch<E = E>, E>(&self, is: &mut FETCH) -> (r: Result<ModRmOperand<GprIndex8, GprIndex8>, E>)
        ensures
            read_on(*old(is), *final(is), r is Err),
            self.fetched(
                *old(is),
                *final(is),
                r,
                |o: RawOperand, x: ModRmOperand<GprIndex8, GprIndex8>|
                    operand_rel(o, x, |m: ModRM, g: GprIndex8| rm8(m, g), |a: Index3, b: GprIndex8| reg8(a, b)),
            ),
    {
        match self.modrm_mw_sub3(is)? {
            ModRmOperand::Reg(m, c) => Ok(ModRmOperand::Reg(GprIndex8::from_idx3(m.rm_index()), GprIndex8::from_idx3(c))),
            ModRmOperand::Mem16(a, c) => Ok(ModRmOperand::Mem16(a, GprIndex8::from_idx3(c))),
            ModRmOperand::Mem32(a, c) => Ok(ModRmOperand::Mem32(a, GprIndex8::from_idx3(c))),
        }
    }

    /// Decodes a ModR/M byte whose r/m field names a 16-bit register or
    /// memory, and whose reg field is a subcode.
    pub fn modrm_rw_sub3<FETCH: Fetch<E = E>, E>(&self, is: &mut FETCH) -> (r: Result<ModRmOperand<GprIndex16, Index3>, E>)
        ensures
            read_on(*old(is), *final(is), r is Err),
            self.fetched(
                *old(is),
                *final(is),
                r,
                |o: RawOperand, x: ModRmOperand<GprIndex16, Index3>|
                    operand_rel(o, x, |m: ModRM, g: GprIndex16| rm16(m, g), |a: Index3, b: Index3| same_index(a, b)),
            ),
    {
        match self.modrm_mw_sub3(is)? {
            ModRmOperand::Reg(m, c) => Ok(ModRmOperand::Reg(GprIndex16::from_idx3(m.rm_index()), c)),
            ModRmOperand::Mem16(a, c) => Ok(ModRmOperand::Mem16(a, c)),
            ModRmOperand::Mem32(a, c) => Ok(ModRmOperand::Mem32(a, c)),
        }
    }

    /// Decodes a ModR/M byte with a 16-bit register or memory operand and a
    /// 16-bit register operand.
    pub fn modrm_rw<FETCH: Fetch<E = E>, E>(&self, is: &mut FETCH) -> (r: Result<ModRmOperand<GprIndex16, GprIndex16>, E>)
        ensures
            read_on(*old(is), *final(is), r is Err),
            self.fetched(
                *old(is),
                *final(is),
                r,
                |o: RawOperand, x: ModRmOperand<GprIndex16, GprIndex16>|
                    operand_rel(o, x, |m: ModRM, g: GprIndex16| rm16(m, g), |a: Index3, b: GprIndex16| reg16(a, b)),
            ),
    {
        match self.modrm_mw_sub3(is)? {
            ModRmOperand::Reg(m, c) => Ok(ModRmOperand::Reg(GprIndex16::from_idx3(m.rm_index()), GprIndex16::from_idx3(c))),
            ModRmOperand::Mem16(a, c) => Ok(ModRmOperand::Mem16(a, GprIndex16::from_idx3(c))),
            ModRmOperand::Mem32(a, c) => Ok(ModRmOperand::Mem32(a, GprIndex16::from_idx3(c))),
        }
    }

    /// Decodes a ModR/M byte whose r/m field names a 32-bit register or
    /// memory, and whose reg field is a subcode.
    pub fn modrm_rd_sub3<FETCH: Fetch<E = E>, E>(&self, is: &mut FETCH) -> (r: Result<ModRmOperand<GprIndex32, Index3>, E>)
        ensures
            read_on(*old(is), *final(is), r is Err),
            self.fetched(
                *old(is),
                *final(is),
                r,
                |o: RawOperand, x: ModRmOperand<GprIndex32, Index3>|
                    operand_rel(o, x, |m: ModRM, g: GprIndex32| rm32(m, g), |a: Index3, b: Index3| same_index(a, b)),
            ),
    {
        match self.modrm_mw_sub3(is)? {
            ModRmOperand::Reg(m, c) => Ok(ModRmOperand::Reg(GprIndex32::from_idx3(m.rm_index()), c)),
            ModRmOperand::Mem16(a, c) => Ok(ModRmOperand::Mem16(a, c)),
            ModRmOperand::Mem32(a, c) => Ok(ModRmOperand::Mem32(a, c)),
        }
    }

    /// Decodes a ModR/M byte whose operand size follows the operand-size
    /// attribute: the raw operand and the reg field as a subcode.
    pub fn modrm_mv_sub3<FETCH: Fetch<E = E>, E>(&self, is: &mut FETCH) -> (r: Result<SizedOperand<RawOperand, RawOperand>, E>)
        ensures
            read_on(*old(is), *final(is), r is Err),
            self.fetched(
                *old(is),
                *final(is),
                r,
                |o: RawOperand, x: SizedOperand<RawOperand, RawOperand>|
                    sized_rel(self.is_opsize32, o, x, |p: RawOperand, w: RawOperand| same_operand(p, w), |p: RawOperand, d: RawOperand| same_operand(p, d)),
            ),
    {
        let o = self.modrm_mw_sub3(is)?;
        if self.is_opsize32 {
            Ok(SizedOperand::Dword(o))
        } else {
            Ok(SizedOperand::Word(o))
        }
    }

    /// Decodes a ModR/M byte whose operand size follows the operand-size
    /// attribute: the raw operand and the register that the reg field names.
    pub fn modrm_mv<FETCH: Fetch<E = E>, E>(&self, is: &mut FETCH) -> (r: Result<SizedOperand<ModRmOperand<ModRM, GprIndex16>, ModRmOperand<ModRM, GprIndex32>>, E>)
        ensures
            read_on(*old(is), *final(is), r is Err),
            self.fetched(
                *old(is),
                *final(is),
                r,
                |o: RawOperand, x: SizedOperand<ModRmOperand<ModRM, GprIndex16>, ModRmOperand<ModRM, GprIndex32>>|
                    sized_rel(
                        self.is_opsize32,
                        o,
                        x,
                        |p: RawOperand, w: ModRmOperand<ModRM, GprIndex16>|
                            operand_rel(p, w, |m: ModRM, g: ModRM| same_modrm(m, g), |a: Index3, b: GprIndex16| reg16(a, b)),
                        |p: RawOperand, d: ModRmOperand<ModRM, GprIndex32>|
                            operand_rel(p, d, |m: ModRM, g: ModRM| same_modrm(m, g), |a: Index3, b: GprIndex32| reg32(a, b)),
                    ),
            ),
    {
        match self.modrm_mv_sub3(is)? {
            SizedOperand::Word(ModRmOperand::Reg(m, c)) => Ok(SizedOperand::Word(ModRmOperand::Reg(m, GprIndex16::from_idx3(c)))),
            SizedOperand::Word(ModRmOperand::Mem16(a, c)) => Ok(SizedOperand::Word(ModRmOperand::Mem16(a, GprIndex16::from_idx3(c)))),
            SizedOperand::Word(ModRmOperand::Mem32(a, c)) => Ok(SizedOperand::Word(ModRmOperand::Mem32(a, GprIndex16::from_idx3(c)))),
            SizedOperand::Dword(ModRmOperand::Reg(m, c)) => Ok(SizedOperand::Dword(ModRmOperand::Reg(m, GprIndex32::from_idx3(c)))),
            SizedOperand::Dword(ModRmOperand::Mem16(a, c)) => Ok(SizedOperand::Dword(ModRmOperand::Mem16(a, GprIndex32::from_idx3(c)))),
            SizedOperand::Dword(ModRmOperand::Mem32(a, c)) => Ok(SizedOperand::Dword(ModRmOperand::Mem32(a, GprIndex32::from_idx3(c)))),
        }
    }

    /// Decodes a ModR/M byte whose operand size follows the operand-size
    /// attribute: a register or memory operand of that size, and the reg
    /// field as a subcode.
    pub fn modrm_rv_sub3<FETCH: Fetch<E = E>, E>(&self, is: &mut FETCH) -> (r: Result<SizedOperand<ModRmOperand<GprIndex16, Index3>, ModRmOperand<GprIndex32, Index3>>, E>)
        ensures
            read_on(*old(is), *final(is), r is Err),
            self.fetched(
                *old(is),
                *final(is),
                r,
                |o: RawOperand, x: SizedOperand<ModRmOperand<GprIndex16, Index3>, ModRmOperand<GprIndex32, Index3>>|
                    sized_rel(
                        self.is_opsize32,
                        o,
                        x,
                        |p: RawOperand, w: ModRmOperand<GprIndex16, Index3>|
                            operand_rel(p, w, |m: ModRM, g: GprIndex16| rm16(m, g), |a: Index3, b: Index3| same_index(a, b)),
                        |p: RawOperand, d: ModRmOperand<GprIndex32, Index3>|
                            operand_rel(p, d, |m: ModRM, g: GprIndex32| rm32(m, g), |a: Index3, b: Index3| same_index(a, b)),
                    ),
            ),
    {
        match self.modrm_mv_sub3(is)? {
            SizedOperand::Word(ModRmOperand::Reg(m, c)) => Ok(SizedOperand::Word(ModRmOperand::Reg(GprIndex16::from_idx3(m.rm_index()), c))),
            SizedOperand::Word(ModRmOperand::Mem16(a, c)) => Ok(SizedOperand::Word(ModRmOperand::Mem16(a, c))),
            SizedOperand::Word(ModRmOperand::Mem32(a, c)) => Ok(SizedOperand::Word(ModRmOperand::Mem32(a, c))),
            SizedOperand::Dword(ModRmOperand::Reg(m, c)) => Ok(SizedOperand::Dword(ModRmOperand::Reg(GprIndex32::from_idx3(m.rm_index()), c))),
            SizedOperand::Dword(ModRmOperand::Mem16(a, c)) => Ok(SizedOperand::Dword(ModRmOperand::Mem16(a, c))),
            SizedOperand::Dword(ModRmOperand::Mem32(a, c)) => Ok(SizedOperand::Dword(ModRmOperand::Mem32(a, c))),
        }
    }

    /// Decodes a ModR/M byte whose operand size follows the operand-size
    /// attribute: a register or memory operand of that size, and the register
    /// of that size that the reg field names.
    pub fn modrm_rv<FETCH: Fetch<E = E>, E>(&self, is: &mut FETCH) -> (r: Result<SizedOperand<ModRmOperand<GprIndex16, GprIndex16>, ModRmOperand<GprIndex32, GprIndex32>>, E>)
        ensures
            read_on(*old(is), *final(is), r is Err),
            self.fetched(
                *old(is),
                *final(is),
                r,
                |o: RawOperand, x: SizedOperand<ModRmOperand<GprIndex16, GprIndex16>, ModRmOperand<GprIndex32, GprIndex32>>|
                    sized_rel(
                        self.is_opsize32,
                        o,
                        x,
                        |p: RawOperand, w: ModRmOperand<GprIndex16, GprIndex16>|
                            operand_rel(p, w, |m: ModRM, g: GprIndex16| rm16(m, g), |a: Index3, b: GprIndex16| reg16(a, b)),
                        |p: RawOperand, d: ModRmOperand<GprIndex32, GprIndex32>|
                            operand_rel(p, d, |m: ModRM, g: GprIndex32| rm32(m, g), |a: Index3, b: GprIndex32| reg32(a, b)),
                    ),
            ),
    {
        match self.modrm_mv_sub3(is)? {
            SizedOperand::Word(ModRmOperand::Reg(m, c)) => Ok(SizedOperand::Word(ModRmOperand::Reg(GprIndex16::from_idx3(m.rm_index()), GprIndex16::from_idx3(c)))),
            SizedOperand::Word(ModRmOperand::Mem16(a, c)) => Ok(SizedOperand::Word(ModRmOperand::Mem16(a, GprIndex16::from_idx3(c)))),
            SizedOperand::Word(ModRmOperand::Mem32(a, c)) => Ok(SizedOperand::Word(ModRmOperand::Mem32(a, GprIndex16::from_idx3(c)))),
            SizedOperand::Dword(ModRmOperand::Reg(m, c)) => Ok(SizedOperand::Dword(ModRmOperand::Reg(GprIndex32::from_idx3(m.rm_index()), GprIndex32::from_idx3(c)))),
            SizedOperand::Dword(ModRmOperand::Mem16(a, c)) => Ok(SizedOperand::Dword(ModRmOperand::Mem16(a, GprIndex32::from_idx3(c)))),
            SizedOperand::Dword(ModRmOperand::Mem32(a, c)) => Ok(SizedOperand::Dword(ModRmOperand::Mem32(a, GprIndex32::from_idx3(c)))),
        }
    }

    /// Decodes what `modrm_rv` decodes, followed by an 8-bit immediate.
    pub fn modrm_rv_ib<FETCH: Fetch<E = E>, E>(&self, is: &mut FETCH) -> (r: Result<(SizedOperand<ModRmOperand<GprIndex16, GprIndex16>, ModRmOperand<GprIndex32, GprIndex32>>, u8), E>)
        ensures
            read_on(*old(is), *final(is), r is Err),
            final(is).reliable() == old(is).reliable(),
            old(is).reliable() ==> (r is Ok <==> (self.spec_operand(old(is).stream()) is Some
                && (self.spec_operand(old(is).stream())->0).1 < old(is).stream().len())),
            r is Ok ==> {
                let (o, n) = self.spec_operand(old(is).stream())->0;
                &&& self.spec_operand(old(is).stream()) is Some
                &&& sized_rel(
                    self.is_opsize32,
                    o,
                    r->Ok_0.0,
                    |p: RawOperand, w: ModRmOperand<GprIndex16, GprIndex16>|
                        operand_rel(p, w, |m: ModRM, g: GprIndex16| rm16(m, g), |a: Index3, b: GprIndex16| reg16(a, b)),
                    |p: RawOperand, d: ModRmOperand<GprIndex32, GprIndex32>|
                        operand_rel(p, d, |m: ModRM, g: GprIndex32| rm32(m, g), |a: Index3, b: GprIndex32| reg32(a, b)),
                )
                &&& n < old(is).stream().len()
                &&& r->Ok_0.1 == old(is).stream()[n as int]
                &&& final(is).stream() == old(is).stream().skip((n + 1) as int)
                &&& final(is).stream().len() < old(is).stream().len()
            },
    {
        let ghost s0 = is.stream();
        let o = self.modrm_rv(is)?;
        let imm = is.fetch_u8()?;
        proof {
            let n = (self.spec_operand(s0)->0).1;
            assert(s0.skip(n as int).drop_first() =~= s0.skip((n + 1) as int));
        }
        Ok((o, imm))
    }
}

impl Decoder {
    /// Creates a new instance of the decoder.
    pub fn new(use32: bool) -> (r: Self)
        ensures
            r.use32 == use32,
    {
        Self { use32 }
    }

    /// Creates a new instance of the decoder that decodes instructions in 32-bit mode by default.
    pub fn with_use32() -> (r: Self)
        ensures
            r.use32,
    {
        Self::new(true)
    }

    /// Creates a new instance of the decoder that decodes instructions in 16-bit mode by default.
    pub fn with_use16() -> (r: Self)
        ensures
            !r.use32,
    {
        Self::new(false)
    }

    /// Sets whether the decoder should decode instructions in 32-bit mode by default.
    pub fn set_use32(&mut self, use32: bool)
        ensures
            final(self).use32 == use32,
    {
        self.use32 = use32;
    }

    /// Decodes an instruction from the instruction stream provided by the fetcher.
    #[verifier::spinoff_prover]
    #[verifier::rlimit(100)]
    pub fn decode<FETCH: Fetch<E = E>, E>(&mut self, is: &mut FETCH) -> (r: Result<IrOp, E>)
        ensures
            read_on(*old(is), *final(is), r is Err),
            final(self).use32 == old(self).use32,
            final(is).reliable() == old(is).reliable(),
            r is Ok ==> final(is).stream().len() < old(is).stream().len(),
            ({
                let s = old(is).stream();
                let n = prefix_count(s);
                let ctx = opcode_context(s.take(n as int), old(self).use32);
                old(is).reliable() && n < s.len() && operandless(ctx, s[n as int]) is Some
                    ==> r == Ok::<IrOp, E>(operandless(ctx, s[n as int])->0) && final(is).stream() == s.skip(n + 1int)
            }),
            ({
                let s = old(is).stream();
                let n = prefix_count(s);
                let ctx = opcode_context(s.take(n as int), old(self).use32);
                let op = s[n as int];
                let rest = s.skip(n + 1int);
                let eip = ((old(is).eip() + n + 1) % 0x1_0000_0000) as u32;
                old(is).reliable() && n < s.len() && imm_size(ctx, op) > 0 ==> if rest.len() >= imm_size(ctx, op) {
                    &&& r matches Ok(ir) && imm_result(ctx, op, rest, eip, ir)
                    &&& final(is).stream() == rest.skip(imm_size(ctx, op) as int)
                } else {
                    r is Err
                }
            }),
            old(is).reliable() && prefix_count(old(is).stream()) == old(is).stream().len() ==> r is Err,
            ({
                let s = old(is).stream();
                let n = prefix_count(s);
                let ctx = opcode_context(s.take(n as int), old(self).use32);
                let op = s[n as int];
                let rest = s.skip(n + 1int);
                n < s.len() && op < 0x40 && (op % 8 == 0 || op % 8 == 2) ==> {
                    &&& old(is).reliable() ==> (r is Ok <==> ctx.spec_operand(rest) is Some)
                    &&& r is Ok ==> {
                        let (o, k) = ctx.spec_operand(rest)->0;
                        &&& ctx.spec_operand(rest) is Some
                        &&& alu8_rel(op, o, r->Ok_0)
                        &&& final(is).stream() == rest.skip(k as int)
                    }
                }
            }),
            ({
                let s = old(is).stream();
                let n = prefix_count(s);
                let ctx = opcode_context(s.take(n as int), old(self).use32);
                let op = s[n as int];
                let rest = s.skip(n + 1int);
                n < s.len() && op < 0x40 && (op % 8 == 1 || op % 8 == 3) ==> {
                    &&& old(is).reliable() ==> (r is Ok <==> ctx.spec_operand(rest) is Some)
                    &&& r is Ok ==> {
                        let (o, k) = ctx.spec_operand(rest)->0;
                        &&& ctx.spec_operand(rest) is Some
                        &&& aluv_rel(ctx.is_opsize32, op, o, r->Ok_0)
                        &&& final(is).stream() == rest.skip(k as int)
                    }
                }
            }),
            ({
                let s = old(is).stream();
                let n = prefix_count(s);
                let ctx = opcode_context(s.take(n as int), old(self).use32);
                let op = s[n as int];
                let rest = s.skip(n + 1int);
                n < s.len() && 0x84 <= op <= 0x8b ==> {
                    &&& old(is).reliable() ==> (r is Ok <==> ctx.spec_operand(rest) is Some)
                    &&& r is Ok ==> {
                        let (o, k) = ctx.spec_operand(rest)->0;
                        &&& ctx.spec_operand(rest) is Some
                        &&& mov_test_xchg_rel(ctx.is_opsize32, op, o, r->Ok_0)
                        &&& final(is).stream() == rest.skip(k as int)
                    }
                }
            }),
            ({
                let s = old(is).stream();
                let n = prefix_count(s);
                let ctx = opcode_context(s.take(n as int), old(self).use32);
                let op = s[n as int];
                let rest = s.skip(n + 1int);
                n < s.len() && (op == 0xc6 || op == 0xc7) ==> {
                    &&& old(is).reliable() ==> (r is Ok <==> match ctx.spec_operand(rest) {
                        Some((o, k)) => k + mov_imm_len(ctx.is_opsize32, op, o) <= rest.len(),
                        None => false,
                    })
                    &&& r is Ok ==> {
                        let (o, k) = ctx.spec_operand(rest)->0;
                        &&& ctx.spec_operand(rest) is Some
                        &&& k + mov_imm_len(ctx.is_opsize32, op, o) <= rest.len()
                        &&& mov_imm_rel(ctx.is_opsize32, op, o, rest.skip(k as int), r->Ok_0)
                        &&& final(is).stream() == rest.skip((k + mov_imm_len(ctx.is_opsize32, op, o)) as int)
                    }
                }
            }),
            ({
                let s = old(is).stream();
                let n = prefix_count(s);
                let ctx = opcode_context(s.take(n as int), old(self).use32);
                let rest = s.skip(n + 1int);
                let op = s[n as int];
                let len = grp1_imm_len(ctx.is_opsize32, op);
                n < s.len() && 0x80 <= op <= 0x83 ==> {
                    &&& old(is).reliable() ==> (r is Ok <==> match ctx.spec_operand(rest) {
                        Some((o, k)) => k + len <= rest.len(),
                        None => false,
                    })
                    &&& r is Ok ==> {
                        let (o, k) = ctx.spec_operand(rest)->0;
                        &&& ctx.spec_operand(rest) is Some
                        &&& k + len <= rest.len()
                        &&& grp1_imm_rel(ctx.is_opsize32, op, o, rest.skip(k as int), r->Ok_0)
                        &&& final(is).stream() == rest.skip((k + len) as int)
                    }
                }
            }),
            ({
                let s = old(is).stream();
                let n = prefix_count(s);
                let ctx = opcode_context(s.take(n as int), old(self).use32);
                let op = s[n as int];
                let rest = s.skip(n + 1int);
                n < s.len() && (op == 0xf6 || op == 0xf7) ==> {
                    &&& old(is).reliable() ==> (r is Ok <==> match ctx.spec_operand(rest) {
                        Some((o, k)) => k + grp3_imm_len(ctx.is_opsize32, op, o) <= rest.len(),
                        None => false,
                    })
                    &&& r is Ok ==> {
                        let (o, k) = ctx.spec_operand(rest)->0;
                        &&& ctx.spec_operand(rest) is Some
                        &&& k + grp3_imm_len(ctx.is_opsize32, op, o) <= rest.len()
                        &&& grp3_rel(ctx.is_opsize32, op, o, rest.skip(k as int), r->Ok_0)
                        &&& final(is).stream() == rest.skip((k + grp3_imm_len(ctx.is_opsize32, op, o)) as int)
                    }
                }
            }),
            ({
                let s = old(is).stream();
                let n = prefix_count(s);
                let ctx = opcode_context(s.take(n as int), old(self).use32);
                let op = s[n as int];
                let rest = s.skip(n + 1int);
                n < s.len() && (op == 0xc0) ==> {
                    &&& old(is).reliable() ==> (r is Ok <==> match ctx.spec_operand(rest) {
                        Some((o, k)) => k + shift_imm_len(ctx.is_opsize32, op, o) <= rest.len(),
                        None => false,
                    })
                    &&& r is Ok ==> {
                        let (o, k) = ctx.spec_operand(rest)->0;
                        &&& ctx.spec_operand(rest) is Some
                        &&& k + shift_imm_len(ctx.is_opsize32, op, o) <= rest.len()
                        &&& shift_rel(ctx.is_opsize32, op, o, rest.skip(k as int), r->Ok_0)
                        &&& final(is).stream() == rest.skip((k + shift_imm_len(ctx.is_opsize32, op, o)) as int)
                    }
                }
            }),
            ({
                let s = old(is).stream();
                let n = prefix_count(s);
                let ctx = opcode_context(s.take(n as int), old(self).use32);
                let op = s[n as int];
                let rest = s.skip(n + 1int);
                n < s.len() && (op == 0xc1) ==> {
                    &&& old(is).reliable() ==> (r is Ok <==> match ctx.spec_operand(rest) {
                        Some((o, k)) => k + shift_imm_len(ctx.is_opsize32, op, o) <= rest.len(),
                        None => false,
                    })
                    &&& r is Ok ==> {
                        let (o, k) = ctx.spec_operand(rest)->0;
                        &&& ctx.spec_operand(rest) is Some
                        &&& k + shift_imm_len(ctx.is_opsize32, op, o) <= rest.len()
                        &&& shift_rel(ctx.is_opsize32, op, o, rest.skip(k as int), r->Ok_0)
                        &&& final(is).stream() == rest.skip((k + shift_imm_len(ctx.is_opsize32, op, o)) as int)
                    }
                }
            }),
            ({
                let s = old(is).stream();
                let n = prefix_count(s);
                let ctx = opcode_context(s.take(n as int), old(self).use32);
                let op = s[n as int];
                let rest = s.skip(n + 1int);
                n < s.len() && (op == 0xd0) ==> {
                    &&& old(is).reliable() ==> (r is Ok <==> match ctx.spec_operand(rest) {
                        Some((o, k)) => k + shift_imm_len(ctx.is_opsize32, op, o) <= rest.len(),
                        None => false,
                    })
                    &&& r is Ok ==> {
                        let (o, k) = ctx.spec_operand(rest)->0;
                        &&& ctx.spec_operand(rest) is Some
                        &&& k + shift_imm_len(ctx.is_opsize32, op, o) <= rest.len()
                        &&& shift_rel(ctx.is_opsize32, op, o, rest.skip(k as int), r->Ok_0)
                        &&& final(is).stream() == rest.skip((k + shift_imm_len(ctx.is_opsize32, op, o)) as int)
                    }
                }
            }),
            ({
                let s = old(is).stream();
                let n = prefix_count(s);
                let ctx = opcode_context(s.take(n as int), old(self).use32);
                let op = s[n as int];
                let rest = s.skip(n + 1int);
                n < s.len() && (op == 0xd1) ==> {
                    &&& old(is).reliable() ==> (r is Ok <==> match ctx.spec_operand(rest) {
                        Some((o, k)) => k + shift_imm_len(ctx.is_opsize32, op, o) <= rest.len(),
                        None => false,
                    })
                    &&& r is Ok ==> {
                        let (o, k) = ctx.spec_operand(rest)->0;
                        &&& ctx.spec_operand(rest) is Some
                        &&& k + shift_imm_len(ctx.is_opsize32, op, o) <= rest.len()
                        &&& shift_rel(ctx.is_opsize32, op, o, rest.skip(k as int), r->Ok_0)
                        &&& final(is).stream() == rest.skip((k + shift_imm_len(ctx.is_opsize32, op, o)) as int)
                    }
                }
            }),
            ({
                let s = old(is).stream();
                let n = prefix_count(s);
                let ctx = opcode_context(s.take(n as int), old(self).use32);
                let op = s[n as int];
                let rest = s.skip(n + 1int);
                n < s.len() && (op == 0xd2) ==> {
                    &&& old(is).reliable() ==> (r is Ok <==> match ctx.spec_operand(rest) {
                        Some((o, k)) => k + shift_imm_len(ctx.is_opsize32, op, o) <= rest.len(),
                        None => false,
                    })
                    &&& r is Ok ==> {
                        let (o, k) = ctx.spec_operand(rest)->0;
                        &&& ctx.spec_operand(rest) is Some
                        &&& k + shift_imm_len(ctx.is_opsize32, op, o) <= rest.len()
                        &&& shift_rel(ctx.is_opsize32, op, o, rest.skip(k as int), r->Ok_0)
                        &&& final(is).stream() == rest.skip((k + shift_imm_len(ctx.is_opsize32, op, o)) as int)
                    }
                }
            }),
            ({
                let s = old(is).stream();
                let n = prefix_count(s);
                let ctx = opcode_context(s.take(n as int), old(self).use32);
                let op = s[n as int];
                let rest = s.skip(n + 1int);
                n < s.len() && (op == 0xd3) ==> {
                    &&& old(is).reliable() ==> (r is Ok <==> match ctx.spec_operand(rest) {
                        Some((o, k)) => k + shift_imm_len(ctx.is_opsize32, op, o) <= rest.len(),
                        None => false,
                    })
                    &&& r is Ok ==> {
                        let (o, k) = ctx.spec_operand(rest)->0;
                        &&& ctx.spec_operand(rest) is Some
                        &&& k + shift_imm_len(ctx.is_opsize32, op, o) <= rest.len()
                        &&& shift_rel(ctx.is_opsize32, op, o, rest.skip(k as int), r->Ok_0)
                        &&& final(is).stream() == rest.skip((k + shift_imm_len(ctx.is_opsize32, op, o)) as int)
                    }
                }
            }),
            ({
                let s = old(is).stream();
                let n = prefix_count(s);
                let ctx = opcode_context(s.take(n as int), old(self).use32);
                let op = s[n as int];
                let rest = s.skip(n + 1int);
                n < s.len() && (op == 0xfe) ==> {
                    &&& old(is).reliable() ==> (r is Ok <==> match ctx.spec_operand(rest) {
                        Some((o, k)) => k + incdec_imm_len(ctx.is_opsize32, op, o) <= rest.len(),
                        None => false,
                    })
                    &&& r is Ok ==> {
                        let (o, k) = ctx.spec_operand(rest)->0;
                        &&& ctx.spec_operand(rest) is Some
                        &&& k + incdec_imm_len(ctx.is_opsize32, op, o) <= rest.len()
                        &&& incdec_rel(ctx.is_opsize32, op, o, rest.skip(k as int), r->Ok_0)
                        &&& final(is).stream() == rest.skip((k + incdec_imm_len(ctx.is_opsize32, op, o)) as int)
                    }
                }
            }),
            ({
                let s = old(is).stream();
                let n = prefix_count(s);
                let ctx = opcode_context(s.take(n as int), old(self).use32);
                let op = s[n as int];
                let rest = s.skip(n + 1int);
                n < s.len() && (op == 0xff) ==> {
                    &&& old(is).reliable() ==> (r is Ok <==> match ctx.spec_operand(rest) {
                        Some((o, k)) => k + incdec_imm_len(ctx.is_opsize32, op, o) <= rest.len(),
                        None => false,
                    })
                    &&& r is Ok ==> {
                        let (o, k) = ctx.spec_operand(rest)->0;
                        &&& ctx.spec_operand(rest) is Some
                        &&& k + incdec_imm_len(ctx.is_opsize32, op, o) <= rest.len()
                        &&& incdec_rel(ctx.is_opsize32, op, o, rest.skip(k as int), r->Ok_0)
                        &&& final(is).stream() == rest.skip((k + incdec_imm_len(ctx.is_opsize32, op, o)) as int)
                    }
                }
            }),
            ({
                let s = old(is).stream();
                let n = prefix_count(s);
                let ctx = opcode_context(s.take(n as int), old(self).use32);
                let op = s[n as int];
                let rest = s.skip(n + 1int);
                n < s.len() && (op == 0x69) ==> {
                    &&& old(is).reliable() ==> (r is Ok <==> match ctx.spec_operand(rest) {
                        Some((o, k)) => k + lea_pop_imul_len(ctx.is_opsize32, op, o) <= rest.len(),
                        None => false,
                    })
                    &&& r is Ok ==> {
                        let (o, k) = ctx.spec_operand(rest)->0;
                        &&& ctx.spec_operand(rest) is Some
                        &&& k + lea_pop_imul_len(ctx.is_opsize32, op, o) <= rest.len()
                        &&& lea_pop_imul_rel(ctx.is_opsize32, op, o, rest.skip(k as int), r->Ok_0)
                        &&& final(is).stream() == rest.skip((k + lea_pop_imul_len(ctx.is_opsize32, op, o)) as int)
                    }
                }
            }),
            ({
                let s = old(is).stream();
                let n = prefix_count(s);
                let ctx = opcode_context(s.take(n as int), old(self).use32);
                let op = s[n as int];
                let rest = s.skip(n + 1int);
                n < s.len() && (op == 0x8d) ==> {
                    &&& old(is).reliable() ==> (r is Ok <==> match ctx.spec_operand(rest) {
                        Some((o, k)) => k + lea_pop_imul_len(ctx.is_opsize32, op, o) <= rest.len(),
                        None => false,
                    })
                    &&& r is Ok ==> {
                        let (o, k) = ctx.spec_operand(rest)->0;
                        &&& ctx.spec_operand(rest) is Some
                        &&& k + lea_pop_imul_len(ctx.is_opsize32, op, o) <= rest.len()
                        &&& lea_pop_imul_rel(ctx.is_opsize32, op, o, rest.skip(k as int), r->Ok_0)
                        &&& final(is).stream() == rest.skip((k + lea_pop_imul_len(ctx.is_opsize32, op, o)) as int)
                    }
                }
            }),
            ({
                let s = old(is).stream();
                let n = prefix_count(s);
                let ctx = opcode_context(s.take(n as int), old(self).use32);
                let op = s[n as int];
                let rest = s.skip(n + 1int);
                n < s.len() && (op == 0x8f) ==> {
                    &&& old(is).reliable() ==> (r is Ok <==> match ctx.spec_operand(rest) {
                        Some((o, k)) => k + lea_pop_imul_len(ctx.is_opsize32, op, o) <= rest.len(),
                        None => false,
                    })
                    &&& r is Ok ==> {
                        let (o, k) = ctx.spec_operand(rest)->0;
                        &&& ctx.spec_operand(rest) is Some
                        &&& k + lea_pop_imul_len(ctx.is_opsize32, op, o) <= rest.len()
                        &&& lea_pop_imul_rel(ctx.is_opsize32, op, o, rest.skip(k as int), r->Ok_0)
                        &&& final(is).stream() == rest.skip((k + lea_pop_imul_len(ctx.is_opsize32, op, o)) as int)
                    }
                }
            }),
            ({
                let s = old(is).stream();
                let n = prefix_count(s);
                let ctx = opcode_context(s.take(n as int), old(self).use32);
                let rest = s.skip(n + 1int);
                let t = rest.drop_first();
                n < s.len() && s[n as int] == 0x0f && rest.len() > 0
                    && (rest[0] == 0xaf || rest[0] == 0xb6 || rest[0] == 0xb7 || rest[0] == 0xbe || rest[0] == 0xbf) ==> {
                    &&& old(is).reliable() ==> (r is Ok <==> ctx.spec_operand(t) is Some)
                    &&& r is Ok ==> {
                        let (o, k) = ctx.spec_operand(t)->0;
                        &&& ctx.spec_operand(t) is Some
                        &&& ext_rel(ctx.is_opsize32, rest[0], o, t.skip(k as int), r->Ok_0)
                        &&& final(is).stream() == t.skip(k as int)
                    }
                }
            }),
            ({
                let s = old(is).stream();
                let n = prefix_count(s);
                let ctx = opcode_context(s.take(n as int), old(self).use32);
                let op = s[n as int];
                let rest = s.skip(n + 1int);
                let eip = ((old(is).eip() + n + 1) % 0x1_0000_0000) as u32;
                old(is).reliable() && n < s.len() && (op == 0xc8 || op == 0xca || (0xe0 <= op <= 0xe7))
                    ==> if rest.len() >= imm2_size(op) {
                    &&& r matches Ok(ir) && imm2_result(ctx, op, rest, eip, ir)
                    &&& final(is).stream() == rest.skip(imm2_size(op) as int)
                } else {
                    r is Err
                }
            }),
            ({
                let s = old(is).stream();
                let n = prefix_count(s);
                let ctx = opcode_context(s.take(n as int), old(self).use32);
                let op = s[n as int];
                let rest = s.skip(n + 1int);
                old(is).reliable() && n < s.len() && 0xa0 <= op <= 0xa3 ==> if rest.len() >= moffs_size(ctx) {
                    &&& r matches Ok(ir) && moffs_result(ctx, op, rest, ir)
                    &&& final(is).stream() == rest.skip(moffs_size(ctx) as int)
                } else {
                    r is Err
                }
            }),
    {
        let ghost len0 = is.stream().len();
        let ghost e0 = is.eip();
        let ghost s = is.stream();
        let ghost mut k: int = 0;
        let mut context = DecoderContext::new();
        let mut opcode: u8 = 0;
        proof {
            assert(s.take(0) =~= Seq::<u8>::empty());
            assert(s.skip(0) =~= s);
        }
        loop
            invariant_except_break
                is.stream() == s.skip(k),
                is.eip() == ((e0 + k) % 0x1_0000_0000) as u32,
            invariant
                e0 == old(is).eip(),
                is.reliable() == old(is).reliable(),
                is.position() == old(is).position() + (len0 - is.stream().len()),
                is.stream().len() <= len0,
                self.use32 == old(self).use32,
                s == old(is).stream(),
                len0 == s.len(),
                0 <= k <= s.len(),
                forall|i: int| 0 <= i < k ==> is_prefix(#[trigger] s[i]),
                context == after_prefixes(s.take(k)),
            ensures
                is.reliable() == old(is).reliable(),
                is.stream().len() < len0,
                0 <= k < s.len(),
                is.stream() == s.skip(k + 1),
                forall|i: int| 0 <= i < k ==> is_prefix(#[trigger] s[i]),
                context == after_prefixes(s.take(k)),
                opcode == s[k],
                !is_prefix(opcode),
                is.eip() == ((e0 + k + 1) % 0x1_0000_0000) as u32,
            decreases is.stream().len(),
        {
            let ghost eb = is.eip();
            let b = match is.fetch_u8() {
                Ok(b) => b,
                Err(e) => {
                    proof {
                        if is.reliable() {
                            lemma_prefix_count(s, k);
                            assert(s.skip(k).len() == 0);
                            assert(prefix_count(s.skip(k)) == 0);
                            assert(prefix_count(s) == s.len());
                        }
                    }
                    return Err(e);
                },
            };
            proof {
                vstd::arithmetic::div_mod::lemma_add_mod_noop(e0 + k, 1, 0x1_0000_0000);
                assert(b == s[k]);
                assert(s.skip(k).drop_first() =~= s.skip(k + 1));
                if is_prefix(b) {
                    assert(s.take(k + 1).drop_last() =~= s.take(k));
                }
            }
            match b {
                0x2e => {
                    // CS segment override prefix
                    context.segment_override = Some(CS);
                },
                0x36 => {
                    // SS segment override prefix
                    context.segment_override = Some(SS);
                },
                0x3e => {
                    // DS segment override prefix
                    context.segment_override = Some(DS);
                },
                0x26 => {
                    // ES segment override prefix
                    context.segment_override = Some(ES);
                },
                0x64 => {
                    // FS segment override prefix
                    context.segment_override = Some(FS);
                },
                0x65 => {
                    // GS segment override prefix
                    context.segment_override = Some(GS);
                },
                0x66 => {
                    // Operand-size override prefix
                    context.is_opsize32 = true;
                },
                0x67 => {
                    // Address-size override prefix
                    context.is_addr32 = true;
                },
                0xf0 => {
                    // LOCK prefix
                    context.prefix_fx = PrefixFx::F0_LOCK;
                },
                0xf2 => {
                    // REPNE/REPNZ prefix
                    context.prefix_fx = PrefixFx::F2_REPNZ;
                },
                0xf3 => {
                    // REP/REPE/REPZ prefix
                    context.prefix_fx = PrefixFx::F3_REPZ;
                },
                _ => {
                    opcode = b;
                    break;
                },
            }
            proof {
                k = k + 1;
            }
        }
        proof {
            lemma_prefix_count(s, k);
            assert(s.skip(k)[0] == s[k]);
        }

        // invert if use32 is true, since the default is 16-bit mode
        context.is_opsize32 = context.is_opsize32 != self.use32;
        context.is_addr32 = context.is_addr32 != self.use32;

        if opcode < 0x40 {
            Self::decode_00_3f(&context, opcode, is)
        } else if opcode < 0x80 {
            Self::decode_40_7f(&context, opcode, is)
        } else if opcode < 0xa0 {
            Self::decode_80_9f(&context, opcode, is)
        } else if opcode < 0xc0 {
            Self::decode_a0_bf(&context, opcode, is)
        } else if opcode < 0xe0 {
            Self::decode_c0_df(&context, opcode, is)
        } else {
            Self::decode_e0_ff(&context, opcode, is)
        }
    }

    /// Decodes an instruction of the two-byte opcode map, after its 0x0f escape.
    fn decode_0f<FETCH: Fetch<E = E>, E>(context: &DecoderContext, is: &mut FETCH) -> (r: Result<IrOp, E>)
        ensures
            read_on(*old(is), *final(is), r is Err),
            final(is).reliable() == old(is).reliable(),
            r is Ok ==> final(is).stream().len() < old(is).stream().len(),
            old(is).reliable() && old(is).stream().len() > 0 && operandless_0f(old(is).stream()[0]) is Some
                ==> r == Ok::<IrOp, E>(operandless_0f(old(is).stream()[0])->0)
                && final(is).stream() == old(is).stream().drop_first(),
            ({
                let s = old(is).stream();
                let t = s.drop_first();
                s.len() > 0 && (s[0] == 0xaf || s[0] == 0xb6 || s[0] == 0xb7 || s[0] == 0xbe || s[0] == 0xbf) ==> {
                    &&& old(is).reliable() ==> (r is Ok <==> context.spec_operand(t) is Some)
                    &&& r is Ok ==> {
                        let (o, n) = context.spec_operand(t)->0;
                        &&& context.spec_operand(t) is Some
                        &&& ext_rel(context.is_opsize32, s[0], o, t.skip(n as int), r->Ok_0)
                        &&& final(is).stream() == t.skip(n as int)
                    }
                }
            }),
    {
        let second_opcode = is.fetch_u8()?;
        if second_opcode < 0x40 {
            Self::decode_0f_00_3f(context, second_opcode, is)
        } else if second_opcode < 0xa0 {
            Self::decode_0f_40_9f(context, second_opcode, is)
        } else {
            Self::decode_0f_a0_ff(context, second_opcode, is)
        }
    }

    /// Decodes the 16- or 32-bit arithmetic instructions whose r/m operand is the destination.
    #[verifier::spinoff_prover]
    #[verifier::rlimit(100)]
    fn decode_alu_v_to_rm<FETCH: Fetch<E = E>, E>(context: &DecoderContext, opcode: u8, is: &mut FETCH) -> (r: Result<IrOp, E>)
        requires
            opcode < 0x40,
            opcode % 8 == 1,
        ensures
            read_on(*old(is), *final(is), r is Err),
            r is Ok ==> final(is).stream().len() <= old(is).stream().len(),
            context.fetched(*old(is), *final(is), r, |o: RawOperand, ir: IrOp| aluv_rel(context.is_opsize32, opcode, o, ir)),
    {
        match opcode {
            0x01 => {
                // ADD r/m16/32, reg16/32
                match context.modrm_rv(is)? {
                    SizedOperand::Word(ModRmOperand::Reg(s, r)) => Ok(IrOp::ADD_Rw_Rw(s, r)),
                    SizedOperand::Word(ModRmOperand::Mem16(s, r)) => Ok(IrOp::ADD_MwA16_Rw(s, r)),
                    SizedOperand::Word(ModRmOperand::Mem32(s, r)) => Ok(IrOp::ADD_MwA32_Rw(s, r)),
                    SizedOperand::Dword(ModRmOperand::Reg(s, r)) => Ok(IrOp::ADD_Rd_Rd(s, r)),
                    SizedOperand::Dword(ModRmOperand::Mem16(s, r)) => Ok(IrOp::ADD_MdA16_Rd(s, r)),
                    SizedOperand::Dword(ModRmOperand::Mem32(s, r)) => Ok(IrOp::ADD_MdA32_Rd(s, r)),
                }
            }
            0x09 => {
                // OR r/m16/32, reg16/32
                match context.modrm_rv(is)? {
                    SizedOperand::Word(ModRmOperand::Reg(s, r)) => Ok(IrOp::OR_Rw_Rw(s, r)),
                    SizedOperand::Word(ModRmOperand::Mem16(s, r)) => Ok(IrOp::OR_MwA16_Rw(s, r)),
                    SizedOperand::Word(ModRmOperand::Mem32(s, r)) => Ok(IrOp::OR_MwA32_Rw(s, r)),
                    SizedOperand::Dword(ModRmOperand::Reg(s, r)) => Ok(IrOp::OR_Rd_Rd(s, r)),
                    SizedOperand::Dword(ModRmOperand::Mem16(s, r)) => Ok(IrOp::OR_MdA16_Rd(s, r)),
                    SizedOperand::Dword(ModRmOperand::Mem32(s, r)) => Ok(IrOp::OR_MdA32_Rd(s, r)),
                }
            }
            0x11 => {
                // ADC r/m16/32, reg16/32
                match context.modrm_rv(is)? {
                    SizedOperand::Word(ModRmOperand::Reg(s, r)) => Ok(IrOp::ADC_Rw_Rw(s, r)),
                    SizedOperand::Word(ModRmOperand::Mem16(s, r)) => Ok(IrOp::ADC_MwA16_Rw(s, r)),
                    SizedOperand::Word(ModRmOperand::Mem32(s, r)) => Ok(IrOp::ADC_MwA32_Rw(s, r)),
                    SizedOperand::Dword(ModRmOperand::Reg(s, r)) => Ok(IrOp::ADC_Rd_Rd(s, r)),
                    SizedOperand::Dword(ModRmOperand::Mem16(s, r)) => Ok(IrOp::ADC_MdA16_Rd(s, r)),
                    SizedOperand::Dword(ModRmOperand::Mem32(s, r)) => Ok(IrOp::ADC_MdA32_Rd(s, r)),
                }
            }
            0x19 => {
                // SBB r/m16/32, reg16/32
                match context.modrm_rv(is)? {
                    SizedOperand::Word(ModRmOperand::Reg(s, r)) => Ok(IrOp::SBB_Rw_Rw(s, r)),
                    SizedOperand::Word(ModRmOperand::Mem16(s, r)) => Ok(IrOp::SBB_MwA16_Rw(s, r)),
                    SizedOperand::Word(ModRmOperand::Mem32(s, r)) => Ok(IrOp::SBB_MwA32_Rw(s, r)),
                    SizedOperand::Dword(ModRmOperand::Reg(s, r)) => Ok(IrOp::SBB_Rd_Rd(s, r)),
                    SizedOperand::Dword(ModRmOperand::Mem16(s, r)) => Ok(IrOp::SBB_MdA16_Rd(s, r)),
                    SizedOperand::Dword(ModRmOperand::Mem32(s, r)) => Ok(IrOp::SBB_MdA32_Rd(s, r)),
                }
            }
            0x21 => {
                // AND r/m16/32, reg16/32
                match context.modrm_rv(is)? {
                    SizedOperand::Word(ModRmOperand::Reg(s, r)) => Ok(IrOp::AND_Rw_Rw(s, r)),
                    SizedOperand::Word(ModRmOperand::Mem16(s, r)) => Ok(IrOp::AND_MwA16_Rw(s, r)),
                    SizedOperand::Word(ModRmOperand::Mem32(s, r)) => Ok(IrOp::AND_MwA32_Rw(s, r)),
                    SizedOperand::Dword(ModRmOperand::Reg(s, r)) => Ok(IrOp::AND_Rd_Rd(s, r)),
                    SizedOperand::Dword(ModRmOperand::Mem16(s, r)) => Ok(IrOp::AND_MdA16_Rd(s, r)),
                    SizedOperand::Dword(ModRmOperand::Mem32(s, r)) => Ok(IrOp::AND_MdA32_Rd(s, r)),
                }
            }
            0x29 => {
                // SUB r/m16/32, reg16/32
                match context.modrm_rv(is)? {
                    SizedOperand::Word(ModRmOperand::Reg(s, r)) => Ok(IrOp::SUB_Rw_Rw(s, r)),
                    SizedOperand::Word(ModRmOperand::Mem16(s, r)) => Ok(IrOp::SUB_MwA16_Rw(s, r)),
                    SizedOperand::Word(ModRmOperand::Mem32(s, r)) => Ok(IrOp::SUB_MwA32_Rw(s, r)),
                    SizedOperand::Dword(ModRmOperand::Reg(s, r)) => Ok(IrOp::SUB_Rd_Rd(s, r)),
                    SizedOperand::Dword(ModRmOperand::Mem16(s, r)) => Ok(IrOp::SUB_MdA16_Rd(s, r)),
                    SizedOperand::Dword(ModRmOperand::Mem32(s, r)) => Ok(IrOp::SUB_MdA32_Rd(s, r)),
                }
            }
            0x31 => {
                // XOR r/m16/32, reg16/32
                match context.modrm_rv(is)? {
                    SizedOperand::Word(ModRmOperand::Reg(s, r)) => Ok(IrOp::XOR_Rw_Rw(s, r)),
                    SizedOperand::Word(ModRmOperand::Mem16(s, r)) => Ok(IrOp::XOR_MwA16_Rw(s, r)),
                    SizedOperand::Word(ModRmOperand::Mem32(s, r)) => Ok(IrOp::XOR_MwA32_Rw(s, r)),
                    SizedOperand::Dword(ModRmOperand::Reg(s, r)) => Ok(IrOp::XOR_Rd_Rd(s, r)),
                    SizedOperand::Dword(ModRmOperand::Mem16(s, r)) => Ok(IrOp::XOR_MdA16_Rd(s, r)),
                    SizedOperand::Dword(ModRmOperand::Mem32(s, r)) => Ok(IrOp::XOR_MdA32_Rd(s, r)),
                }
            }
            0x39 => {
                // CMP r/m16/32, reg16/32
                match context.modrm_rv(is)? {
                    SizedOperand::Word(ModRmOperand::Reg(s, r)) => Ok(IrOp::CMP_Rw_Rw(s, r)),
                    SizedOperand::Word(ModRmOperand::Mem16(s, r)) => Ok(IrOp::CMP_MwA16_Rw(s, r)),
                    SizedOperand::Word(ModRmOperand::Mem32(s, r)) => Ok(IrOp::CMP_MwA32_Rw(s, r)),
                    SizedOperand::Dword(ModRmOperand::Reg(s, r)) => Ok(IrOp::CMP_Rd_Rd(s, r)),
                    SizedOperand::Dword(ModRmOperand::Mem16(s, r)) => Ok(IrOp::CMP_MdA16_Rd(s, r)),
                    SizedOperand::Dword(ModRmOperand::Mem32(s, r)) => Ok(IrOp::CMP_MdA32_Rd(s, r)),
                }
            }
            _ => Ok(IrOp::UD),
        }
    }

    /// Decodes the 16- or 32-bit arithmetic instructions whose reg operand is the destination.
    #[verifier::spinoff_prover]
    #[verifier::rlimit(100)]
    fn decode_alu_v_to_reg<FETCH: Fetch<E = E>, E>(context: &DecoderContext, opcode: u8, is: &mut FETCH) -> (r: Result<IrOp, E>)
        requires
            opcode < 0x40,
            opcode % 8 == 3,
        ensures
            read_on(*old(is), *final(is), r is Err),
            r is Ok ==> final(is).stream().len() <= old(is).stream().len(),
            context.fetched(*old(is), *final(is), r, |o: RawOperand, ir: IrOp| aluv_rel(context.is_opsize32, opcode, o, ir)),
    {
        match opcode {
            0x03 => {
                // ADD reg16/32, r/m16/32
                match context.modrm_rv(is)? {
                    SizedOperand::Word(ModRmOperand::Reg(m, r)) => Ok(IrOp::ADD_Rw_Rw(r, m)),
                    SizedOperand::Word(ModRmOperand::Mem16(m, r)) => Ok(IrOp::ADD_Rw_MwA16(r, m)),
                    SizedOperand::Word(ModRmOperand::Mem32(m, r)) => Ok(IrOp::ADD_Rw_MwA32(r, m)),
                    SizedOperand::Dword(ModRmOperand::Reg(m, r)) => Ok(IrOp::ADD_Rd_Rd(r, m)),
                    SizedOperand::Dword(ModRmOperand::Mem16(m, r)) => Ok(IrOp::ADD_Rd_MdA16(r, m)),
                    SizedOperand::Dword(ModRmOperand::Mem32(m, r)) => Ok(IrOp::ADD_Rd_MdA32(r, m)),
                }
            }
            0x0b => {
                // OR reg16/32, r/m16/32
                match context.modrm_rv(is)? {
                    SizedOperand::Word(ModRmOperand::Reg(m, r)) => Ok(IrOp::OR_Rw_Rw(r, m)),
                    SizedOperand::Word(ModRmOperand::Mem16(m, r)) => Ok(IrOp::OR_Rw_MwA16(r, m)),
                    SizedOperand::Word(ModRmOperand::Mem32(m, r)) => Ok(IrOp::OR_Rw_MwA32(r, m)),
                    SizedOperand::Dword(ModRmOperand::Reg(m, r)) => Ok(IrOp::OR_Rd_Rd(r, m)),
                    SizedOperand::Dword(ModRmOperand::Mem16(m, r)) => Ok(IrOp::OR_Rd_MdA16(r, m)),
                    SizedOperand::Dword(ModRmOperand::Mem32(m, r)) => Ok(IrOp::OR_Rd_MdA32(r, m)),
                }
            }
            0x13 => {
                // ADC reg16/32, r/m16/32
                match context.modrm_rv(is)? {
                    SizedOperand::Word(ModRmOperand::Reg(m, r)) => Ok(IrOp::ADC_Rw_Rw(r, m)),
                    SizedOperand::Word(ModRmOperand::Mem16(m, r)) => Ok(IrOp::ADC_Rw_MwA16(r, m)),
                    SizedOperand::Word(ModRmOperand::Mem32(m, r)) => Ok(IrOp::ADC_Rw_MwA32(r, m)),
                    SizedOperand::Dword(ModRmOperand::Reg(m, r)) => Ok(IrOp::ADC_Rd_Rd(r, m)),
                    SizedOperand::Dword(ModRmOperand::Mem16(m, r)) => Ok(IrOp::ADC_Rd_MdA16(r, m)),
                    SizedOperand::Dword(ModRmOperand::Mem32(m, r)) => Ok(IrOp::ADC_Rd_MdA32(r, m)),
                }
            }
            0x1b => {
                // SBB reg16/32, r/m16/32
                match context.modrm_rv(is)? {
                    SizedOperand::Word(ModRmOperand::Reg(m, r)) => Ok(IrOp::SBB_Rw_Rw(r, m)),
                    SizedOperand::Word(ModRmOperand::Mem16(m, r)) => Ok(IrOp::SBB_Rw_MwA16(r, m)),
                    SizedOperand::Word(ModRmOperand::Mem32(m, r)) => Ok(IrOp::SBB_Rw_MwA32(r, m)),
                    SizedOperand::Dword(ModRmOperand::Reg(m, r)) => Ok(IrOp::SBB_Rd_Rd(r, m)),
                    SizedOperand::Dword(ModRmOperand::Mem16(m, r)) => Ok(IrOp::SBB_Rd_MdA16(r, m)),
                    SizedOperand::Dword(ModRmOperand::Mem32(m, r)) => Ok(IrOp::SBB_Rd_MdA32(r, m)),
                }
            }
            0x23 => {
                // AND reg16/32, r/m16/32
                match context.modrm_rv(is)? {
                    SizedOperand::Word(ModRmOperand::Reg(m, r)) => Ok(IrOp::AND_Rw_Rw(r, m)),
                    SizedOperand::Word(ModRmOperand::Mem16(m, r)) => Ok(IrOp::AND_Rw_MwA16(r, m)),
                    SizedOperand::Word(ModRmOperand::Mem32(m, r)) => Ok(IrOp::AND_Rw_MwA32(r, m)),
                    SizedOperand::Dword(ModRmOperand::Reg(m, r)) => Ok(IrOp::AND_Rd_Rd(r, m)),
                    SizedOperand::Dword(ModRmOperand::Mem16(m, r)) => Ok(IrOp::AND_Rd_MdA16(r, m)),
                    SizedOperand::Dword(ModRmOperand::Mem32(m, r)) => Ok(IrOp::AND_Rd_MdA32(r, m)),
                }
            }
            0x2b => {
                // SUB reg16/32, r/m16/32
                match context.modrm_rv(is)? {
                    SizedOperand::Word(ModRmOperand::Reg(m, r)) => Ok(IrOp::SUB_Rw_Rw(r, m)),
                    SizedOperand::Word(ModRmOperand::Mem16(m, r)) => Ok(IrOp::SUB_Rw_MwA16(r, m)),
                    SizedOperand::Word(ModRmOperand::Mem32(m, r)) => Ok(IrOp::SUB_Rw_MwA32(r, m)),
                    SizedOperand::Dword(ModRmOperand::Reg(m, r)) => Ok(IrOp::SUB_Rd_Rd(r, m)),
                    SizedOperand::Dword(ModRmOperand::Mem16(m, r)) => Ok(IrOp::SUB_Rd_MdA16(r, m)),
                    SizedOperand::Dword(ModRmOperand::Mem32(m, r)) => Ok(IrOp::SUB_Rd_MdA32(r, m)),
                }
            }
            0x33 => {
                // XOR reg16/32, r/m16/32
                match context.modrm_rv(is)? {
                    SizedOperand::Word(ModRmOperand::Reg(m, r)) => Ok(IrOp::XOR_Rw_Rw(r, m)),
                    SizedOperand::Word(ModRmOperand::Mem16(m, r)) => Ok(IrOp::XOR_Rw_MwA16(r, m)),
                    SizedOperand::Word(ModRmOperand::Mem32(m, r)) => Ok(IrOp::XOR_Rw_MwA32(r, m)),
                    SizedOperand::Dword(ModRmOperand::Reg(m, r)) => Ok(IrOp::XOR_Rd_Rd(r, m)),
                    SizedOperand::Dword(ModRmOperand::Mem16(m, r)) => Ok(IrOp::XOR_Rd_MdA16(r, m)),
                    SizedOperand::Dword(ModRmOperand::Mem32(m, r)) => Ok(IrOp::XOR_Rd_MdA32(r, m)),
                }
            }
            0x3b => {
                // CMP reg16/32, r/m16/32
                match context.modrm_rv(is)? {
                    SizedOperand::Word(ModRmOperand::Reg(m, r)) => Ok(IrOp::CMP_Rw_Rw(r, m)),
                    SizedOperand::Word(ModRmOperand::Mem16(m, r)) => Ok(IrOp::CMP_Rw_MwA16(r, m)),
                    SizedOperand::Word(ModRmOperand::Mem32(m, r)) => Ok(IrOp::CMP_Rw_MwA32(r, m)),
                    SizedOperand::Dword(ModRmOperand::Reg(m, r)) => Ok(IrOp::CMP_Rd_Rd(r, m)),
                    SizedOperand::Dword(ModRmOperand::Mem16(m, r)) => Ok(IrOp::CMP_Rd_MdA16(r, m)),
                    SizedOperand::Dword(ModRmOperand::Mem32(m, r)) => Ok(IrOp::CMP_Rd_MdA32(r, m)),
                }
            }
            _ => Ok(IrOp::UD),
        }
    }

    #[verifier::spinoff_prover]
    #[verifier::rlimit(100)]
    fn decode_00_3f<FETCH: Fetch<E = E>, E>(context: &DecoderContext, opcode: u8, is: &mut FETCH) -> (r: Result<IrOp, E>)
        ensures
            read_on(*old(is), *final(is), r is Err),
            final(is).reliable() == old(is).reliable(),
            r is Ok ==> final(is).stream().len() <= old(is).stream().len(),
            opcode < 0x40 && operandless(*context, opcode) is Some
                ==> r == Ok::<IrOp, E>(operandless(*context, opcode)->0) && *final(is) == *old(is),
            opcode < 0x40 && imm_size(*context, opcode) > 0 && old(is).reliable() ==> if old(is).stream().len() >= imm_size(*context, opcode) {
                &&& r matches Ok(ir) && imm_result(*context, opcode, old(is).stream(), old(is).eip(), ir)
                &&& final(is).stream() == old(is).stream().skip(imm_size(*context, opcode) as int)
            } else {
                r is Err
            },
            opcode < 0x40 && (opcode % 8 == 0 || opcode % 8 == 2)
                ==> context.fetched(*old(is), *final(is), r, |o: RawOperand, ir: IrOp| alu8_rel(opcode, o, ir)),
            opcode < 0x40 && (opcode % 8 == 1 || opcode % 8 == 3)
                ==> context.fetched(*old(is), *final(is), r, |o: RawOperand, ir: IrOp| aluv_rel(context.is_opsize32, opcode, o, ir)),
            ({
                let s = old(is).stream();
                let t = s.drop_first();
                opcode == 0x0f && s.len() > 0 && (s[0] == 0xaf || s[0] == 0xb6 || s[0] == 0xb7 || s[0] == 0xbe || s[0] == 0xbf) ==> {
                    &&& old(is).reliable() ==> (r is Ok <==> context.spec_operand(t) is Some)
                    &&& r is Ok ==> {
                        let (o, n) = context.spec_operand(t)->0;
                        &&& context.spec_operand(t) is Some
                        &&& ext_rel(context.is_opsize32, s[0], o, t.skip(n as int), r->Ok_0)
                        &&& final(is).stream() == t.skip(n as int)
                    }
                }
            }),
    {
        match opcode {
            0x00 => {
                // ADD r/m8, reg8
                match context.modrm_rb(is)? {
                    ModRmOperand::Reg(s, r) => Ok(IrOp::ADD_Rb_Rb(s, r)),
                    ModRmOperand::Mem16(s, r) => Ok(IrOp::ADD_MbA16_Rb(s, r)),
                    ModRmOperand::Mem32(s, r) => Ok(IrOp::ADD_MbA32_Rb(s, r)),
                }
            }
            0x01 => Self::decode_alu_v_to_rm(context, opcode, is),
            0x02 => {
                // ADD reg8, r/m8
                match context.modrm_rb(is)? {
                    ModRmOperand::Reg(m, r) => Ok(IrOp::ADD_Rb_Rb(r, m)),
                    ModRmOperand::Mem16(m, r) => Ok(IrOp::ADD_Rb_MbA16(r, m)),
                    ModRmOperand::Mem32(m, r) => Ok(IrOp::ADD_Rb_MbA32(r, m)),
                }
            }
            0x03 => Self::decode_alu_v_to_reg(context, opcode, is),
            0x04 => {
                // ADD AL, imm8
                let imm = is.fetch_u8()?;
                Ok(IrOp::ADD_Rb_Ib(GprIndex8::AL, imm))
            }
            0x05 => {
                if context.is_opsize32 {
                    // ADD EAX, imm32
                    let imm = is.fetch_u32()?;
                    Ok(IrOp::ADD_Rd_Id(EAX, imm))
                } else {
                    // ADD AX, imm16/32
                    let imm = is.fetch_u16()?;
                    Ok(IrOp::ADD_Rw_Iw(AX, imm))
                }
            }
            0x06 => {
                // PUSH ES
                Ok(IrOp::PUSH_Sr(ES))
            }
            0x07 => {
                // POP ES
                Ok(IrOp::POP_Sr(ES))
            }
            0x08 => {
                // OR r/m8, reg8
                match context.modrm_rb(is)? {
                    ModRmOperand::Reg(s, r) => Ok(IrOp::OR_Rb_Rb(s, r)),
                    ModRmOperand::Mem16(s, r) => Ok(IrOp::OR_MbA16_Rb(s, r)),
                    ModRmOperand::Mem32(s, r) => Ok(IrOp::OR_MbA32_Rb(s, r)),
                }
            }
            0x09 => Self::decode_alu_v_to_rm(context, opcode, is),
            0x0a => {
                // OR reg8, r/m8
                match context.modrm_rb(is)? {
                    ModRmOperand::Reg(m, r) => Ok(IrOp::OR_Rb_Rb(r, m)),
                    ModRmOperand::Mem16(m, r) => Ok(IrOp::OR_Rb_MbA16(r, m)),
                    ModRmOperand::Mem32(m, r) => Ok(IrOp::OR_Rb_MbA32(r, m)),
                }
            }
            0x0b => Self::decode_alu_v_to_reg(context, opcode, is),
            0x0c => {
                // OR AL, imm8
                let imm = is.fetch_u8()?;
                Ok(IrOp::OR_Rb_Ib(GprIndex8::AL, imm))
            }
            0x0d => {
                if context.is_opsize32 {
                    // OR EAX, imm32
                    let imm = is.fetch_u32()?;
                    Ok(IrOp::OR_Rd_Id(EAX, imm))
                } else {
                    // OR AX, imm16/32
                    let imm = is.fetch_u16()?;
                    Ok(IrOp::OR_Rw_Iw(AX, imm))
                }
            }
            0x0e => {
                // PUSH CS
                Ok(IrOp::PUSH_Sr(CS))
            }
            0x10 => {
                // ADC r/m8, reg8
                match context.modrm_rb(is)? {
                    ModRmOperand::Reg(s, r) => Ok(IrOp::ADC_Rb_Rb(s, r)),
                    ModRmOperand::Mem16(s, r) => Ok(IrOp::ADC_MbA16_Rb(s, r)),
                    ModRmOperand::Mem32(s, r) => Ok(IrOp::ADC_MbA32_Rb(s, r)),
                }
            }
            0x11 => Self::decode_alu_v_to_rm(context, opcode, is),
            0x12 => {
                // ADC reg8, r/m8
                match context.modrm_rb(is)? {
                    ModRmOperand::Reg(m, r) => Ok(IrOp::ADC_Rb_Rb(r, m)),
                    ModRmOperand::Mem16(m, r) => Ok(IrOp::ADC_Rb_MbA16(r, m)),
                    ModRmOperand::Mem32(m, r) => Ok(IrOp::ADC_Rb_MbA32(r, m)),
                }
            }
            0x13 => Self::decode_alu_v_to_reg(context, opcode, is),
            0x14 => {
                // ADC AL, imm8
                let imm = is.fetch_u8()?;
                Ok(IrOp::ADC_Rb_Ib(GprIndex8::AL, imm))
            }
            0x15 => {
                if context.is_opsize32 {
                    // ADC EAX, imm32
                    let imm = is.fetch_u32()?;
                    Ok(IrOp::ADC_Rd_Id(EAX, imm))
                } else {
                    // ADC AX, imm16/32
                    let imm = is.fetch_u16()?;
                    Ok(IrOp::ADC_Rw_Iw(AX, imm))
                }
            }
            0x16 => {
                // PUSH SS
                Ok(IrOp::PUSH_Sr(SS))
            }
            0x17 => {
                // POP SS
                Ok(IrOp::POP_Sr(SS))
            }
            0x18 => {
                // SBB r/m8, reg8
                match context.modrm_rb(is)? {
                    ModRmOperand::Reg(s, r) => Ok(IrOp::SBB_Rb_Rb(s, r)),
                    ModRmOperand::Mem16(s, r) => Ok(IrOp::SBB_MbA16_Rb(s, r)),
                    ModRmOperand::Mem32(s, r) => Ok(IrOp::SBB_MbA32_Rb(s, r)),
                }
            }
            0x19 => Self::decode_alu_v_to_rm(context, opcode, is),
            0x1a => {
                // SBB reg8, r/m8
                match context.modrm_rb(is)? {
                    ModRmOperand::Reg(m, r) => Ok(IrOp::SBB_Rb_Rb(r, m)),
                    ModRmOperand::Mem16(m, r) => Ok(IrOp::SBB_Rb_MbA16(r, m)),
                    ModRmOperand::Mem32(m, r) => Ok(IrOp::SBB_Rb_MbA32(r, m)),
                }
            }
            0x1b => Self::decode_alu_v_to_reg(context, opcode, is),
            0x1c => {
                // SBB AL, imm8
                let imm = is.fetch_u8()?;
                Ok(IrOp::SBB_Rb_Ib(GprIndex8::AL, imm))
            }
            0x1d => {
                if context.is_opsize32 {
                    // SBB EAX, imm32
                    let imm = is.fetch_u32()?;
                    Ok(IrOp::SBB_Rd_Id(EAX, imm))
                } else {
                    // SBB AX, imm16/32
                    let imm = is.fetch_u16()?;
                    Ok(IrOp::SBB_Rw_Iw(AX, imm))
                }
            }
            0x1e => {
                // PUSH DS
                Ok(IrOp::PUSH_Sr(DS))
            }
            0x1f => {
                // POP DS
                Ok(IrOp::POP_Sr(DS))
            }
            0x20 => {
                // AND r/m8, reg8
                match context.modrm_rb(is)? {
                    ModRmOperand::Reg(s, r) => Ok(IrOp::AND_Rb_Rb(s, r)),
                    ModRmOperand::Mem16(s, r) => Ok(IrOp::AND_MbA16_Rb(s, r)),
                    ModRmOperand::Mem32(s, r) => Ok(IrOp::AND_MbA32_Rb(s, r)),
                }
            }
            0x21 => Self::decode_alu_v_to_rm(context, opcode, is),
            0x22 => {
                // AND reg8, r/m8
                match context.modrm_rb(is)? {
                    ModRmOperand::Reg(m, r) => Ok(IrOp::AND_Rb_Rb(r, m)),
                    ModRmOperand::Mem16(m, r) => Ok(IrOp::AND_Rb_MbA16(r, m)),
                    ModRmOperand::Mem32(m, r) => Ok(IrOp::AND_Rb_MbA32(r, m)),
                }
            }
            0x23 => Self::decode_alu_v_to_reg(context, opcode, is),
            0x24 => {
                // AND AL, imm8
                let imm = is.fetch_u8()?;
                Ok(IrOp::AND_Rb_Ib(GprIndex8::AL, imm))
            }
            0x25 => {
                if context.is_opsize32 {
                    // AND EAX, imm32
                    let imm = is.fetch_u32()?;
                    Ok(IrOp::AND_Rd_Id(EAX, imm))
                } else {
                    // AND AX, imm16/32
                    let imm = is.fetch_u16()?;
                    Ok(IrOp::AND_Rw_Iw(AX, imm))
                }
            }
            0x27 => {
                // DAA
                Ok(IrOp::DAA)
            }
            0x28 => {
                // SUB r/m8, reg8
                match context.modrm_rb(is)? {
                    ModRmOperand::Reg(s, r) => Ok(IrOp::SUB_Rb_Rb(s, r)),
                    ModRmOperand::Mem16(s, r) => Ok(IrOp::SUB_MbA16_Rb(s, r)),
                    ModRmOperand::Mem32(s, r) => Ok(IrOp::SUB_MbA32_Rb(s, r)),
                }
            }
            0x29 => Self::decode_alu_v_to_rm(context, opcode, is),
            0x2a => {
                // SUB reg8, r/m8
                match context.modrm_rb(is)? {
                    ModRmOperand::Reg(m, r) => Ok(IrOp::SUB_Rb_Rb(r, m)),
                    ModRmOperand::Mem16(m, r) => Ok(IrOp::SUB_Rb_MbA16(r, m)),
                    ModRmOperand::Mem32(m, r) => Ok(IrOp::SUB_Rb_MbA32(r, m)),
                }
            }
            0x2b => Self::decode_alu_v_to_reg(context, opcode, is),
            0x2c => {
                // SUB AL, imm8
                let imm = is.fetch_u8()?;
                Ok(IrOp::SUB_Rb_Ib(GprIndex8::AL, imm))
            }
            0x2d => {
                if context.is_opsize32 {
                    // SUB EAX, imm32
                    let imm = is.fetch_u32()?;
                    Ok(IrOp::SUB_Rd_Id(EAX, imm))
                } else {
                    // SUB AX, imm16/32
                    let imm = is.fetch_u16()?;
                    Ok(IrOp::SUB_Rw_Iw(AX, imm))
                }
            }
            0x2f => {
                // DAS
                Ok(IrOp::DAS)
            }
            0x30 => {
                // XOR r/m8, reg8
                match context.modrm_rb(is)? {
                    ModRmOperand::Reg(s, r) => Ok(IrOp::XOR_Rb_Rb(s, r)),
                    ModRmOperand::Mem16(s, r) => Ok(IrOp::XOR_MbA16_Rb(s, r)),
                    ModRmOperand::Mem32(s, r) => Ok(IrOp::XOR_MbA32_Rb(s, r)),
                }
            }
            0x31 => Self::decode_alu_v_to_rm(context, opcode, is),
            0x32 => {
                // XOR reg8, r/m8
                match context.modrm_rb(is)? {
                    ModRmOperand::Reg(m, r) => Ok(IrOp::XOR_Rb_Rb(r, m)),
                    ModRmOperand::Mem16(m, r) => Ok(IrOp::XOR_Rb_MbA16(r, m)),
                    ModRmOperand::Mem32(m, r) => Ok(IrOp::XOR_Rb_MbA32(r, m)),
                }
            }
            0x33 => Self::decode_alu_v_to_reg(context, opcode, is),
            0x34 => {
                // XOR AL, imm8
                let imm = is.fetch_u8()?;
                Ok(IrOp::XOR_Rb_Ib(GprIndex8::AL, imm))
            }
            0x35 => {
                if context.is_opsize32 {
                    // XOR EAX, imm32
                    let imm = is.fetch_u32()?;
                    Ok(IrOp::XOR_Rd_Id(EAX, imm))
                } else {
                    // XOR AX, imm16/32
                    let imm = is.fetch_u16()?;
                    Ok(IrOp::XOR_Rw_Iw(AX, imm))
                }
            }
            0x37 => {
                // AAA
                Ok(IrOp::AAA)
            }
            0x38 => {
                // CMP r/m8, reg8
                match context.modrm_rb(is)? {
                    ModRmOperand::Reg(s, r) => Ok(IrOp::CMP_Rb_Rb(s, r)),
                    ModRmOperand::Mem16(s, r) => Ok(IrOp::CMP_MbA16_Rb(s, r)),
                    ModRmOperand::Mem32(s, r) => Ok(IrOp::CMP_MbA32_Rb(s, r)),
                }
            }
            0x39 => Self::decode_alu_v_to_rm(context, opcode, is),
            0x3a => {
                // CMP reg8, r/m8
                match context.modrm_rb(is)? {
                    ModRmOperand::Reg(m, r) => Ok(IrOp::CMP_Rb_Rb(r, m)),
                    ModRmOperand::Mem16(m, r) => Ok(IrOp::CMP_Rb_MbA16(r, m)),
                    ModRmOperand::Mem32(m, r) => Ok(IrOp::CMP_Rb_MbA32(r, m)),
                }
            }
            0x3b => Self::decode_alu_v_to_reg(context, opcode, is),
            0x3c => {
                // CMP AL, imm8
                let imm = is.fetch_u8()?;
                Ok(IrOp::CMP_Rb_Ib(GprIndex8::AL, imm))
            }
            0x3d => {
                if context.is_opsize32 {
                    // CMP EAX, imm32
                    let imm = is.fetch_u32()?;
                    Ok(IrOp::CMP_Rd_Id(EAX, imm))
                } else {
                    // CMP AX, imm16/32
                    let imm = is.fetch_u16()?;
                    Ok(IrOp::CMP_Rw_Iw(AX, imm))
                }
            }
            0x3f => {
                // AAS
                Ok(IrOp::AAS)
            }
            0x0f => {
                // Two-byte opcode escape
                Self::decode_0f(context, is)
            }
            _ => Ok(IrOp::UD),
        }
    }

    /// Decodes IMUL by a 16- or 32-bit immediate.
    #[verifier::spinoff_prover]
    #[verifier::rlimit(100)]
    fn decode_imul_imm<FETCH: Fetch<E = E>, E>(context: &DecoderContext, opcode: u8, is: &mut FETCH) -> (r: Result<IrOp, E>)
        requires
            opcode == 0x69,
        ensures
            read_on(*old(is), *final(is), r is Err),
            final(is).reliable() == old(is).reliable(),
            r is Ok ==> final(is).stream().len() <= old(is).stream().len(),
            ({
                let s = old(is).stream();
                &&& old(is).reliable() ==> (r is Ok <==> match context.spec_operand(s) {
                    Some((o, n)) => n + lea_pop_imul_len(context.is_opsize32, opcode, o) <= s.len(),
                    None => false,
                })
                &&& r is Ok ==> {
                    let (o, n) = context.spec_operand(s)->0;
                    &&& context.spec_operand(s) is Some
                    &&& n + lea_pop_imul_len(context.is_opsize32, opcode, o) <= s.len()
                    &&& lea_pop_imul_rel(context.is_opsize32, opcode, o, s.skip(n as int), r->Ok_0)
                    &&& final(is).stream() == s.skip((n + lea_pop_imul_len(context.is_opsize32, opcode, o)) as int)
                }
            }),
    {
        match opcode {
            0x69 => {
                // IMUL r16/32, r/m16/32, imm16/32
                let ghost s = is.stream();
                let operand = context.modrm_rv_sub3(is)?;
                proof {
                    let (o, n) = context.spec_operand(s)->0;
                    if n + 1 <= s.len() {
                        assert(s.skip(n as int).drop_first() =~= s.skip(n + 1int));
                    }
                    if n + 2 <= s.len() {
                        assert(s.skip(n as int).skip(2) =~= s.skip(n + 2int));
                    }
                    if n + 4 <= s.len() {
                        assert(s.skip(n as int).skip(4) =~= s.skip(n + 4int));
                    }
                    if n <= s.len() {
                        assert(s.skip(n as int).skip(0) =~= s.skip(n as int));
                    }
                }
                match operand {
                    SizedOperand::Word(ModRmOperand::Reg(s, c)) => {
                            let imm = is.fetch_u16()?;
                            Ok(IrOp::IMUL_Rw_Rw_Iw(GprIndex16::from_idx3(c), s, imm))
                        },
                    SizedOperand::Word(ModRmOperand::Mem16(s, c)) => {
                            let imm = is.fetch_u16()?;
                            Ok(IrOp::IMUL_Rw_MwA16_Iw(GprIndex16::from_idx3(c), s, imm))
                        },
                    SizedOperand::Word(ModRmOperand::Mem32(s, c)) => {
                            let imm = is.fetch_u16()?;
                            Ok(IrOp::IMUL_Rw_MwA32_Iw(GprIndex16::from_idx3(c), s, imm))
                        },
                    SizedOperand::Dword(ModRmOperand::Reg(s, c)) => {
                            let imm = is.fetch_u32()?;
                            Ok(IrOp::IMUL_Rd_Rd_Id(GprIndex32::from_idx3(c), s, imm))
                        },
                    SizedOperand::Dword(ModRmOperand::Mem16(s, c)) => {
                            let imm = is.fetch_u32()?;
                            Ok(IrOp::IMUL_Rd_MdA16_Id(GprIndex32::from_idx3(c), s, imm))
                        },
                    SizedOperand::Dword(ModRmOperand::Mem32(s, c)) => {
                            let imm = is.fetch_u32()?;
                            Ok(IrOp::IMUL_Rd_MdA32_Id(GprIndex32::from_idx3(c), s, imm))
                        },
                }
            }
            _ => Ok(IrOp::UD),
        }
    }

    fn decode_40_7f<FETCH: Fetch<E = E>, E>(context: &DecoderContext, opcode: u8, is: &mut FETCH) -> (r: Result<IrOp, E>)
        ensures
            opcode == 0x69 ==> {
                let s = old(is).stream();
                &&& old(is).reliable() ==> (r is Ok <==> match context.spec_operand(s) {
                    Some((o, n)) => n + lea_pop_imul_len(context.is_opsize32, opcode, o) <= s.len(),
                    None => false,
                })
                &&& r is Ok ==> {
                    let (o, n) = context.spec_operand(s)->0;
                    &&& context.spec_operand(s) is Some
                    &&& n + lea_pop_imul_len(context.is_opsize32, opcode, o) <= s.len()
                    &&& lea_pop_imul_rel(context.is_opsize32, opcode, o, s.skip(n as int), r->Ok_0)
                    &&& final(is).stream() == s.skip((n + lea_pop_imul_len(context.is_opsize32, opcode, o)) as int)
                }
            },
            read_on(*old(is), *final(is), r is Err),
            final(is).reliable() == old(is).reliable(),
            r is Ok ==> final(is).stream().len() <= old(is).stream().len(),
            0x40 <= opcode < 0x80 && operandless(*context, opcode) is Some
                ==> r == Ok::<IrOp, E>(operandless(*context, opcode)->0) && *final(is) == *old(is),
            0x40 <= opcode < 0x80 && imm_size(*context, opcode) > 0 && old(is).reliable() ==> if old(is).stream().len() >= imm_size(*context, opcode) {
                &&& r matches Ok(ir) && imm_result(*context, opcode, old(is).stream(), old(is).eip(), ir)
                &&& final(is).stream() == old(is).stream().skip(imm_size(*context, opcode) as int)
            } else {
                r is Err
            },
    {
        match opcode {
            0x40..=0x47 => {
                // INC reg16/32
                let reg_index = GprIndex32::from_u8(opcode);
                if context.is_opsize32 {
                    // INC reg32
                    Ok(IrOp::INC_Rd(reg_index))
                } else {
                    // INC reg16
                    Ok(IrOp::INC_Rw(reg_index.downgrade()))
                }
            }
            0x48..=0x4f => {
                // DEC reg16/32
                let reg_index = GprIndex32::from_u8(opcode);
                if context.is_opsize32 {
                    // DEC reg32
                    Ok(IrOp::DEC_Rd(reg_index))
                } else {
                    // DEC reg16
                    Ok(IrOp::DEC_Rw(reg_index.downgrade()))
                }
            }
            0x50..=0x57 => {
                // PUSH reg16/32
                let reg_index = GprIndex32::from_u8(opcode);
                if context.is_opsize32 {
                    // PUSH reg32
                    Ok(IrOp::PUSH_Rd(reg_index))
                } else {
                    // PUSH reg16
                    Ok(IrOp::PUSH_Rw(reg_index.downgrade()))
                }
            }
            0x58..=0x5f => {
                // POP reg16/32
                let reg_index = GprIndex32::from_u8(opcode);
                if context.is_opsize32 {
                    // POP reg32
                    Ok(IrOp::POP_Rd(reg_index))
                } else {
                    // POP reg16
                    Ok(IrOp::POP_Rw(reg_index.downgrade()))
                }
            }
            0x60 => {
                // PUSHA/PUSHAD
                if context.is_opsize32 {
                    Ok(IrOp::PUSHAD)
                } else {
                    Ok(IrOp::PUSHA)
                }
            }
            0x61 => {
                // POPA/POPAD
                if context.is_opsize32 {
                    Ok(IrOp::POPAD)
                } else {
                    Ok(IrOp::POPA)
                }
            }
            0x62 => {
                // BOUND r16/32, m16/32
                match context.modrm_mv(is)? {
                    SizedOperand::Word(ModRmOperand::Reg(_, _)) => Ok(IrOp::UD),
                    SizedOperand::Dword(ModRmOperand::Reg(_, _)) => Ok(IrOp::UD),
                    SizedOperand::Word(ModRmOperand::Mem16(m, r)) => Ok(IrOp::BOUND_Rw_MwA16(r, m)),
                    SizedOperand::Word(ModRmOperand::Mem32(m, r)) => Ok(IrOp::BOUND_Rw_MwA32(r, m)),
                    SizedOperand::Dword(ModRmOperand::Mem16(m, r)) => Ok(IrOp::BOUND_Rd_MdA16(r, m)),
                    SizedOperand::Dword(ModRmOperand::Mem32(m, r)) => Ok(IrOp::BOUND_Rd_MdA32(r, m)),
                }
            }
            0x63 => {
                // ARPL r16/32, r/m16/32
                match context.modrm_rw(is)? {
                    ModRmOperand::Reg(s, r) => Ok(IrOp::ARPL_Rw_Rw(s, r)),
                    ModRmOperand::Mem16(s, r) => Ok(IrOp::ARPL_MwA16_Rw(s, r)),
                    ModRmOperand::Mem32(s, r) => Ok(IrOp::ARPL_MwA32_Rw(s, r)),
                }
            }
            0x68 => {
                // PUSH imm16/32
                if context.is_opsize32 {
                    let imm = is.fetch_u32()?;
                    Ok(IrOp::PUSH_Id(imm))
                } else {
                    let imm = is.fetch_u16()?;
                    Ok(IrOp::PUSH_Iw(imm))
                }
            }
            0x69 => Self::decode_imul_imm(context, opcode, is),
            0x6a => {
                // PUSH imm8
                let imm = is.fetch_i8()? as i32;
                if context.is_opsize32 {
                    Ok(IrOp::PUSH_Id(imm as u32))
                } else {
                    Ok(IrOp::PUSH_Iw(imm as u16))
                }
            }
            0x6b => {
                // IMUL r16/32, r/m16/32, imm8
                match context.modrm_rv_ib(is)? {
                    (SizedOperand::Word(ModRmOperand::Reg(m, r)), imm) => Ok(IrOp::IMUL_Rw_Rw_Iw(r, m, imm as u16)),
                    (SizedOperand::Word(ModRmOperand::Mem16(m, r)), imm) => Ok(IrOp::IMUL_Rw_MwA16_Iw(r, m, imm as u16)),
                    (SizedOperand::Word(ModRmOperand::Mem32(m, r)), imm) => Ok(IrOp::IMUL_Rw_MwA32_Iw(r, m, imm as u16)),
                    (SizedOperand::Dword(ModRmOperand::Reg(m, r)), imm) => Ok(IrOp::IMUL_Rd_Rd_Id(r, m, imm as u32)),
                    (SizedOperand::Dword(ModRmOperand::Mem16(m, r)), imm) => Ok(IrOp::IMUL_Rd_MdA16_Id(r, m, imm as u32)),
                    (SizedOperand::Dword(ModRmOperand::Mem32(m, r)), imm) => Ok(IrOp::IMUL_Rd_MdA32_Id(r, m, imm as u32)),
                }
            }
            0x6c => {
                // INS m8, DX
                match context.prefix_fx {
                    PrefixFx::NP => Ok(IrOp::INSB(ES, context.is_addr32)),
                    PrefixFx::F2_REPNZ | PrefixFx::F3_REPZ => {
                        Ok(IrOp::REP_INSB(ES, context.is_addr32))
                    }
                    PrefixFx::F0_LOCK => Ok(IrOp::UD),
                }
            }
            0x6d => {
                // INS m16/32, DX
                if context.is_opsize32 {
                    match context.prefix_fx {
                        PrefixFx::NP => Ok(IrOp::INSD(ES, context.is_addr32)),
                        PrefixFx::F2_REPNZ | PrefixFx::F3_REPZ => {
                            Ok(IrOp::REP_INSD(ES, context.is_addr32))
                        }
                        PrefixFx::F0_LOCK => Ok(IrOp::UD),
                    }
                } else {
                    match context.prefix_fx {
                        PrefixFx::NP => Ok(IrOp::INSW(ES, context.is_addr32)),
                        PrefixFx::F2_REPNZ | PrefixFx::F3_REPZ => {
                            Ok(IrOp::REP_INSW(ES, context.is_addr32))
                        }
                        PrefixFx::F0_LOCK => Ok(IrOp::UD),
                    }
                }
            }
            0x6e => {
                // OUTS DX, m8
                match context.prefix_fx {
                    PrefixFx::NP => Ok(IrOp::OUTSB(
                        context.segment_override.unwrap_or(DS),
                        context.is_addr32,
                    )),
                    PrefixFx::F2_REPNZ | PrefixFx::F3_REPZ => Ok(IrOp::REP_OUTSB(
                        context.segment_override.unwrap_or(DS),
                        context.is_addr32,
                    )),
                    PrefixFx::F0_LOCK => Ok(IrOp::UD),
                }
            }
            0x6f => {
                // OUTS DX, m16/32
                if context.is_opsize32 {
                    match context.prefix_fx {
                        PrefixFx::NP => Ok(IrOp::OUTSD(
                            context.segment_override.unwrap_or(DS),
                            context.is_addr32,
                        )),
                        PrefixFx::F2_REPNZ | PrefixFx::F3_REPZ => Ok(IrOp::REP_OUTSD(
                            context.segment_override.unwrap_or(DS),
                            context.is_addr32,
                        )),
                        PrefixFx::F0_LOCK => Ok(IrOp::UD),
                    }
                } else {
                    match context.prefix_fx {
                        PrefixFx::NP => Ok(IrOp::OUTSW(
                            context.segment_override.unwrap_or(DS),
                            context.is_addr32,
                        )),
                        PrefixFx::F2_REPNZ | PrefixFx::F3_REPZ => Ok(IrOp::REP_OUTSW(
                            context.segment_override.unwrap_or(DS),
                            context.is_addr32,
                        )),
                        PrefixFx::F0_LOCK => Ok(IrOp::UD),
                    }
                }
            }
            0x70..=0x7f => {
                // Jcc rel8
                let rel = is.fetch_i8()? as i32;
                let cc = CC::from_u8(opcode);
                let target = if context.is_opsize32 {
                    Offset32(is.current_eip().0.wrapping_add(rel as u32))
                } else {
                    Offset32(is.current_eip().0.wrapping_add(rel as u32) & 0x0000_ffff)
                };
                Ok(IrOp::JCC_Jv(cc, target))
            }
            _ => Ok(IrOp::UD),
        }
    }

    /// Decodes the 8-bit group-1 instructions with an immediate byte.
    #[verifier::spinoff_prover]
    #[verifier::rlimit(100)]
    fn decode_grp1_b<FETCH: Fetch<E = E>, E>(context: &DecoderContext, opcode: u8, is: &mut FETCH) -> (r: Result<IrOp, E>)
        requires
            opcode == 0x80 || opcode == 0x82,
        ensures
            read_on(*old(is), *final(is), r is Err),
            final(is).reliable() == old(is).reliable(),
            r is Ok ==> final(is).stream().len() <= old(is).stream().len(),
            ({
                let s = old(is).stream();
                let len = grp1_imm_len(context.is_opsize32, opcode);
                &&& old(is).reliable() ==> (r is Ok <==> match context.spec_operand(s) {
                    Some((o, n)) => n + len <= s.len(),
                    None => false,
                })
                &&& r is Ok ==> {
                    let (o, n) = context.spec_operand(s)->0;
                    &&& context.spec_operand(s) is Some
                    &&& n + len <= s.len()
                    &&& grp1_imm_rel(context.is_opsize32, opcode, o, s.skip(n as int), r->Ok_0)
                    &&& final(is).stream() == s.skip((n + len) as int)
                }
            }),
    {
        match opcode {
            0x80 | 0x82 => {
                // Grp1 r/m8, imm8
                // NOTE: 0x82 is strictly undefined, but treated the same as 0x80 by most CPUs.
                let ghost s = is.stream();
                let operand = context.modrm_rb_sub3(is)?;
                proof {
                    let (o, n) = context.spec_operand(s)->0;
                    if n < s.len() {
                        assert(s.skip(n as int).drop_first() =~= s.skip(n + 1int));
                    }
                }
                match operand {
                    ModRmOperand::Reg(s, c) => {
                            let sub_op = OpGrp1::from_idx3(c);
                            let imm = is.fetch_u8()?;
                            match sub_op {
                                OpGrp1::ADD => Ok(IrOp::ADD_Rb_Ib(s, imm)),
                                OpGrp1::OR => Ok(IrOp::OR_Rb_Ib(s, imm)),
                                OpGrp1::ADC => Ok(IrOp::ADC_Rb_Ib(s, imm)),
                                OpGrp1::SBB => Ok(IrOp::SBB_Rb_Ib(s, imm)),
                                OpGrp1::AND => Ok(IrOp::AND_Rb_Ib(s, imm)),
                                OpGrp1::SUB => Ok(IrOp::SUB_Rb_Ib(s, imm)),
                                OpGrp1::XOR => Ok(IrOp::XOR_Rb_Ib(s, imm)),
                                OpGrp1::CMP => Ok(IrOp::CMP_Rb_Ib(s, imm)),
                            }
                        },
                    ModRmOperand::Mem16(s, c) => {
                            let sub_op = OpGrp1::from_idx3(c);
                            let imm = is.fetch_u8()?;
                            match sub_op {
                                OpGrp1::ADD => Ok(IrOp::ADD_MbA16_Ib(s, imm)),
                                OpGrp1::OR => Ok(IrOp::OR_MbA16_Ib(s, imm)),
                                OpGrp1::ADC => Ok(IrOp::ADC_MbA16_Ib(s, imm)),
                                OpGrp1::SBB => Ok(IrOp::SBB_MbA16_Ib(s, imm)),
                                OpGrp1::AND => Ok(IrOp::AND_MbA16_Ib(s, imm)),
                                OpGrp1::SUB => Ok(IrOp::SUB_MbA16_Ib(s, imm)),
                                OpGrp1::XOR => Ok(IrOp::XOR_MbA16_Ib(s, imm)),
                                OpGrp1::CMP => Ok(IrOp::CMP_MbA16_Ib(s, imm)),
                            }
                        },
                    ModRmOperand::Mem32(s, c) => {
                            let sub_op = OpGrp1::from_idx3(c);
                            let imm = is.fetch_u8()?;
                            match sub_op {
                                OpGrp1::ADD => Ok(IrOp::ADD_MbA32_Ib(s, imm)),
                                OpGrp1::OR => Ok(IrOp::OR_MbA32_Ib(s, imm)),
                                OpGrp1::ADC => Ok(IrOp::ADC_MbA32_Ib(s, imm)),
                                OpGrp1::SBB => Ok(IrOp::SBB_MbA32_Ib(s, imm)),
                                OpGrp1::AND => Ok(IrOp::AND_MbA32_Ib(s, imm)),
                                OpGrp1::SUB => Ok(IrOp::SUB_MbA32_Ib(s, imm)),
                                OpGrp1::XOR => Ok(IrOp::XOR_MbA32_Ib(s, imm)),
                                OpGrp1::CMP => Ok(IrOp::CMP_MbA32_Ib(s, imm)),
                            }
                        },
                }
            }
            _ => Ok(IrOp::UD),
        }
    }

    /// Decodes the 16- or 32-bit group-1 instructions with an immediate of that size.
    #[verifier::spinoff_prover]
    #[verifier::rlimit(100)]
    fn decode_grp1_v<FETCH: Fetch<E = E>, E>(context: &DecoderContext, opcode: u8, is: &mut FETCH) -> (r: Result<IrOp, E>)
        requires
            opcode == 0x81,
        ensures
            read_on(*old(is), *final(is), r is Err),
            final(is).reliable() == old(is).reliable(),
            r is Ok ==> final(is).stream().len() <= old(is).stream().len(),
            ({
                let s = old(is).stream();
                let len = grp1_imm_len(context.is_opsize32, opcode);
                &&& old(is).reliable() ==> (r is Ok <==> match context.spec_operand(s) {
                    Some((o, n)) => n + len <= s.len(),
                    None => false,
                })
                &&& r is Ok ==> {
                    let (o, n) = context.spec_operand(s)->0;
                    &&& context.spec_operand(s) is Some
                    &&& n + len <= s.len()
                    &&& grp1_imm_rel(context.is_opsize32, opcode, o, s.skip(n as int), r->Ok_0)
                    &&& final(is).stream() == s.skip((n + len) as int)
                }
            }),
    {
        match opcode {
            0x81 => {
                // Grp1 r/m16/32, imm16/32
                let ghost s = is.stream();
                let operand = context.modrm_rv_sub3(is)?;
                proof {
                    let (o, n) = context.spec_operand(s)->0;
                    if n + 2 <= s.len() {
                        assert(s.skip(n as int).skip(2) =~= s.skip(n + 2int));
                    }
                    if n + 4 <= s.len() {
                        assert(s.skip(n as int).skip(4) =~= s.skip(n + 4int));
                    }
                }
                match operand {
                    SizedOperand::Word(ModRmOperand::Reg(s, c)) => {
                            let sub_op = OpGrp1::from_idx3(c);
                            let imm = is.fetch_u16()?;
                            match sub_op {
                                OpGrp1::ADD => Ok(IrOp::ADD_Rw_Iw(s, imm)),
                                OpGrp1::OR => Ok(IrOp::OR_Rw_Iw(s, imm)),
                                OpGrp1::ADC => Ok(IrOp::ADC_Rw_Iw(s, imm)),
                                OpGrp1::SBB => Ok(IrOp::SBB_Rw_Iw(s, imm)),
                                OpGrp1::AND => Ok(IrOp::AND_Rw_Iw(s, imm)),
                                OpGrp1::SUB => Ok(IrOp::SUB_Rw_Iw(s, imm)),
                                OpGrp1::XOR => Ok(IrOp::XOR_Rw_Iw(s, imm)),
                                OpGrp1::CMP => Ok(IrOp::CMP_Rw_Iw(s, imm)),
                            }
                        },
                    SizedOperand::Word(ModRmOperand::Mem16(s, c)) => {
                            let sub_op = OpGrp1::from_idx3(c);
                            let imm = is.fetch_u16()?;
                            match sub_op {
                                OpGrp1::ADD => Ok(IrOp::ADD_MwA16_Iw(s, imm)),
                                OpGrp1::OR => Ok(IrOp::OR_MwA16_Iw(s, imm)),
                                OpGrp1::ADC => Ok(IrOp::ADC_MwA16_Iw(s, imm)),
                                OpGrp1::SBB => Ok(IrOp::SBB_MwA16_Iw(s, imm)),
                                OpGrp1::AND => Ok(IrOp::AND_MwA16_Iw(s, imm)),
                                OpGrp1::SUB => Ok(IrOp::SUB_MwA16_Iw(s, imm)),
                                OpGrp1::XOR => Ok(IrOp::XOR_MwA16_Iw(s, imm)),
                                OpGrp1::CMP => Ok(IrOp::CMP_MwA16_Iw(s, imm)),
                            }
                        },
                    SizedOperand::Word(ModRmOperand::Mem32(s, c)) => {
                            let sub_op = OpGrp1::from_idx3(c);
                            let imm = is.fetch_u16()?;
                            match sub_op {
                                OpGrp1::ADD => Ok(IrOp::ADD_MwA32_Iw(s, imm)),
                                OpGrp1::OR => Ok(IrOp::OR_MwA32_Iw(s, imm)),
                                OpGrp1::ADC => Ok(IrOp::ADC_MwA32_Iw(s, imm)),
                                OpGrp1::SBB => Ok(IrOp::SBB_MwA32_Iw(s, imm)),
                                OpGrp1::AND => Ok(IrOp::AND_MwA32_Iw(s, imm)),
                                OpGrp1::SUB => Ok(IrOp::SUB_MwA32_Iw(s, imm)),
                                OpGrp1::XOR => Ok(IrOp::XOR_MwA32_Iw(s, imm)),
                                OpGrp1::CMP => Ok(IrOp::CMP_MwA32_Iw(s, imm)),
                            }
                        },
                    SizedOperand::Dword(ModRmOperand::Reg(s, c)) => {
                            let sub_op = OpGrp1::from_idx3(c);
                            let imm = is.fetch_u32()?;
                            match sub_op {
                                OpGrp1::ADD => Ok(IrOp::ADD_Rd_Id(s, imm)),
                                OpGrp1::OR => Ok(IrOp::OR_Rd_Id(s, imm)),
                                OpGrp1::ADC => Ok(IrOp::ADC_Rd_Id(s, imm)),
                                OpGrp1::SBB => Ok(IrOp::SBB_Rd_Id(s, imm)),
                                OpGrp1::AND => Ok(IrOp::AND_Rd_Id(s, imm)),
                                OpGrp1::SUB => Ok(IrOp::SUB_Rd_Id(s, imm)),
                                OpGrp1::XOR => Ok(IrOp::XOR_Rd_Id(s, imm)),
                                OpGrp1::CMP => Ok(IrOp::CMP_Rd_Id(s, imm)),
                            }
                        },
                    SizedOperand::Dword(ModRmOperand::Mem16(s, c)) => {
                            let sub_op = OpGrp1::from_idx3(c);
                            let imm = is.fetch_u32()?;
                            match sub_op {
                                OpGrp1::ADD => Ok(IrOp::ADD_MdA16_Id(s, imm)),
                                OpGrp1::OR => Ok(IrOp::OR_MdA16_Id(s, imm)),
                                OpGrp1::ADC => Ok(IrOp::ADC_MdA16_Id(s, imm)),
                                OpGrp1::SBB => Ok(IrOp::SBB_MdA16_Id(s, imm)),
                                OpGrp1::AND => Ok(IrOp::AND_MdA16_Id(s, imm)),
                                OpGrp1::SUB => Ok(IrOp::SUB_MdA16_Id(s, imm)),
                                OpGrp1::XOR => Ok(IrOp::XOR_MdA16_Id(s, imm)),
                                OpGrp1::CMP => Ok(IrOp::CMP_MdA16_Id(s, imm)),
                            }
                        },
                    SizedOperand::Dword(ModRmOperand::Mem32(s, c)) => {
                            let sub_op = OpGrp1::from_idx3(c);
                            let imm = is.fetch_u32()?;
                            match sub_op {
                                OpGrp1::ADD => Ok(IrOp::ADD_MdA32_Id(s, imm)),
                                OpGrp1::OR => Ok(IrOp::OR_MdA32_Id(s, imm)),
                                OpGrp1::ADC => Ok(IrOp::ADC_MdA32_Id(s, imm)),
                                OpGrp1::SBB => Ok(IrOp::SBB_MdA32_Id(s, imm)),
                                OpGrp1::AND => Ok(IrOp::AND_MdA32_Id(s, imm)),
                                OpGrp1::SUB => Ok(IrOp::SUB_MdA32_Id(s, imm)),
                                OpGrp1::XOR => Ok(IrOp::XOR_MdA32_Id(s, imm)),
                                OpGrp1::CMP => Ok(IrOp::CMP_MdA32_Id(s, imm)),
                            }
                        },
                }
            }
            _ => Ok(IrOp::UD),
        }
    }

    /// Decodes the 16- or 32-bit group-1 instructions with a sign-extended immediate byte.
    #[verifier::spinoff_prover]
    #[verifier::rlimit(100)]
    fn decode_grp1_sx<FETCH: Fetch<E = E>, E>(context: &DecoderContext, opcode: u8, is: &mut FETCH) -> (r: Result<IrOp, E>)
        requires
            opcode == 0x83,
        ensures
            read_on(*old(is), *final(is), r is Err),
            final(is).reliable() == old(is).reliable(),
            r is Ok ==> final(is).stream().len() <= old(is).stream().len(),
            ({
                let s = old(is).stream();
                let len = grp1_imm_len(context.is_opsize32, opcode);
                &&& old(is).reliable() ==> (r is Ok <==> match context.spec_operand(s) {
                    Some((o, n)) => n + len <= s.len(),
                    None => false,
                })
                &&& r is Ok ==> {
                    let (o, n) = context.spec_operand(s)->0;
                    &&& context.spec_operand(s) is Some
                    &&& n + len <= s.len()
                    &&& grp1_imm_rel(context.is_opsize32, opcode, o, s.skip(n as int), r->Ok_0)
                    &&& final(is).stream() == s.skip((n + len) as int)
                }
            }),
    {
        match opcode {
            0x83 => {
                // Grp1 r/m16/32, imm8
                let ghost s = is.stream();
                let operand = context.modrm_rv_sub3(is)?;
                proof {
                    let (o, n) = context.spec_operand(s)->0;
                    if n < s.len() {
                        assert(s.skip(n as int).drop_first() =~= s.skip(n + 1int));
                        assert(s.skip(n as int)[0] == s[n as int]);
                    }
                }
                match operand {
                    SizedOperand::Word(ModRmOperand::Reg(s, c)) => {
                            let sub_op = OpGrp1::from_idx3(c);
                            let imm = is.fetch_i8()? as i16 as u16;
                            match sub_op {
                                OpGrp1::ADD => Ok(IrOp::ADD_Rw_Iw(s, imm)),
                                OpGrp1::OR => Ok(IrOp::OR_Rw_Iw(s, imm)),
                                OpGrp1::ADC => Ok(IrOp::ADC_Rw_Iw(s, imm)),
                                OpGrp1::SBB => Ok(IrOp::SBB_Rw_Iw(s, imm)),
                                OpGrp1::AND => Ok(IrOp::AND_Rw_Iw(s, imm)),
                                OpGrp1::SUB => Ok(IrOp::SUB_Rw_Iw(s, imm)),
                                OpGrp1::XOR => Ok(IrOp::XOR_Rw_Iw(s, imm)),
                                OpGrp1::CMP => Ok(IrOp::CMP_Rw_Iw(s, imm)),
                            }
                        },
                    SizedOperand::Word(ModRmOperand::Mem16(s, c)) => {
                            let sub_op = OpGrp1::from_idx3(c);
                            let imm = is.fetch_i8()? as i16 as u16;
                            match sub_op {
                                OpGrp1::ADD => Ok(IrOp::ADD_MwA16_Iw(s, imm)),
                                OpGrp1::OR => Ok(IrOp::OR_MwA16_Iw(s, imm)),
                                OpGrp1::ADC => Ok(IrOp::ADC_MwA16_Iw(s, imm)),
                                OpGrp1::SBB => Ok(IrOp::SBB_MwA16_Iw(s, imm)),
                                OpGrp1::AND => Ok(IrOp::AND_MwA16_Iw(s, imm)),
                                OpGrp1::SUB => Ok(IrOp::SUB_MwA16_Iw(s, imm)),
                                OpGrp1::XOR => Ok(IrOp::XOR_MwA16_Iw(s, imm)),
                                OpGrp1::CMP => Ok(IrOp::CMP_MwA16_Iw(s, imm)),
                            }
                        },
                    SizedOperand::Word(ModRmOperand::Mem32(s, c)) => {
                            let sub_op = OpGrp1::from_idx3(c);
                            let imm = is.fetch_i8()? as i16 as u16;
                            match sub_op {
                                OpGrp1::ADD => Ok(IrOp::ADD_MwA32_Iw(s, imm)),
                                OpGrp1::OR => Ok(IrOp::OR_MwA32_Iw(s, imm)),
                                OpGrp1::ADC => Ok(IrOp::ADC_MwA32_Iw(s, imm)),
                                OpGrp1::SBB => Ok(IrOp::SBB_MwA32_Iw(s, imm)),
                                OpGrp1::AND => Ok(IrOp::AND_MwA32_Iw(s, imm)),
                                OpGrp1::SUB => Ok(IrOp::SUB_MwA32_Iw(s, imm)),
                                OpGrp1::XOR => Ok(IrOp::XOR_MwA32_Iw(s, imm)),
                                OpGrp1::CMP => Ok(IrOp::CMP_MwA32_Iw(s, imm)),
                            }
                        },
                    SizedOperand::Dword(ModRmOperand::Reg(s, c)) => {
                            let sub_op = OpGrp1::from_idx3(c);
                            let imm = is.fetch_i8()? as i32 as u32;
                            match sub_op {
                                OpGrp1::ADD => Ok(IrOp::ADD_Rd_Id(s, imm)),
                                OpGrp1::OR => Ok(IrOp::OR_Rd_Id(s, imm)),
                                OpGrp1::ADC => Ok(IrOp::ADC_Rd_Id(s, imm)),
                                OpGrp1::SBB => Ok(IrOp::SBB_Rd_Id(s, imm)),
                                OpGrp1::AND => Ok(IrOp::AND_Rd_Id(s, imm)),
                                OpGrp1::SUB => Ok(IrOp::SUB_Rd_Id(s, imm)),
                                OpGrp1::XOR => Ok(IrOp::XOR_Rd_Id(s, imm)),
                                OpGrp1::CMP => Ok(IrOp::CMP_Rd_Id(s, imm)),
                            }
                        },
                    SizedOperand::Dword(ModRmOperand::Mem16(s, c)) => {
                            let sub_op = OpGrp1::from_idx3(c);
                            let imm = is.fetch_i8()? as i32 as u32;
                            match sub_op {
                                OpGrp1::ADD => Ok(IrOp::ADD_MdA16_Id(s, imm)),
                                OpGrp1::OR => Ok(IrOp::OR_MdA16_Id(s, imm)),
                                OpGrp1::ADC => Ok(IrOp::ADC_MdA16_Id(s, imm)),
                                OpGrp1::SBB => Ok(IrOp::SBB_MdA16_Id(s, imm)),
                                OpGrp1::AND => Ok(IrOp::AND_MdA16_Id(s, imm)),
                                OpGrp1::SUB => Ok(IrOp::SUB_MdA16_Id(s, imm)),
                                OpGrp1::XOR => Ok(IrOp::XOR_MdA16_Id(s, imm)),
                                OpGrp1::CMP => Ok(IrOp::CMP_MdA16_Id(s, imm)),
                            }
                        },
                    SizedOperand::Dword(ModRmOperand::Mem32(s, c)) => {
                            let sub_op = OpGrp1::from_idx3(c);
                            let imm = is.fetch_i8()? as i32 as u32;
                            match sub_op {
                                OpGrp1::ADD => Ok(IrOp::ADD_MdA32_Id(s, imm)),
                                OpGrp1::OR => Ok(IrOp::OR_MdA32_Id(s, imm)),
                                OpGrp1::ADC => Ok(IrOp::ADC_MdA32_Id(s, imm)),
                                OpGrp1::SBB => Ok(IrOp::SBB_MdA32_Id(s, imm)),
                                OpGrp1::AND => Ok(IrOp::AND_MdA32_Id(s, imm)),
                                OpGrp1::SUB => Ok(IrOp::SUB_MdA32_Id(s, imm)),
                                OpGrp1::XOR => Ok(IrOp::XOR_MdA32_Id(s, imm)),
                                OpGrp1::CMP => Ok(IrOp::CMP_MdA32_Id(s, imm)),
                            }
                        },
                }
            }
            _ => Ok(IrOp::UD),
        }
    }

    /// Decodes TEST, XCHG and MOV between a register and a ModR/M operand.
    #[verifier::spinoff_prover]
    #[verifier::rlimit(100)]
    fn decode_mov_test_xchg<FETCH: Fetch<E = E>, E>(context: &DecoderContext, opcode: u8, is: &mut FETCH) -> (r: Result<IrOp, E>)
        requires
            0x84 <= opcode <= 0x8b,
        ensures
            read_on(*old(is), *final(is), r is Err),
            r is Ok ==> final(is).stream().len() <= old(is).stream().len(),
            context.fetched(*old(is), *final(is), r, |o: RawOperand, ir: IrOp| mov_test_xchg_rel(context.is_opsize32, opcode, o, ir)),
    {
        match opcode {
            0x84 => {
                // TEST r/m8, reg8
                match context.modrm_rb(is)? {
                    ModRmOperand::Reg(s, r) => Ok(IrOp::TEST_Rb_Rb(s, r)),
                    ModRmOperand::Mem16(s, r) => Ok(IrOp::TEST_MbA16_Rb(s, r)),
                    ModRmOperand::Mem32(s, r) => Ok(IrOp::TEST_MbA32_Rb(s, r)),
                }
            }
            0x85 => {
                // TEST r/m16/32, reg16/32
                match context.modrm_rv(is)? {
                    SizedOperand::Word(ModRmOperand::Reg(s, r)) => Ok(IrOp::TEST_Rw_Rw(s, r)),
                    SizedOperand::Word(ModRmOperand::Mem16(s, r)) => Ok(IrOp::TEST_MwA16_Rw(s, r)),
                    SizedOperand::Word(ModRmOperand::Mem32(s, r)) => Ok(IrOp::TEST_MwA32_Rw(s, r)),
                    SizedOperand::Dword(ModRmOperand::Reg(s, r)) => Ok(IrOp::TEST_Rd_Rd(s, r)),
                    SizedOperand::Dword(ModRmOperand::Mem16(s, r)) => Ok(IrOp::TEST_MdA16_Rd(s, r)),
                    SizedOperand::Dword(ModRmOperand::Mem32(s, r)) => Ok(IrOp::TEST_MdA32_Rd(s, r)),
                }
            }
            0x86 => {
                // XCHG r/m8, reg8
                match context.modrm_rb(is)? {
                    ModRmOperand::Reg(s, r) => Ok(IrOp::XCHG_Rb_Rb(s, r)),
                    ModRmOperand::Mem16(s, r) => Ok(IrOp::XCHG_MbA16_Rb(s, r)),
                    ModRmOperand::Mem32(s, r) => Ok(IrOp::XCHG_MbA32_Rb(s, r)),
                }
            }
            0x87 => {
                // XCHG r/m16/32, reg16/32
                match context.modrm_rv(is)? {
                    SizedOperand::Word(ModRmOperand::Reg(s, r)) => Ok(IrOp::XCHG_Rw_Rw(s, r)),
                    SizedOperand::Word(ModRmOperand::Mem16(s, r)) => Ok(IrOp::XCHG_MwA16_Rw(s, r)),
                    SizedOperand::Word(ModRmOperand::Mem32(s, r)) => Ok(IrOp::XCHG_MwA32_Rw(s, r)),
                    SizedOperand::Dword(ModRmOperand::Reg(s, r)) => Ok(IrOp::XCHG_Rd_Rd(s, r)),
                    SizedOperand::Dword(ModRmOperand::Mem16(s, r)) => Ok(IrOp::XCHG_MdA16_Rd(s, r)),
                    SizedOperand::Dword(ModRmOperand::Mem32(s, r)) => Ok(IrOp::XCHG_MdA32_Rd(s, r)),
                }
            }
            0x88 => {
                // MOV r/m8, reg8
                match context.modrm_rb(is)? {
                    ModRmOperand::Reg(s, r) => Ok(IrOp::MOV_Rb_Rb(s, r)),
                    ModRmOperand::Mem16(s, r) => Ok(IrOp::MOV_MbA16_Rb(s, r)),
                    ModRmOperand::Mem32(s, r) => Ok(IrOp::MOV_MbA32_Rb(s, r)),
                }
            }
            0x89 => {
                // MOV r/m16/32, reg16/32
                match context.modrm_rv(is)? {
                    SizedOperand::Word(ModRmOperand::Reg(s, r)) => Ok(IrOp::MOV_Rw_Rw(s, r)),
                    SizedOperand::Word(ModRmOperand::Mem16(s, r)) => Ok(IrOp::MOV_MwA16_Rw(s, r)),
                    SizedOperand::Word(ModRmOperand::Mem32(s, r)) => Ok(IrOp::MOV_MwA32_Rw(s, r)),
                    SizedOperand::Dword(ModRmOperand::Reg(s, r)) => Ok(IrOp::MOV_Rd_Rd(s, r)),
                    SizedOperand::Dword(ModRmOperand::Mem16(s, r)) => Ok(IrOp::MOV_MdA16_Rd(s, r)),
                    SizedOperand::Dword(ModRmOperand::Mem32(s, r)) => Ok(IrOp::MOV_MdA32_Rd(s, r)),
                }
            }
            0x8a => {
                // MOV reg8, r/m8
                match context.modrm_rb(is)? {
                    ModRmOperand::Reg(m, r) => Ok(IrOp::MOV_Rb_Rb(r, m)),
                    ModRmOperand::Mem16(m, r) => Ok(IrOp::MOV_Rb_MbA16(r, m)),
                    ModRmOperand::Mem32(m, r) => Ok(IrOp::MOV_Rb_MbA32(r, m)),
                }
            }
            0x8b => {
                // MOV reg16/32, r/m16/32
                match context.modrm_rv(is)? {
                    SizedOperand::Word(ModRmOperand::Reg(m, r)) => Ok(IrOp::MOV_Rw_Rw(r, m)),
                    SizedOperand::Word(ModRmOperand::Mem16(m, r)) => Ok(IrOp::MOV_Rw_MwA16(r, m)),
                    SizedOperand::Word(ModRmOperand::Mem32(m, r)) => Ok(IrOp::MOV_Rw_MwA32(r, m)),
                    SizedOperand::Dword(ModRmOperand::Reg(m, r)) => Ok(IrOp::MOV_Rd_Rd(r, m)),
                    SizedOperand::Dword(ModRmOperand::Mem16(m, r)) => Ok(IrOp::MOV_Rd_MdA16(r, m)),
                    SizedOperand::Dword(ModRmOperand::Mem32(m, r)) => Ok(IrOp::MOV_Rd_MdA32(r, m)),
                }
            }
            _ => Ok(IrOp::UD),
        }
    }

    /// Decodes LEA.
    #[verifier::spinoff_prover]
    #[verifier::rlimit(100)]
    fn decode_lea<FETCH: Fetch<E = E>, E>(context: &DecoderContext, opcode: u8, is: &mut FETCH) -> (r: Result<IrOp, E>)
        requires
            opcode == 0x8d,
        ensures
            read_on(*old(is), *final(is), r is Err),
            final(is).reliable() == old(is).reliable(),
            r is Ok ==> final(is).stream().len() <= old(is).stream().len(),
            ({
                let s = old(is).stream();
                &&& old(is).reliable() ==> (r is Ok <==> match context.spec_operand(s) {
                    Some((o, n)) => n + lea_pop_imul_len(context.is_opsize32, opcode, o) <= s.len(),
                    None => false,
                })
                &&& r is Ok ==> {
                    let (o, n) = context.spec_operand(s)->0;
                    &&& context.spec_operand(s) is Some
                    &&& n + lea_pop_imul_len(context.is_opsize32, opcode, o) <= s.len()
                    &&& lea_pop_imul_rel(context.is_opsize32, opcode, o, s.skip(n as int), r->Ok_0)
                    &&& final(is).stream() == s.skip((n + lea_pop_imul_len(context.is_opsize32, opcode, o)) as int)
                }
            }),
    {
        match opcode {
            0x8d => {
                // LEA reg16/32, mem
                let ghost s = is.stream();
                let operand = context.modrm_mv(is)?;
                proof {
                    let (o, n) = context.spec_operand(s)->0;
                    if n + 1 <= s.len() {
                        assert(s.skip(n as int).drop_first() =~= s.skip(n + 1int));
                    }
                    if n + 2 <= s.len() {
                        assert(s.skip(n as int).skip(2) =~= s.skip(n + 2int));
                    }
                    if n + 4 <= s.len() {
                        assert(s.skip(n as int).skip(4) =~= s.skip(n + 4int));
                    }
                    if n <= s.len() {
                        assert(s.skip(n as int).skip(0) =~= s.skip(n as int));
                    }
                }
                match operand {
                    SizedOperand::Word(ModRmOperand::Reg(_, _)) => Ok(IrOp::UD),
                    SizedOperand::Dword(ModRmOperand::Reg(_, _)) => Ok(IrOp::UD),
                    SizedOperand::Word(ModRmOperand::Mem16(m, r)) => Ok(IrOp::LEA_Rw_MwA16(r, m)),
                    SizedOperand::Word(ModRmOperand::Mem32(m, r)) => Ok(IrOp::LEA_Rw_MwA32(r, m)),
                    SizedOperand::Dword(ModRmOperand::Mem16(m, r)) => Ok(IrOp::LEA_Rd_MdA16(r, m)),
                    SizedOperand::Dword(ModRmOperand::Mem32(m, r)) => Ok(IrOp::LEA_Rd_MdA32(r, m)),
                }
            }
            _ => Ok(IrOp::UD),
        }
    }

    /// Decodes POP to a ModR/M operand.
    #[verifier::spinoff_prover]
    #[verifier::rlimit(100)]
    fn decode_pop_rm<FETCH: Fetch<E = E>, E>(context: &DecoderContext, opcode: u8, is: &mut FETCH) -> (r: Result<IrOp, E>)
        requires
            opcode == 0x8f,
        ensures
            read_on(*old(is), *final(is), r is Err),
            final(is).reliable() == old(is).reliable(),
            r is Ok ==> final(is).stream().len() <= old(is).stream().len(),
            ({
                let s = old(is).stream();
                &&& old(is).reliable() ==> (r is Ok <==> match context.spec_operand(s) {
                    Some((o, n)) => n + lea_pop_imul_len(context.is_opsize32, opcode, o) <= s.len(),
                    None => false,
                })
                &&& r is Ok ==> {
                    let (o, n) = context.spec_operand(s)->0;
                    &&& context.spec_operand(s) is Some
                    &&& n + lea_pop_imul_len(context.is_opsize32, opcode, o) <= s.len()
                    &&& lea_pop_imul_rel(context.is_opsize32, opcode, o, s.skip(n as int), r->Ok_0)
                    &&& final(is).stream() == s.skip((n + lea_pop_imul_len(context.is_opsize32, opcode, o)) as int)
                }
            }),
    {
        match opcode {
            0x8f => {
                // POP r/m16/32
                let ghost s = is.stream();
                let operand = context.modrm_rv_sub3(is)?;
                proof {
                    let (o, n) = context.spec_operand(s)->0;
                    if n + 1 <= s.len() {
                        assert(s.skip(n as int).drop_first() =~= s.skip(n + 1int));
                    }
                    if n + 2 <= s.len() {
                        assert(s.skip(n as int).skip(2) =~= s.skip(n + 2int));
                    }
                    if n + 4 <= s.len() {
                        assert(s.skip(n as int).skip(4) =~= s.skip(n + 4int));
                    }
                    if n <= s.len() {
                        assert(s.skip(n as int).skip(0) =~= s.skip(n as int));
                    }
                }
                match operand {
                    SizedOperand::Word(ModRmOperand::Reg(s, c)) => match c {
                            Index3::I000 => Ok(IrOp::POP_Rw(s)),
                            _ => Ok(IrOp::UD),
                        },
                    SizedOperand::Word(ModRmOperand::Mem16(s, c)) => match c {
                            Index3::I000 => Ok(IrOp::POP_MwA16(s)),
                            _ => Ok(IrOp::UD),
                        },
                    SizedOperand::Word(ModRmOperand::Mem32(s, c)) => match c {
                            Index3::I000 => Ok(IrOp::POP_MwA32(s)),
                            _ => Ok(IrOp::UD),
                        },
                    SizedOperand::Dword(ModRmOperand::Reg(s, c)) => match c {
                            Index3::I000 => Ok(IrOp::POP_Rd(s)),
                            _ => Ok(IrOp::UD),
                        },
                    SizedOperand::Dword(ModRmOperand::Mem16(s, c)) => match c {
                            Index3::I000 => Ok(IrOp::POP_MdA16(s)),
                            _ => Ok(IrOp::UD),
                        },
                    SizedOperand::Dword(ModRmOperand::Mem32(s, c)) => match c {
                            Index3::I000 => Ok(IrOp::POP_MdA32(s)),
                            _ => Ok(IrOp::UD),
                        },
                }
            }
            _ => Ok(IrOp::UD),
        }
    }

    fn decode_80_9f<FETCH: Fetch<E = E>, E>(context: &DecoderContext, opcode: u8, is: &mut FETCH) -> (r: Result<IrOp, E>)
        ensures
            opcode == 0x8f ==> {
                let s = old(is).stream();
                &&& old(is).reliable() ==> (r is Ok <==> match context.spec_operand(s) {
                    Some((o, n)) => n + lea_pop_imul_len(context.is_opsize32, opcode, o) <= s.len(),
                    None => false,
                })
                &&& r is Ok ==> {
                    let (o, n) = context.spec_operand(s)->0;
                    &&& context.spec_operand(s) is Some
                    &&& n + lea_pop_imul_len(context.is_opsize32, opcode, o) <= s.len()
                    &&& lea_pop_imul_rel(context.is_opsize32, opcode, o, s.skip(n as int), r->Ok_0)
                    &&& final(is).stream() == s.skip((n + lea_pop_imul_len(context.is_opsize32, opcode, o)) as int)
                }
            },
            opcode == 0x8d ==> {
                let s = old(is).stream();
                &&& old(is).reliable() ==> (r is Ok <==> match context.spec_operand(s) {
                    Some((o, n)) => n + lea_pop_imul_len(context.is_opsize32, opcode, o) <= s.len(),
                    None => false,
                })
                &&& r is Ok ==> {
                    let (o, n) = context.spec_operand(s)->0;
                    &&& context.spec_operand(s) is Some
                    &&& n + lea_pop_imul_len(context.is_opsize32, opcode, o) <= s.len()
                    &&& lea_pop_imul_rel(context.is_opsize32, opcode, o, s.skip(n as int), r->Ok_0)
                    &&& final(is).stream() == s.skip((n + lea_pop_imul_len(context.is_opsize32, opcode, o)) as int)
                }
            },
            read_on(*old(is), *final(is), r is Err),
            final(is).reliable() == old(is).reliable(),
            r is Ok ==> final(is).stream().len() <= old(is).stream().len(),
            0x80 <= opcode < 0xa0 && operandless(*context, opcode) is Some
                ==> r == Ok::<IrOp, E>(operandless(*context, opcode)->0) && *final(is) == *old(is),
            0x84 <= opcode <= 0x8b
                ==> context.fetched(*old(is), *final(is), r, |o: RawOperand, ir: IrOp| mov_test_xchg_rel(context.is_opsize32, opcode, o, ir)),
            0x80 <= opcode <= 0x83 ==> {
                let s = old(is).stream();
                let len = grp1_imm_len(context.is_opsize32, opcode);
                &&& old(is).reliable() ==> (r is Ok <==> match context.spec_operand(s) {
                    Some((o, n)) => n + len <= s.len(),
                    None => false,
                })
                &&& r is Ok ==> {
                    let (o, n) = context.spec_operand(s)->0;
                    &&& context.spec_operand(s) is Some
                    &&& n + len <= s.len()
                    &&& grp1_imm_rel(context.is_opsize32, opcode, o, s.skip(n as int), r->Ok_0)
                    &&& final(is).stream() == s.skip((n + len) as int)
                }
            },
    {
        match opcode {
            0x80 | 0x82 => Self::decode_grp1_b(context, opcode, is),
            0x81 => Self::decode_grp1_v(context, opcode, is),
            0x83 => Self::decode_grp1_sx(context, opcode, is),
            0x84 => Self::decode_mov_test_xchg(context, opcode, is),
            0x85 => Self::decode_mov_test_xchg(context, opcode, is),
            0x86 => Self::decode_mov_test_xchg(context, opcode, is),
            0x87 => Self::decode_mov_test_xchg(context, opcode, is),
            0x88 => Self::decode_mov_test_xchg(context, opcode, is),
            0x89 => Self::decode_mov_test_xchg(context, opcode, is),
            0x8a => Self::decode_mov_test_xchg(context, opcode, is),
            0x8b => Self::decode_mov_test_xchg(context, opcode, is),
            0x8c => {
                // MOV r/m16/32, Sreg
                match context.modrm_rv(is)? {
                    SizedOperand::Word(ModRmOperand::Reg(m, r)) => Ok({
                            if let Some(sr) = SrIndex::from_u8(r.to_u8()) {
                                IrOp::MOV_Rw_Sr(m, sr)
                            } else {
                                IrOp::UD
                            }
                        }),
                    SizedOperand::Word(ModRmOperand::Mem16(m, r)) => Ok({
                            if let Some(sr) = SrIndex::from_u8(r.to_u8()) {
                                IrOp::MOV_MwA16_Sr(m, sr)
                            } else {
                                IrOp::UD
                            }
                        }),
                    SizedOperand::Word(ModRmOperand::Mem32(m, r)) => Ok({
                            if let Some(sr) = SrIndex::from_u8(r.to_u8()) {
                                IrOp::MOV_MwA32_Sr(m, sr)
                            } else {
                                IrOp::UD
                            }
                        }),
                    SizedOperand::Dword(ModRmOperand::Reg(m, r)) => Ok({
                            if let Some(sr) = SrIndex::from_u8(r.to_u8()) {
                                IrOp::MOV_Rd_Sr(m, sr)
                            } else {
                                IrOp::UD
                            }
                        }),
                    SizedOperand::Dword(ModRmOperand::Mem16(m, r)) => Ok({
                            if let Some(sr) = SrIndex::from_u8(r.to_u8()) {
                                IrOp::MOV_MdA16_Sr(m, sr)
                            } else {
                                IrOp::UD
                            }
                        }),
                    SizedOperand::Dword(ModRmOperand::Mem32(m, r)) => Ok({
                            if let Some(sr) = SrIndex::from_u8(r.to_u8()) {
                                IrOp::MOV_MdA32_Sr(m, sr)
                            } else {
                                IrOp::UD
                            }
                        }),
                }
            }
            0x8d => Self::decode_lea(context, opcode, is),
            0x8e => {
                // MOV Sreg, r/m16/32
                match context.modrm_rv(is)? {
                    SizedOperand::Word(ModRmOperand::Reg(m, r)) => Ok({
                            if let Some(sr) = SrIndex::from_u8(r.to_u8()) {
                                IrOp::MOV_Sr_Rw(sr, m)
                            } else {
                                IrOp::UD
                            }
                        }),
                    SizedOperand::Word(ModRmOperand::Mem16(m, r)) => Ok({
                            if let Some(sr) = SrIndex::from_u8(r.to_u8()) {
                                IrOp::MOV_Sr_MwA16(sr, m)
                            } else {
                                IrOp::UD
                            }
                        }),
                    SizedOperand::Word(ModRmOperand::Mem32(m, r)) => Ok({
                            if let Some(sr) = SrIndex::from_u8(r.to_u8()) {
                                IrOp::MOV_Sr_MwA32(sr, m)
                            } else {
                                IrOp::UD
                            }
                        }),
                    SizedOperand::Dword(ModRmOperand::Reg(m, r)) => Ok({
                            if let Some(sr) = SrIndex::from_u8(r.to_u8()) {
                                IrOp::MOV_Sr_Rd(sr, m)
                            } else {
                                IrOp::UD
                            }
                        }),
                    SizedOperand::Dword(ModRmOperand::Mem16(m, r)) => Ok({
                            if let Some(sr) = SrIndex::from_u8(r.to_u8()) {
                                IrOp::MOV_Sr_MdA16(sr, m)
                            } else {
                                IrOp::UD
                            }
                        }),
                    SizedOperand::Dword(ModRmOperand::Mem32(m, r)) => Ok({
                            if let Some(sr) = SrIndex::from_u8(r.to_u8()) {
                                IrOp::MOV_Sr_MdA32(sr, m)
                            } else {
                                IrOp::UD
                            }
                        }),
                }
            }
            0x8f => Self::decode_pop_rm(context, opcode, is),
            0x90 => {
                // NOP/PAUSE
                if matches!(context.prefix_fx, PrefixFx::F3_REPZ) {
                    Ok(IrOp::PAUSE)
                } else {
                    Ok(IrOp::NOP)
                }
            }
            0x91..=0x97 => {
                // XCHG reg16/32, AX/EAX
                let reg_index = GprIndex32::from_u8(opcode);
                if context.is_opsize32 {
                    Ok(IrOp::XCHG_Rd_Rd(EAX, reg_index))
                } else {
                    Ok(IrOp::XCHG_Rw_Rw(AX, reg_index.downgrade()))
                }
            }
            0x98 => {
                // CBW/CWDE
                if context.is_opsize32 {
                    Ok(IrOp::MOVSX_Rd_Rw(EAX, AX))
                } else {
                    Ok(IrOp::MOVSX_Rw_Rb(AX, AL))
                }
            }
            0x99 => {
                // CWD/CDQ
                if context.is_opsize32 {
                    Ok(IrOp::CDQ)
                } else {
                    Ok(IrOp::CWD)
                }
            }
            0x9a => {
                // CALL ptr16:16/32
                let offset = if context.is_opsize32 {
                    is.fetch_u32()?
                } else {
                    is.fetch_u16()? as u32
                };
                let segment = is.fetch_u16()?;
                Ok(IrOp::CALLF_Ap(SegmentSelector(segment), Offset32(offset)))
            }
            0x9b => {
                // FWAIT/WAIT
                Ok(IrOp::WAIT)
            }
            0x9c => {
                // PUSHF/PUSHFD
                if context.is_opsize32 {
                    Ok(IrOp::PUSHFD)
                } else {
                    Ok(IrOp::PUSHF)
                }
            }
            0x9d => {
                // POPF/POPFD
                if context.is_opsize32 {
                    Ok(IrOp::POPFD)
                } else {
                    Ok(IrOp::POPF)
                }
            }
            0x9e => {
                // SAHF
                Ok(IrOp::SAHF)
            }
            0x9f => {
                // LAHF
                Ok(IrOp::LAHF)
            }
            _ => Ok(IrOp::UD),
        }
    }

    fn decode_a0_bf<FETCH: Fetch<E = E>, E>(context: &DecoderContext, opcode: u8, is: &mut FETCH) -> (r: Result<IrOp, E>)
        ensures
            0xa0 <= opcode <= 0xa3 && old(is).reliable() ==> if old(is).stream().len() >= moffs_size(*context) {
                &&& r matches Ok(ir) && moffs_result(*context, opcode, old(is).stream(), ir)
                &&& final(is).stream() == old(is).stream().skip(moffs_size(*context) as int)
            } else {
                r is Err
            },
            read_on(*old(is), *final(is), r is Err),
            final(is).reliable() == old(is).reliable(),
            r is Ok ==> final(is).stream().len() <= old(is).stream().len(),
            0xa0 <= opcode < 0xc0 && operandless(*context, opcode) is Some
                ==> r == Ok::<IrOp, E>(operandless(*context, opcode)->0) && *final(is) == *old(is),
            0xa0 <= opcode < 0xc0 && imm_size(*context, opcode) > 0 && old(is).reliable() ==> if old(is).stream().len() >= imm_size(*context, opcode) {
                &&& r matches Ok(ir) && imm_result(*context, opcode, old(is).stream(), old(is).eip(), ir)
                &&& final(is).stream() == old(is).stream().skip(imm_size(*context, opcode) as int)
            } else {
                r is Err
            },
    {
        match opcode {
            0xa0 => {
                // MOV AL, moffs8
                if context.is_addr32 {
                    let offset = Offset32(is.fetch_u32()?);
                    Ok(IrOp::MOV_Rb_MbA32(
                        AL,
                        MemOpr32::from_sel_off(context.segment_override.unwrap_or(DS), offset),
                    ))
                } else {
                    let offset = Offset16(is.fetch_u16()?);
                    Ok(IrOp::MOV_Rb_MbA16(
                        AL,
                        MemOpr16::from_sel_off(context.segment_override.unwrap_or(DS), offset),
                    ))
                }
            }
            0xa1 => {
                // MOV AX/EAX, moffs8
                if context.is_addr32 {
                    let offset = Offset32(is.fetch_u32()?);
                    let memopr =
                        MemOpr32::from_sel_off(context.segment_override.unwrap_or(DS), offset);
                    if context.is_opsize32 {
                        Ok(IrOp::MOV_Rd_MdA32(EAX, memopr))
                    } else {
                        Ok(IrOp::MOV_Rw_MwA32(AX, memopr))
                    }
                } else {
                    let offset = Offset16(is.fetch_u16()?);
                    let memopr =
                        MemOpr16::from_sel_off(context.segment_override.unwrap_or(DS), offset);
                    if context.is_opsize32 {
                        Ok(IrOp::MOV_Rd_MdA16(EAX, memopr))
                    } else {
                        Ok(IrOp::MOV_Rw_MwA16(AX, memopr))
                    }
                }
            }
            0xa2 => {
                // MOV moffs8, AL
                if context.is_addr32 {
                    let offset = Offset32(is.fetch_u32()?);
                    Ok(IrOp::MOV_MbA32_Rb(
                        MemOpr32::from_sel_off(context.segment_override.unwrap_or(DS), offset),
                        AL,
                    ))
                } else {
                    let offset = Offset16(is.fetch_u16()?);
                    Ok(IrOp::MOV_MbA16_Rb(
                        MemOpr16::from_sel_off(context.segment_override.unwrap_or(DS), offset),
                        AL,
                    ))
                }
            }
            0xa3 => {
                // MOV moffs8, AX/EAX
                if context.is_addr32 {
                    let offset = Offset32(is.fetch_u32()?);
                    let memopr =
                        MemOpr32::from_sel_off(context.segment_override.unwrap_or(DS), offset);
                    if context.is_opsize32 {
                        Ok(IrOp::MOV_MdA32_Rd(memopr, EAX))
                    } else {
                        Ok(IrOp::MOV_MwA32_Rw(memopr, AX))
                    }
                } else {
                    let offset = Offset16(is.fetch_u16()?);
                    let memopr =
                        MemOpr16::from_sel_off(context.segment_override.unwrap_or(DS), offset);
                    if context.is_opsize32 {
                        Ok(IrOp::MOV_MdA16_Rd(memopr, EAX))
                    } else {
                        Ok(IrOp::MOV_MwA16_Rw(memopr, AX))
                    }
                }
            }
            0xa4 => {
                // MOVSB
                match context.prefix_fx {
                    PrefixFx::NP => Ok(IrOp::MOVSB(
                        context.segment_override.unwrap_or(SrIndex::DS),
                        context.is_addr32,
                    )),
                    PrefixFx::F2_REPNZ | PrefixFx::F3_REPZ => Ok(IrOp::REP_MOVSB(
                        context.segment_override.unwrap_or(SrIndex::DS),
                        context.is_addr32,
                    )),
                    PrefixFx::F0_LOCK => Ok(IrOp::UD),
                }
            }
            0xa5 => {
                // MOVSW/MOVSD
                if context.is_opsize32 {
                    match context.prefix_fx {
                        PrefixFx::NP => Ok(IrOp::MOVSD(
                            context.segment_override.unwrap_or(SrIndex::DS),
                            context.is_addr32,
                        )),
                        PrefixFx::F2_REPNZ | PrefixFx::F3_REPZ => Ok(IrOp::REP_MOVSD(
                            context.segment_override.unwrap_or(SrIndex::DS),
                            context.is_addr32,
                        )),
                        PrefixFx::F0_LOCK => Ok(IrOp::UD),
                    }
                } else {
                    match context.prefix_fx {
                        PrefixFx::NP => Ok(IrOp::MOVSW(
                            context.segment_override.unwrap_or(SrIndex::DS),
                            context.is_addr32,
                        )),
                        PrefixFx::F2_REPNZ | PrefixFx::F3_REPZ => Ok(IrOp::REP_MOVSW(
                            context.segment_override.unwrap_or(SrIndex::DS),
                            context.is_addr32,
                        )),
                        PrefixFx::F0_LOCK => Ok(IrOp::UD),
                    }
                }
            }
            0xa6 => {
                // CMPSB
                match context.prefix_fx {
                    PrefixFx::NP => Ok(IrOp::CMPSB(
                        context.segment_override.unwrap_or(SrIndex::DS),
                        context.is_addr32,
                    )),
                    PrefixFx::F2_REPNZ => Ok(IrOp::REPNZ_CMPSB(
                        context.segment_override.unwrap_or(SrIndex::DS),
                        context.is_addr32,
                    )),
                    PrefixFx::F3_REPZ => Ok(IrOp::REPZ_CMPSB(
                        context.segment_override.unwrap_or(SrIndex::DS),
                        context.is_addr32,
                    )),
                    PrefixFx::F0_LOCK => Ok(IrOp::UD),
                }
            }
            0xa7 => {
                // CMPSW/CMPSD
                if context.is_opsize32 {
                    match context.prefix_fx {
                        PrefixFx::NP => Ok(IrOp::CMPSD(
                            context.segment_override.unwrap_or(SrIndex::DS),
                            context.is_addr32,
                        )),
                        PrefixFx::F2_REPNZ => Ok(IrOp::REPNZ_CMPSD(
                            context.segment_override.unwrap_or(SrIndex::DS),
                            context.is_addr32,
                        )),
                        PrefixFx::F3_REPZ => Ok(IrOp::REPZ_CMPSD(
                            context.segment_override.unwrap_or(SrIndex::DS),
                            context.is_addr32,
                        )),
                        PrefixFx::F0_LOCK => Ok(IrOp::UD),
                    }
                } else {
                    match context.prefix_fx {
                        PrefixFx::NP => Ok(IrOp::CMPSW(
                            context.segment_override.unwrap_or(SrIndex::DS),
                            context.is_addr32,
                        )),
                        PrefixFx::F2_REPNZ => Ok(IrOp::REPNZ_CMPSW(
                            context.segment_override.unwrap_or(SrIndex::DS),
                            context.is_addr32,
                        )),
                        PrefixFx::F3_REPZ => Ok(IrOp::REPZ_CMPSW(
                            context.segment_override.unwrap_or(SrIndex::DS),
                            context.is_addr32,
                        )),
                        PrefixFx::F0_LOCK => Ok(IrOp::UD),
                    }
                }
            }
            0xa8 => {
                // TEST AL, imm8
                let imm = is.fetch_u8()?;
                Ok(IrOp::TEST_Rb_Ib(AL, imm))
            }
            0xa9 => {
                // TEST AX/EAX, imm16/32
                if context.is_opsize32 {
                    let imm = is.fetch_u32()?;
                    Ok(IrOp::TEST_Rd_Id(EAX, imm))
                } else {
                    let imm = is.fetch_u16()?;
                    Ok(IrOp::TEST_Rw_Iw(AX, imm))
                }
            }
            0xaa => {
                // STOSB
                match context.prefix_fx {
                    PrefixFx::NP => Ok(IrOp::STOSB(SrIndex::ES, context.is_addr32)),
                    PrefixFx::F2_REPNZ | PrefixFx::F3_REPZ => {
                        Ok(IrOp::REP_STOSB(SrIndex::ES, context.is_addr32))
                    }
                    PrefixFx::F0_LOCK => Ok(IrOp::UD),
                }
            }
            0xab => {
                // STOSW/STOSD
                if context.is_opsize32 {
                    match context.prefix_fx {
                        PrefixFx::NP => Ok(IrOp::STOSD(SrIndex::ES, context.is_addr32)),
                        PrefixFx::F2_REPNZ | PrefixFx::F3_REPZ => {
                            Ok(IrOp::REP_STOSD(SrIndex::ES, context.is_addr32))
                        }
                        PrefixFx::F0_LOCK => Ok(IrOp::UD),
                    }
                } else {
                    match context.prefix_fx {
                        PrefixFx::NP => Ok(IrOp::STOSW(SrIndex::ES, context.is_addr32)),
                        PrefixFx::F2_REPNZ | PrefixFx::F3_REPZ => {
                            Ok(IrOp::REP_STOSW(SrIndex::ES, context.is_addr32))
                        }
                        PrefixFx::F0_LOCK => Ok(IrOp::UD),
                    }
                }
            }
            0xac => {
                // LODSB
                match context.prefix_fx {
                    PrefixFx::NP => Ok(IrOp::LODSB(
                        context.segment_override.unwrap_or(SrIndex::DS),
                        context.is_addr32,
                    )),
                    PrefixFx::F2_REPNZ | PrefixFx::F3_REPZ => Ok(IrOp::REP_LODSB(
                        context.segment_override.unwrap_or(SrIndex::DS),
                        context.is_addr32,
                    )),
                    PrefixFx::F0_LOCK => Ok(IrOp::UD),
                }
            }
            0xad => {
                // LODSW/LODSD
                if context.is_opsize32 {
                    match context.prefix_fx {
                        PrefixFx::NP => Ok(IrOp::LODSD(
                            context.segment_override.unwrap_or(SrIndex::DS),
                            context.is_addr32,
                        )),
                        PrefixFx::F2_REPNZ | PrefixFx::F3_REPZ => Ok(IrOp::REP_LODSD(
                            context.segment_override.unwrap_or(SrIndex::DS),
                            context.is_addr32,
                        )),
                        PrefixFx::F0_LOCK => Ok(IrOp::UD),
                    }
                } else {
                    match context.prefix_fx {
                        PrefixFx::NP => Ok(IrOp::LODSW(
                            context.segment_override.unwrap_or(SrIndex::DS),
                            context.is_addr32,
                        )),
                        PrefixFx::F2_REPNZ | PrefixFx::F3_REPZ => Ok(IrOp::REP_LODSW(
                            context.segment_override.unwrap_or(SrIndex::DS),
                            context.is_addr32,
                        )),
                        PrefixFx::F0_LOCK => Ok(IrOp::UD),
                    }
                }
            }
            0xae => {
                // SCASB
                match context.prefix_fx {
                    PrefixFx::NP => Ok(IrOp::SCASB(ES, context.is_addr32)),
                    PrefixFx::F2_REPNZ => Ok(IrOp::REPNZ_SCASB(ES, context.is_addr32)),
                    PrefixFx::F3_REPZ => Ok(IrOp::REPZ_SCASB(ES, context.is_addr32)),
                    PrefixFx::F0_LOCK => Ok(IrOp::UD),
                }
            }
            0xaf => {
                // SCASW/SCASD
                if context.is_opsize32 {
                    match context.prefix_fx {
                        PrefixFx::NP => Ok(IrOp::SCASD(ES, context.is_addr32)),
                        PrefixFx::F2_REPNZ => Ok(IrOp::REPNZ_SCASD(ES, context.is_addr32)),
                        PrefixFx::F3_REPZ => Ok(IrOp::REPZ_SCASD(ES, context.is_addr32)),
                        PrefixFx::F0_LOCK => Ok(IrOp::UD),
                    }
                } else {
                    match context.prefix_fx {
                        PrefixFx::NP => Ok(IrOp::SCASW(ES, context.is_addr32)),
                        PrefixFx::F2_REPNZ => Ok(IrOp::REPNZ_SCASW(ES, context.is_addr32)),
                        PrefixFx::F3_REPZ => Ok(IrOp::REPZ_SCASW(ES, context.is_addr32)),
                        PrefixFx::F0_LOCK => Ok(IrOp::UD),
                    }
                }
            }
            0xb0..=0xb7 => {
                // MOV reg8, imm8
                let reg_index = GprIndex8::from_u8(opcode);
                let imm = is.fetch_u8()?;
                Ok(IrOp::MOV_Rb_Ib(reg_index, imm))
            }
            0xb8..=0xbf => {
                // MOV reg16/32, imm16/32
                if context.is_opsize32 {
                    let reg_index = GprIndex32::from_u8(opcode);
                    let imm = is.fetch_u32()?;
                    Ok(IrOp::MOV_Rd_Id(reg_index, imm))
                } else {
                    let reg_index = GprIndex16::from_u8(opcode);
                    let imm = is.fetch_u16()?;
                    Ok(IrOp::MOV_Rw_Iw(reg_index, imm))
                }
            }
            _ => Ok(IrOp::UD),
        }
    }

    /// Decodes the moves of an immediate to a ModR/M operand.
    #[verifier::spinoff_prover]
    #[verifier::rlimit(100)]
    fn decode_mov_imm<FETCH: Fetch<E = E>, E>(context: &DecoderContext, opcode: u8, is: &mut FETCH) -> (r: Result<IrOp, E>)
        requires
            opcode == 0xc6 || opcode == 0xc7,
        ensures
            read_on(*old(is), *final(is), r is Err),
            final(is).reliable() == old(is).reliable(),
            r is Ok ==> final(is).stream().len() <= old(is).stream().len(),
            ({
                let s = old(is).stream();
                &&& old(is).reliable() ==> (r is Ok <==> match context.spec_operand(s) {
                    Some((o, n)) => n + mov_imm_len(context.is_opsize32, opcode, o) <= s.len(),
                    None => false,
                })
                &&& r is Ok ==> {
                    let (o, n) = context.spec_operand(s)->0;
                    &&& context.spec_operand(s) is Some
                    &&& n + mov_imm_len(context.is_opsize32, opcode, o) <= s.len()
                    &&& mov_imm_rel(context.is_opsize32, opcode, o, s.skip(n as int), r->Ok_0)
                    &&& final(is).stream() == s.skip((n + mov_imm_len(context.is_opsize32, opcode, o)) as int)
                }
            }),
    {
        match opcode {
            0xc6 => {
                // MOV r/m8, imm8
                let ghost s = is.stream();
                let operand = context.modrm_rb_sub3(is)?;
                proof {
                    let (o, n) = context.spec_operand(s)->0;
                    if n + 1 <= s.len() {
                        assert(s.skip(n as int).drop_first() =~= s.skip(n + 1int));
                    }
                    if n + 2 <= s.len() {
                        assert(s.skip(n as int).skip(2) =~= s.skip(n + 2int));
                    }
                    if n + 4 <= s.len() {
                        assert(s.skip(n as int).skip(4) =~= s.skip(n + 4int));
                    }
                    if n <= s.len() {
                        assert(s.skip(n as int).skip(0) =~= s.skip(n as int));
                    }
                }
                match operand {
                    ModRmOperand::Reg(d, c) => match c {
                            Index3::I000 => {
                                let imm = is.fetch_u8()?;
                                Ok(IrOp::MOV_Rb_Ib(d, imm))
                            }
                            _ => Ok(IrOp::UD),
                        },
                    ModRmOperand::Mem16(d, c) => match c {
                            Index3::I000 => {
                                let imm = is.fetch_u8()?;
                                Ok(IrOp::MOV_MbA16_Ib(d, imm))
                            }
                            _ => Ok(IrOp::UD),
                        },
                    ModRmOperand::Mem32(d, c) => match c {
                            Index3::I000 => {
                                let imm = is.fetch_u8()?;
                                Ok(IrOp::MOV_MbA32_Ib(d, imm))
                            }
                            _ => Ok(IrOp::UD),
                        },
                }
            }
            0xc7 => {
                // MOV r/m16/32, imm16/32
                let ghost s = is.stream();
                let operand = context.modrm_rv_sub3(is)?;
                proof {
                    let (o, n) = context.spec_operand(s)->0;
                    if n + 1 <= s.len() {
                        assert(s.skip(n as int).drop_first() =~= s.skip(n + 1int));
                    }
                    if n + 2 <= s.len() {
                        assert(s.skip(n as int).skip(2) =~= s.skip(n + 2int));
                    }
                    if n + 4 <= s.len() {
                        assert(s.skip(n as int).skip(4) =~= s.skip(n + 4int));
                    }
                    if n <= s.len() {
                        assert(s.skip(n as int).skip(0) =~= s.skip(n as int));
                    }
                }
                match operand {
                    SizedOperand::Word(ModRmOperand::Reg(d, c)) => match c {
                            Index3::I000 => {
                                let imm = is.fetch_u16()?;
                                Ok(IrOp::MOV_Rw_Iw(d, imm))
                            }
                            _ => Ok(IrOp::UD),
                        },
                    SizedOperand::Word(ModRmOperand::Mem16(d, _c)) => {
                            let imm = is.fetch_u16()?;
                            Ok(IrOp::MOV_MwA16_Iw(d, imm))
                        },
                    SizedOperand::Word(ModRmOperand::Mem32(d, _c)) => {
                            let imm = is.fetch_u16()?;
                            Ok(IrOp::MOV_MwA32_Iw(d, imm))
                        },
                    SizedOperand::Dword(ModRmOperand::Reg(d, _c)) => {
                            let imm = is.fetch_u32()?;
                            Ok(IrOp::MOV_Rd_Id(d, imm))
                        },
                    SizedOperand::Dword(ModRmOperand::Mem16(d, _c)) => {
                            let imm = is.fetch_u32()?;
                            Ok(IrOp::MOV_MdA16_Id(d, imm))
                        },
                    SizedOperand::Dword(ModRmOperand::Mem32(d, _c)) => {
                            let imm = is.fetch_u32()?;
                            Ok(IrOp::MOV_MdA32_Id(d, imm))
                        },
                }
            }
            _ => Ok(IrOp::UD),
        }
    }

    /// Decodes the shifts and rotations of opcode 0xc0.
    #[verifier::spinoff_prover]
    #[verifier::rlimit(100)]
    fn decode_shift_c0<FETCH: Fetch<E = E>, E>(context: &DecoderContext, opcode: u8, is: &mut FETCH) -> (r: Result<IrOp, E>)
        requires
            opcode == 0xc0,
        ensures
            read_on(*old(is), *final(is), r is Err),
            final(is).reliable() == old(is).reliable(),
            r is Ok ==> final(is).stream().len() <= old(is).stream().len(),
            ({
                let s = old(is).stream();
                &&& old(is).reliable() ==> (r is Ok <==> match context.spec_operand(s) {
                    Some((o, n)) => n + shift_imm_len(context.is_opsize32, opcode, o) <= s.len(),
                    None => false,
                })
                &&& r is Ok ==> {
                    let (o, n) = context.spec_operand(s)->0;
                    &&& context.spec_operand(s) is Some
                    &&& n + shift_imm_len(context.is_opsize32, opcode, o) <= s.len()
                    &&& shift_rel(context.is_opsize32, opcode, o, s.skip(n as int), r->Ok_0)
                    &&& final(is).stream() == s.skip((n + shift_imm_len(context.is_opsize32, opcode, o)) as int)
                }
            }),
    {
        match opcode {
            0xc0 => {
                // Grp2 r/m8, imm8 (shift/rotate)
                let ghost s = is.stream();
                let operand = context.modrm_rb_sub3(is)?;
                proof {
                    let (o, n) = context.spec_operand(s)->0;
                    if n + 1 <= s.len() {
                        assert(s.skip(n as int).drop_first() =~= s.skip(n + 1int));
                    }
                    if n + 2 <= s.len() {
                        assert(s.skip(n as int).skip(2) =~= s.skip(n + 2int));
                    }
                    if n + 4 <= s.len() {
                        assert(s.skip(n as int).skip(4) =~= s.skip(n + 4int));
                    }
                    if n <= s.len() {
                        assert(s.skip(n as int).skip(0) =~= s.skip(n as int));
                    }
                }
                match operand {
                    ModRmOperand::Reg(s, c) => {
                            let imm = is.fetch_u8()?;
                            let opx = OpShift::from_idx3(c);
                            match opx {
                                OpShift::ROL => Ok(IrOp::ROL_Rb_Ib(s, imm)),
                                OpShift::ROR => Ok(IrOp::ROR_Rb_Ib(s, imm)),
                                OpShift::RCL => Ok(IrOp::RCL_Rb_Ib(s, imm)),
                                OpShift::RCR => Ok(IrOp::RCR_Rb_Ib(s, imm)),
                                OpShift::_SAL | OpShift::SHL => Ok(IrOp::SHL_Rb_Ib(s, imm)),
                                OpShift::SHR => Ok(IrOp::SHR_Rb_Ib(s, imm)),
                                OpShift::SAR => Ok(IrOp::SAR_Rb_Ib(s, imm)),
                            }
                        },
                    ModRmOperand::Mem16(s, c) => {
                            let imm = is.fetch_u8()?;
                            let opx = OpShift::from_idx3(c);
                            match opx {
                                OpShift::ROL => Ok(IrOp::ROL_MbA16_Ib(s, imm)),
                                OpShift::ROR => Ok(IrOp::ROR_MbA16_Ib(s, imm)),
                                OpShift::RCL => Ok(IrOp::RCL_MbA16_Ib(s, imm)),
                                OpShift::RCR => Ok(IrOp::RCR_MbA16_Ib(s, imm)),
                                OpShift::_SAL | OpShift::SHL => Ok(IrOp::SHL_MbA16_Ib(s, imm)),
                                OpShift::SHR => Ok(IrOp::SHR_MbA16_Ib(s, imm)),
                                OpShift::SAR => Ok(IrOp::SAR_MbA16_Ib(s, imm)),
                            }
                        },
                    ModRmOperand::Mem32(s, c) => {
                            let imm = is.fetch_u8()?;
                            let opx = OpShift::from_idx3(c);
                            match opx {
                                OpShift::ROL => Ok(IrOp::ROL_MbA32_Ib(s, imm)),
                                OpShift::ROR => Ok(IrOp::ROR_MbA32_Ib(s, imm)),
                                OpShift::RCL => Ok(IrOp::RCL_MbA32_Ib(s, imm)),
                                OpShift::RCR => Ok(IrOp::RCR_MbA32_Ib(s, imm)),
                                OpShift::_SAL | OpShift::SHL => Ok(IrOp::SHL_MbA32_Ib(s, imm)),
                                OpShift::SHR => Ok(IrOp::SHR_MbA32_Ib(s, imm)),
                                OpShift::SAR => Ok(IrOp::SAR_MbA32_Ib(s, imm)),
                            }
                        },
                }
            }
            _ => Ok(IrOp::UD),
        }
    }

    /// Decodes the shifts and rotations of opcode 0xc1.
    #[verifier::spinoff_prover]
    #[verifier::rlimit(100)]
    fn decode_shift_c1<FETCH: Fetch<E = E>, E>(context: &DecoderContext, opcode: u8, is: &mut FETCH) -> (r: Result<IrOp, E>)
        requires
            opcode == 0xc1,
        ensures
            read_on(*old(is), *final(is), r is Err),
            final(is).reliable() == old(is).reliable(),
            r is Ok ==> final(is).stream().len() <= old(is).stream().len(),
            ({
                let s = old(is).stream();
                &&& old(is).reliable() ==> (r is Ok <==> match context.spec_operand(s) {
                    Some((o, n)) => n + shift_imm_len(context.is_opsize32, opcode, o) <= s.len(),
                    None => false,
                })
                &&& r is Ok ==> {
                    let (o, n) = context.spec_operand(s)->0;
                    &&& context.spec_operand(s) is Some
                    &&& n + shift_imm_len(context.is_opsize32, opcode, o) <= s.len()
                    &&& shift_rel(context.is_opsize32, opcode, o, s.skip(n as int), r->Ok_0)
                    &&& final(is).stream() == s.skip((n + shift_imm_len(context.is_opsize32, opcode, o)) as int)
                }
            }),
    {
        match opcode {
            0xc1 => {
                // Grp2 r/m16/32, imm8 (shift/rotate)
                let ghost s = is.stream();
                let operand = context.modrm_rv_sub3(is)?;
                proof {
                    let (o, n) = context.spec_operand(s)->0;
                    if n + 1 <= s.len() {
                        assert(s.skip(n as int).drop_first() =~= s.skip(n + 1int));
                    }
                    if n + 2 <= s.len() {
                        assert(s.skip(n as int).skip(2) =~= s.skip(n + 2int));
                    }
                    if n + 4 <= s.len() {
                        assert(s.skip(n as int).skip(4) =~= s.skip(n + 4int));
                    }
                    if n <= s.len() {
                        assert(s.skip(n as int).skip(0) =~= s.skip(n as int));
                    }
                }
                match operand {
                    SizedOperand::Word(ModRmOperand::Reg(s, c)) => {
                            let imm = is.fetch_u8()?;
                            let opx = OpShift::from_idx3(c);
                            match opx {
                                OpShift::ROL => Ok(IrOp::ROL_Rw_Ib(s, imm)),
                                OpShift::ROR => Ok(IrOp::ROR_Rw_Ib(s, imm)),
                                OpShift::RCL => Ok(IrOp::RCL_Rw_Ib(s, imm)),
                                OpShift::RCR => Ok(IrOp::RCR_Rw_Ib(s, imm)),
                                OpShift::_SAL | OpShift::SHL => Ok(IrOp::SHL_Rw_Ib(s, imm)),
                                OpShift::SHR => Ok(IrOp::SHR_Rw_Ib(s, imm)),
                                OpShift::SAR => Ok(IrOp::SAR_Rw_Ib(s, imm)),
                            }
                        },
                    SizedOperand::Word(ModRmOperand::Mem16(s, c)) => {
                            let imm = is.fetch_u8()?;
                            let opx = OpShift::from_idx3(c);
                            match opx {
                                OpShift::ROL => Ok(IrOp::ROL_MwA16_Ib(s, imm)),
                                OpShift::ROR => Ok(IrOp::ROR_MwA16_Ib(s, imm)),
                                OpShift::RCL => Ok(IrOp::RCL_MwA16_Ib(s, imm)),
                                OpShift::RCR => Ok(IrOp::RCR_MwA16_Ib(s, imm)),
                                OpShift::_SAL | OpShift::SHL => Ok(IrOp::SHL_MwA16_Ib(s, imm)),
                                OpShift::SHR => Ok(IrOp::SHR_MwA16_Ib(s, imm)),
                                OpShift::SAR => Ok(IrOp::SAR_MwA16_Ib(s, imm)),
                            }
                        },
                    SizedOperand::Word(ModRmOperand::Mem32(s, c)) => {
                            let imm = is.fetch_u8()?;
                            let opx = OpShift::from_idx3(c);
                            match opx {
                                OpShift::ROL => Ok(IrOp::ROL_MwA32_Ib(s, imm)),
                                OpShift::ROR => Ok(IrOp::ROR_MwA32_Ib(s, imm)),
                                OpShift::RCL => Ok(IrOp::RCL_MwA32_Ib(s, imm)),
                                OpShift::RCR => Ok(IrOp::RCR_MwA32_Ib(s, imm)),
                                OpShift::_SAL | OpShift::SHL => Ok(IrOp::SHL_MwA32_Ib(s, imm)),
                                OpShift::SHR => Ok(IrOp::SHR_MwA32_Ib(s, imm)),
                                OpShift::SAR => Ok(IrOp::SAR_MwA32_Ib(s, imm)),
                            }
                        },
                    SizedOperand::Dword(ModRmOperand::Reg(s, c)) => {
                            let imm = is.fetch_u8()?;
                            let opx = OpShift::from_idx3(c);
                            match opx {
                                OpShift::ROL => Ok(IrOp::ROL_Rd_Ib(s, imm)),
                                OpShift::ROR => Ok(IrOp::ROR_Rd_Ib(s, imm)),
                                OpShift::RCL => Ok(IrOp::RCL_Rd_Ib(s, imm)),
                                OpShift::RCR => Ok(IrOp::RCR_Rd_Ib(s, imm)),
                                OpShift::_SAL | OpShift::SHL => Ok(IrOp::SHL_Rd_Ib(s, imm)),
                                OpShift::SHR => Ok(IrOp::SHR_Rd_Ib(s, imm)),
                                OpShift::SAR => Ok(IrOp::SAR_Rd_Ib(s, imm)),
                            }
                        },
                    SizedOperand::Dword(ModRmOperand::Mem16(s, c)) => {
                            let imm = is.fetch_u8()?;
                            let opx = OpShift::from_idx3(c);
                            match opx {
                                OpShift::ROL => Ok(IrOp::ROL_MdA16_Ib(s, imm)),
                                OpShift::ROR => Ok(IrOp::ROR_MdA16_Ib(s, imm)),
                                OpShift::RCL => Ok(IrOp::RCL_MdA16_Ib(s, imm)),
                                OpShift::RCR => Ok(IrOp::RCR_MdA16_Ib(s, imm)),
                                OpShift::_SAL | OpShift::SHL => Ok(IrOp::SHL_MdA16_Ib(s, imm)),
                                OpShift::SHR => Ok(IrOp::SHR_MdA16_Ib(s, imm)),
                                OpShift::SAR => Ok(IrOp::SAR_MdA16_Ib(s, imm)),
                            }
                        },
                    SizedOperand::Dword(ModRmOperand::Mem32(s, c)) => {
                            let imm = is.fetch_u8()?;
                            let opx = OpShift::from_idx3(c);
                            match opx {
                                OpShift::ROL => Ok(IrOp::ROL_MdA32_Ib(s, imm)),
                                OpShift::ROR => Ok(IrOp::ROR_MdA32_Ib(s, imm)),
                                OpShift::RCL => Ok(IrOp::RCL_MdA32_Ib(s, imm)),
                                OpShift::RCR => Ok(IrOp::RCR_MdA32_Ib(s, imm)),
                                OpShift::_SAL | OpShift::SHL => Ok(IrOp::SHL_MdA32_Ib(s, imm)),
                                OpShift::SHR => Ok(IrOp::SHR_MdA32_Ib(s, imm)),
                                OpShift::SAR => Ok(IrOp::SAR_MdA32_Ib(s, imm)),
                            }
                        },
                }
            }
            _ => Ok(IrOp::UD),
        }
    }

    /// Decodes the shifts and rotations of opcode 0xd0.
    #[verifier::spinoff_prover]
    #[verifier::rlimit(100)]
    fn decode_shift_d0<FETCH: Fetch<E = E>, E>(context: &DecoderContext, opcode: u8, is: &mut FETCH) -> (r: Result<IrOp, E>)
        requires
            opcode == 0xd0,
        ensures
            read_on(*old(is), *final(is), r is Err),
            final(is).reliable() == old(is).reliable(),
            r is Ok ==> final(is).stream().len() <= old(is).stream().len(),
            ({
                let s = old(is).stream();
                &&& old(is).reliable() ==> (r is Ok <==> match context.spec_operand(s) {
                    Some((o, n)) => n + shift_imm_len(context.is_opsize32, opcode, o) <= s.len(),
                    None => false,
                })
                &&& r is Ok ==> {
                    let (o, n) = context.spec_operand(s)->0;
                    &&& context.spec_operand(s) is Some
                    &&& n + shift_imm_len(context.is_opsize32, opcode, o) <= s.len()
                    &&& shift_rel(context.is_opsize32, opcode, o, s.skip(n as int), r->Ok_0)
                    &&& final(is).stream() == s.skip((n + shift_imm_len(context.is_opsize32, opcode, o)) as int)
                }
            }),
    {
        match opcode {
            0xd0 => {
                // Grp2 r/m8, 1 (shift/rotate)
                let ghost s = is.stream();
                let operand = context.modrm_rb_sub3(is)?;
                proof {
                    let (o, n) = context.spec_operand(s)->0;
                    if n + 1 <= s.len() {
                        assert(s.skip(n as int).drop_first() =~= s.skip(n + 1int));
                    }
                    if n + 2 <= s.len() {
                        assert(s.skip(n as int).skip(2) =~= s.skip(n + 2int));
                    }
                    if n + 4 <= s.len() {
                        assert(s.skip(n as int).skip(4) =~= s.skip(n + 4int));
                    }
                    if n <= s.len() {
                        assert(s.skip(n as int).skip(0) =~= s.skip(n as int));
                    }
                }
                match operand {
                    ModRmOperand::Reg(s, c) => {
                            let opx = OpShift::from_idx3(c);
                            match opx {
                                OpShift::ROL => Ok(IrOp::ROL_Rb_Ib(s, 1)),
                                OpShift::ROR => Ok(IrOp::ROR_Rb_Ib(s, 1)),
                                OpShift::RCL => Ok(IrOp::RCL_Rb_Ib(s, 1)),
                                OpShift::RCR => Ok(IrOp::RCR_Rb_Ib(s, 1)),
                                OpShift::_SAL | OpShift::SHL => Ok(IrOp::SHL_Rb_Ib(s, 1)),
                                OpShift::SHR => Ok(IrOp::SHR_Rb_Ib(s, 1)),
                                OpShift::SAR => Ok(IrOp::SAR_Rb_Ib(s, 1)),
                            }
                        },
                    ModRmOperand::Mem16(s, c) => {
                            let opx = OpShift::from_idx3(c);
                            match opx {
                                OpShift::ROL => Ok(IrOp::ROL_MbA16_Ib(s, 1)),
                                OpShift::ROR => Ok(IrOp::ROR_MbA16_Ib(s, 1)),
                                OpShift::RCL => Ok(IrOp::RCL_MbA16_Ib(s, 1)),
                                OpShift::RCR => Ok(IrOp::RCR_MbA16_Ib(s, 1)),
                                OpShift::_SAL | OpShift::SHL => Ok(IrOp::SHL_MbA16_Ib(s, 1)),
                                OpShift::SHR => Ok(IrOp::SHR_MbA16_Ib(s, 1)),
                                OpShift::SAR => Ok(IrOp::SAR_MbA16_Ib(s, 1)),
                            }
                        },
                    ModRmOperand::Mem32(s, c) => {
                            let opx = OpShift::from_idx3(c);
                            match opx {
                                OpShift::ROL => Ok(IrOp::ROL_MbA32_Ib(s, 1)),
                                OpShift::ROR => Ok(IrOp::ROR_MbA32_Ib(s, 1)),
                                OpShift::RCL => Ok(IrOp::RCL_MbA32_Ib(s, 1)),
                                OpShift::RCR => Ok(IrOp::RCR_MbA32_Ib(s, 1)),
                                OpShift::_SAL | OpShift::SHL => Ok(IrOp::SHL_MbA32_Ib(s, 1)),
                                OpShift::SHR => Ok(IrOp::SHR_MbA32_Ib(s, 1)),
                                OpShift::SAR => Ok(IrOp::SAR_MbA32_Ib(s, 1)),
                            }
                        },
                }
            }
            _ => Ok(IrOp::UD),
        }
    }

    /// Decodes the shifts and rotations of opcode 0xd1.
    #[verifier::spinoff_prover]
    #[verifier::rlimit(100)]
    fn decode_shift_d1<FETCH: Fetch<E = E>, E>(context: &DecoderContext, opcode: u8, is: &mut FETCH) -> (r: Result<IrOp, E>)
        requires
            opcode == 0xd1,
        ensures
            read_on(*old(is), *final(is), r is Err),
            final(is).reliable() == old(is).reliable(),
            r is Ok ==> final(is).stream().len() <= old(is).stream().len(),
            ({
                let s = old(is).stream();
                &&& old(is).reliable() ==> (r is Ok <==> match context.spec_operand(s) {
                    Some((o, n)) => n + shift_imm_len(context.is_opsize32, opcode, o) <= s.len(),
                    None => false,
                })
                &&& r is Ok ==> {
                    let (o, n) = context.spec_operand(s)->0;
                    &&& context.spec_operand(s) is Some
                    &&& n + shift_imm_len(context.is_opsize32, opcode, o) <= s.len()
                    &&& shift_rel(context.is_opsize32, opcode, o, s.skip(n as int), r->Ok_0)
                    &&& final(is).stream() == s.skip((n + shift_imm_len(context.is_opsize32, opcode, o)) as int)
                }
            }),
    {
        match opcode {
            0xd1 => {
                // Grp2 r/m16/32, 1 (shift/rotate)
                let ghost s = is.stream();
                let operand = context.modrm_rv_sub3(is)?;
                proof {
                    let (o, n) = context.spec_operand(s)->0;
                    if n + 1 <= s.len() {
                        assert(s.skip(n as int).drop_first() =~= s.skip(n + 1int));
                    }
                    if n + 2 <= s.len() {
                        assert(s.skip(n as int).skip(2) =~= s.skip(n + 2int));
                    }
                    if n + 4 <= s.len() {
                        assert(s.skip(n as int).skip(4) =~= s.skip(n + 4int));
                    }
                    if n <= s.len() {
                        assert(s.skip(n as int).skip(0) =~= s.skip(n as int));
                    }
                }
                match operand {
                    SizedOperand::Word(ModRmOperand::Reg(s, c)) => {
                            let opx = OpShift::from_idx3(c);
                            match opx {
                                OpShift::ROL => Ok(IrOp::ROL_Rw_Ib(s, 1)),
                                OpShift::ROR => Ok(IrOp::ROR_Rw_Ib(s, 1)),
                                OpShift::RCL => Ok(IrOp::RCL_Rw_Ib(s, 1)),
                                OpShift::RCR => Ok(IrOp::RCR_Rw_Ib(s, 1)),
                                OpShift::_SAL | OpShift::SHL => Ok(IrOp::SHL_Rw_Ib(s, 1)),
                                OpShift::SHR => Ok(IrOp::SHR_Rw_Ib(s, 1)),
                                OpShift::SAR => Ok(IrOp::SAR_Rw_Ib(s, 1)),
                            }
                        },
                    SizedOperand::Word(ModRmOperand::Mem16(s, c)) => {
                            let opx = OpShift::from_idx3(c);
                            match opx {
                                OpShift::ROL => Ok(IrOp::ROL_MwA16_Ib(s, 1)),
                                OpShift::ROR => Ok(IrOp::ROR_MwA16_Ib(s, 1)),
                                OpShift::RCL => Ok(IrOp::RCL_MwA16_Ib(s, 1)),
                                OpShift::RCR => Ok(IrOp::RCR_MwA16_Ib(s, 1)),
                                OpShift::_SAL | OpShift::SHL => Ok(IrOp::SHL_MwA16_Ib(s, 1)),
                                OpShift::SHR => Ok(IrOp::SHR_MwA16_Ib(s, 1)),
                                OpShift::SAR => Ok(IrOp::SAR_MwA16_Ib(s, 1)),
                            }
                        },
                    SizedOperand::Word(ModRmOperand::Mem32(s, c)) => {
                            let opx = OpShift::from_idx3(c);
                            match opx {
                                OpShift::ROL => Ok(IrOp::ROL_MwA32_Ib(s, 1)),
                                OpShift::ROR => Ok(IrOp::ROR_MwA32_Ib(s, 1)),
                                OpShift::RCL => Ok(IrOp::RCL_MwA32_Ib(s, 1)),
                                OpShift::RCR => Ok(IrOp::RCR_MwA32_Ib(s, 1)),
                                OpShift::_SAL | OpShift::SHL => Ok(IrOp::SHL_MwA32_Ib(s, 1)),
                                OpShift::SHR => Ok(IrOp::SHR_MwA32_Ib(s, 1)),
                                OpShift::SAR => Ok(IrOp::SAR_MwA32_Ib(s, 1)),
                            }
                        },
                    SizedOperand::Dword(ModRmOperand::Reg(s, c)) => {
                            let opx = OpShift::from_idx3(c);
                            match opx {
                                OpShift::ROL => Ok(IrOp::ROL_Rd_Ib(s, 1)),
                                OpShift::ROR => Ok(IrOp::ROR_Rd_Ib(s, 1)),
                                OpShift::RCL => Ok(IrOp::RCL_Rd_Ib(s, 1)),
                                OpShift::RCR => Ok(IrOp::RCR_Rd_Ib(s, 1)),
                                OpShift::_SAL | OpShift::SHL => Ok(IrOp::SHL_Rd_Ib(s, 1)),
                                OpShift::SHR => Ok(IrOp::SHR_Rd_Ib(s, 1)),
                                OpShift::SAR => Ok(IrOp::SAR_Rd_Ib(s, 1)),
                            }
                        },
                    SizedOperand::Dword(ModRmOperand::Mem16(s, c)) => {
                            let opx = OpShift::from_idx3(c);
                            match opx {
                                OpShift::ROL => Ok(IrOp::ROL_MdA16_Ib(s, 1)),
                                OpShift::ROR => Ok(IrOp::ROR_MdA16_Ib(s, 1)),
                                OpShift::RCL => Ok(IrOp::RCL_MdA16_Ib(s, 1)),
                                OpShift::RCR => Ok(IrOp::RCR_MdA16_Ib(s, 1)),
                                OpShift::_SAL | OpShift::SHL => Ok(IrOp::SHL_MdA16_Ib(s, 1)),
                                OpShift::SHR => Ok(IrOp::SHR_MdA16_Ib(s, 1)),
                                OpShift::SAR => Ok(IrOp::SAR_MdA16_Ib(s, 1)),
                            }
                        },
                    SizedOperand::Dword(ModRmOperand::Mem32(s, c)) => {
                            let opx = OpShift::from_idx3(c);
                            match opx {
                                OpShift::ROL => Ok(IrOp::ROL_MdA32_Ib(s, 1)),
                                OpShift::ROR => Ok(IrOp::ROR_MdA32_Ib(s, 1)),
                                OpShift::RCL => Ok(IrOp::RCL_MdA32_Ib(s, 1)),
                                OpShift::RCR => Ok(IrOp::RCR_MdA32_Ib(s, 1)),
                                OpShift::_SAL | OpShift::SHL => Ok(IrOp::SHL_MdA32_Ib(s, 1)),
                                OpShift::SHR => Ok(IrOp::SHR_MdA32_Ib(s, 1)),
                                OpShift::SAR => Ok(IrOp::SAR_MdA32_Ib(s, 1)),
                            }
                        },
                }
            }
            _ => Ok(IrOp::UD),
        }
    }

    /// Decodes the shifts and rotations of opcode 0xd2.
    #[verifier::spinoff_prover]
    #[verifier::rlimit(100)]
    fn decode_shift_d2<FETCH: Fetch<E = E>, E>(context: &DecoderContext, opcode: u8, is: &mut FETCH) -> (r: Result<IrOp, E>)
        requires
            opcode == 0xd2,
        ensures
            read_on(*old(is), *final(is), r is Err),
            final(is).reliable() == old(is).reliable(),
            r is Ok ==> final(is).stream().len() <= old(is).stream().len(),
            ({
                let s = old(is).stream();
                &&& old(is).reliable() ==> (r is Ok <==> match context.spec_operand(s) {
                    Some((o, n)) => n + shift_imm_len(context.is_opsize32, opcode, o) <= s.len(),
                    None => false,
                })
                &&& r is Ok ==> {
                    let (o, n) = context.spec_operand(s)->0;
                    &&& context.spec_operand(s) is Some
                    &&& n + shift_imm_len(context.is_opsize32, opcode, o) <= s.len()
                    &&& shift_rel(context.is_opsize32, opcode, o, s.skip(n as int), r->Ok_0)
                    &&& final(is).stream() == s.skip((n + shift_imm_len(context.is_opsize32, opcode, o)) as int)
                }
            }),
    {
        match opcode {
            0xd2 => {
                // Grp2 r/m8, CL (shift/rotate)
                let ghost s = is.stream();
                let operand = context.modrm_rb_sub3(is)?;
                proof {
                    let (o, n) = context.spec_operand(s)->0;
                    if n + 1 <= s.len() {
                        assert(s.skip(n as int).drop_first() =~= s.skip(n + 1int));
                    }
                    if n + 2 <= s.len() {
                        assert(s.skip(n as int).skip(2) =~= s.skip(n + 2int));
                    }
                    if n + 4 <= s.len() {
                        assert(s.skip(n as int).skip(4) =~= s.skip(n + 4int));
                    }
                    if n <= s.len() {
                        assert(s.skip(n as int).skip(0) =~= s.skip(n as int));
                    }
                }
                match operand {
                    ModRmOperand::Reg(s, c) => {
                            let opx = OpShift::from_idx3(c);
                            match opx {
                                OpShift::ROL => Ok(IrOp::ROL_Rb_Cl(s)),
                                OpShift::ROR => Ok(IrOp::ROR_Rb_Cl(s)),
                                OpShift::RCL => Ok(IrOp::RCL_Rb_Cl(s)),
                                OpShift::RCR => Ok(IrOp::RCR_Rb_Cl(s)),
                                OpShift::_SAL | OpShift::SHL => Ok(IrOp::SHL_Rb_Cl(s)),
                                OpShift::SHR => Ok(IrOp::SHR_Rb_Cl(s)),
                                OpShift::SAR => Ok(IrOp::SAR_Rb_Cl(s)),
                            }
                        },
                    ModRmOperand::Mem16(s, c) => {
                            let opx = OpShift::from_idx3(c);
                            match opx {
                                OpShift::ROL => Ok(IrOp::ROL_MbA16_Cl(s)),
                                OpShift::ROR => Ok(IrOp::ROR_MbA16_Cl(s)),
                                OpShift::RCL => Ok(IrOp::RCL_MbA16_Cl(s)),
                                OpShift::RCR => Ok(IrOp::RCR_MbA16_Cl(s)),
                                OpShift::_SAL | OpShift::SHL => Ok(IrOp::SHL_MbA16_Cl(s)),
                                OpShift::SHR => Ok(IrOp::SHR_MbA16_Cl(s)),
                                OpShift::SAR => Ok(IrOp::SAR_MbA16_Cl(s)),
                            }
                        },
                    ModRmOperand::Mem32(s, c) => {
                            let opx = OpShift::from_idx3(c);
                            match opx {
                                OpShift::ROL => Ok(IrOp::ROL_MbA32_Cl(s)),
                                OpShift::ROR => Ok(IrOp::ROR_MbA32_Cl(s)),
                                OpShift::RCL => Ok(IrOp::RCL_MbA32_Cl(s)),
                                OpShift::RCR => Ok(IrOp::RCR_MbA32_Cl(s)),
                                OpShift::_SAL | OpShift::SHL => Ok(IrOp::SHL_MbA32_Cl(s)),
                                OpShift::SHR => Ok(IrOp::SHR_MbA32_Cl(s)),
                                OpShift::SAR => Ok(IrOp::SAR_MbA32_Cl(s)),
                            }
                        },
                }
            }
            _ => Ok(IrOp::UD),
        }
    }

    /// Decodes the shifts and rotations of opcode 0xd3.
    #[verifier::spinoff_prover]
    #[verifier::rlimit(100)]
    fn decode_shift_d3<FETCH: Fetch<E = E>, E>(context: &DecoderContext, opcode: u8, is: &mut FETCH) -> (r: Result<IrOp, E>)
        requires
            opcode == 0xd3,
        ensures
            read_on(*old(is), *final(is), r is Err),
            final(is).reliable() == old(is).reliable(),
            r is Ok ==> final(is).stream().len() <= old(is).stream().len(),
            ({
                let s = old(is).stream();
                &&& old(is).reliable() ==> (r is Ok <==> match context.spec_operand(s) {
                    Some((o, n)) => n + shift_imm_len(context.is_opsize32, opcode, o) <= s.len(),
                    None => false,
                })
                &&& r is Ok ==> {
                    let (o, n) = context.spec_operand(s)->0;
                    &&& context.spec_operand(s) is Some
                    &&& n + shift_imm_len(context.is_opsize32, opcode, o) <= s.len()
                    &&& shift_rel(context.is_opsize32, opcode, o, s.skip(n as int), r->Ok_0)
                    &&& final(is).stream() == s.skip((n + shift_imm_len(context.is_opsize32, opcode, o)) as int)
                }
            }),
    {
        match opcode {
            0xd3 => {
                // Grp2 r/m16/32, CL (shift/rotate)
                let ghost s = is.stream();
                let operand = context.modrm_rv_sub3(is)?;
                proof {
                    let (o, n) = context.spec_operand(s)->0;
                    if n + 1 <= s.len() {
                        assert(s.skip(n as int).drop_first() =~= s.skip(n + 1int));
                    }
                    if n + 2 <= s.len() {
                        assert(s.skip(n as int).skip(2) =~= s.skip(n + 2int));
                    }
                    if n + 4 <= s.len() {
                        assert(s.skip(n as int).skip(4) =~= s.skip(n + 4int));
                    }
                    if n <= s.len() {
                        assert(s.skip(n as int).skip(0) =~= s.skip(n as int));
                    }
                }
                match operand {
                    SizedOperand::Word(ModRmOperand::Reg(s, c)) => {
                            let opx = OpShift::from_idx3(c);
                            match opx {
                                OpShift::ROL => Ok(IrOp::ROL_Rw_Cl(s)),
                                OpShift::ROR => Ok(IrOp::ROR_Rw_Cl(s)),
                                OpShift::RCL => Ok(IrOp::RCL_Rw_Cl(s)),
                                OpShift::RCR => Ok(IrOp::RCR_Rw_Cl(s)),
                                OpShift::_SAL | OpShift::SHL => Ok(IrOp::SHL_Rw_Cl(s)),
                                OpShift::SHR => Ok(IrOp::SHR_Rw_Cl(s)),
                                OpShift::SAR => Ok(IrOp::SAR_Rw_Cl(s)),
                            }
                        },
                    SizedOperand::Word(ModRmOperand::Mem16(s, c)) => {
                            let opx = OpShift::from_idx3(c);
                            match opx {
                                OpShift::ROL => Ok(IrOp::ROL_MwA16_Cl(s)),
                                OpShift::ROR => Ok(IrOp::ROR_MwA16_Cl(s)),
                                OpShift::RCL => Ok(IrOp::RCL_MwA16_Cl(s)),
                                OpShift::RCR => Ok(IrOp::RCR_MwA16_Cl(s)),
                                OpShift::_SAL | OpShift::SHL => Ok(IrOp::SHL_MwA16_Cl(s)),
                                OpShift::SHR => Ok(IrOp::SHR_MwA16_Cl(s)),
                                OpShift::SAR => Ok(IrOp::SAR_MwA16_Cl(s)),
                            }
                        },
                    SizedOperand::Word(ModRmOperand::Mem32(s, c)) => {
                            let opx = OpShift::from_idx3(c);
                            match opx {
                                OpShift::ROL => Ok(IrOp::ROL_MwA32_Cl(s)),
                                OpShift::ROR => Ok(IrOp::ROR_MwA32_Cl(s)),
                                OpShift::RCL => Ok(IrOp::RCL_MwA32_Cl(s)),
                                OpShift::RCR => Ok(IrOp::RCR_MwA32_Cl(s)),
                                OpShift::_SAL | OpShift::SHL => Ok(IrOp::SHL_MwA32_Cl(s)),
                                OpShift::SHR => Ok(IrOp::SHR_MwA32_Cl(s)),
                                OpShift::SAR => Ok(IrOp::SAR_MwA32_Cl(s)),
                            }
                        },
                    SizedOperand::Dword(ModRmOperand::Reg(s, c)) => {
                            let opx = OpShift::from_idx3(c);
                            match opx {
                                OpShift::ROL => Ok(IrOp::ROL_Rd_Cl(s)),
                                OpShift::ROR => Ok(IrOp::ROR_Rd_Cl(s)),
                                OpShift::RCL => Ok(IrOp::RCL_Rd_Cl(s)),
                                OpShift::RCR => Ok(IrOp::RCR_Rd_Cl(s)),
                                OpShift::_SAL | OpShift::SHL => Ok(IrOp::SHL_Rd_Cl(s)),
                                OpShift::SHR => Ok(IrOp::SHR_Rd_Cl(s)),
                                OpShift::SAR => Ok(IrOp::SAR_Rd_Cl(s)),
                            }
                        },
                    SizedOperand::Dword(ModRmOperand::Mem16(s, c)) => {
                            let opx = OpShift::from_idx3(c);
                            match opx {
                                OpShift::ROL => Ok(IrOp::ROL_MdA16_Cl(s)),
                                OpShift::ROR => Ok(IrOp::ROR_MdA16_Cl(s)),
                                OpShift::RCL => Ok(IrOp::RCL_MdA16_Cl(s)),
                                OpShift::RCR => Ok(IrOp::RCR_MdA16_Cl(s)),
                                OpShift::_SAL | OpShift::SHL => Ok(IrOp::SHL_MdA16_Cl(s)),
                                OpShift::SHR => Ok(IrOp::SHR_MdA16_Cl(s)),
                                OpShift::SAR => Ok(IrOp::SAR_MdA16_Cl(s)),
                            }
                        },
                    SizedOperand::Dword(ModRmOperand::Mem32(s, c)) => {
                            let opx = OpShift::from_idx3(c);
                            match opx {
                                OpShift::ROL => Ok(IrOp::ROL_MdA32_Cl(s)),
                                OpShift::ROR => Ok(IrOp::ROR_MdA32_Cl(s)),
                                OpShift::RCL => Ok(IrOp::RCL_MdA32_Cl(s)),
                                OpShift::RCR => Ok(IrOp::RCR_MdA32_Cl(s)),
                                OpShift::_SAL | OpShift::SHL => Ok(IrOp::SHL_MdA32_Cl(s)),
                                OpShift::SHR => Ok(IrOp::SHR_MdA32_Cl(s)),
                                OpShift::SAR => Ok(IrOp::SAR_MdA32_Cl(s)),
                            }
                        },
                }
            }
            _ => Ok(IrOp::UD),
        }
    }

    fn decode_c0_df<FETCH: Fetch<E = E>, E>(context: &DecoderContext, opcode: u8, is: &mut FETCH) -> (r: Result<IrOp, E>)
        ensures
            (opcode == 0xc8 || opcode == 0xca) && old(is).reliable() ==> if old(is).stream().len() >= imm2_size(opcode) {
                &&& r matches Ok(ir) && imm2_result(*context, opcode, old(is).stream(), old(is).eip(), ir)
                &&& final(is).stream() == old(is).stream().skip(imm2_size(opcode) as int)
            } else {
                r is Err
            },
            opcode == 0xd3 ==> {
                let s = old(is).stream();
                &&& old(is).reliable() ==> (r is Ok <==> match context.spec_operand(s) {
                    Some((o, n)) => n + shift_imm_len(context.is_opsize32, opcode, o) <= s.len(),
                    None => false,
                })
                &&& r is Ok ==> {
                    let (o, n) = context.spec_operand(s)->0;
                    &&& context.spec_operand(s) is Some
                    &&& n + shift_imm_len(context.is_opsize32, opcode, o) <= s.len()
                    &&& shift_rel(context.is_opsize32, opcode, o, s.skip(n as int), r->Ok_0)
                    &&& final(is).stream() == s.skip((n + shift_imm_len(context.is_opsize32, opcode, o)) as int)
                }
            },
            opcode == 0xd2 ==> {
                let s = old(is).stream();
                &&& old(is).reliable() ==> (r is Ok <==> match context.spec_operand(s) {
                    Some((o, n)) => n + shift_imm_len(context.is_opsize32, opcode, o) <= s.len(),
                    None => false,
                })
                &&& r is Ok ==> {
                    let (o, n) = context.spec_operand(s)->0;
                    &&& context.spec_operand(s) is Some
                    &&& n + shift_imm_len(context.is_opsize32, opcode, o) <= s.len()
                    &&& shift_rel(context.is_opsize32, opcode, o, s.skip(n as int), r->Ok_0)
                    &&& final(is).stream() == s.skip((n + shift_imm_len(context.is_opsize32, opcode, o)) as int)
                }
            },
            opcode == 0xd1 ==> {
                let s = old(is).stream();
                &&& old(is).reliable() ==> (r is Ok <==> match context.spec_operand(s) {
                    Some((o, n)) => n + shift_imm_len(context.is_opsize32, opcode, o) <= s.len(),
                    None => false,
                })
                &&& r is Ok ==> {
                    let (o, n) = context.spec_operand(s)->0;
                    &&& context.spec_operand(s) is Some
                    &&& n + shift_imm_len(context.is_opsize32, opcode, o) <= s.len()
                    &&& shift_rel(context.is_opsize32, opcode, o, s.skip(n as int), r->Ok_0)
                    &&& final(is).stream() == s.skip((n + shift_imm_len(context.is_opsize32, opcode, o)) as int)
                }
            },
            opcode == 0xd0 ==> {
                let s = old(is).stream();
                &&& old(is).reliable() ==> (r is Ok <==> match context.spec_operand(s) {
                    Some((o, n)) => n + shift_imm_len(context.is_opsize32, opcode, o) <= s.len(),
                    None => false,
                })
                &&& r is Ok ==> {
                    let (o, n) = context.spec_operand(s)->0;
                    &&& context.spec_operand(s) is Some
                    &&& n + shift_imm_len(context.is_opsize32, opcode, o) <= s.len()
                    &&& shift_rel(context.is_opsize32, opcode, o, s.skip(n as int), r->Ok_0)
                    &&& final(is).stream() == s.skip((n + shift_imm_len(context.is_opsize32, opcode, o)) as int)
                }
            },
            opcode == 0xc1 ==> {
                let s = old(is).stream();
                &&& old(is).reliable() ==> (r is Ok <==> match context.spec_operand(s) {
                    Some((o, n)) => n + shift_imm_len(context.is_opsize32, opcode, o) <= s.len(),
                    None => false,
                })
                &&& r is Ok ==> {
                    let (o, n) = context.spec_operand(s)->0;
                    &&& context.spec_operand(s) is Some
                    &&& n + shift_imm_len(context.is_opsize32, opcode, o) <= s.len()
                    &&& shift_rel(context.is_opsize32, opcode, o, s.skip(n as int), r->Ok_0)
                    &&& final(is).stream() == s.skip((n + shift_imm_len(context.is_opsize32, opcode, o)) as int)
                }
            },
            opcode == 0xc0 ==> {
                let s = old(is).stream();
                &&& old(is).reliable() ==> (r is Ok <==> match context.spec_operand(s) {
                    Some((o, n)) => n + shift_imm_len(context.is_opsize32, opcode, o) <= s.len(),
                    None => false,
                })
                &&& r is Ok ==> {
                    let (o, n) = context.spec_operand(s)->0;
                    &&& context.spec_operand(s) is Some
                    &&& n + shift_imm_len(context.is_opsize32, opcode, o) <= s.len()
                    &&& shift_rel(context.is_opsize32, opcode, o, s.skip(n as int), r->Ok_0)
                    &&& final(is).stream() == s.skip((n + shift_imm_len(context.is_opsize32, opcode, o)) as int)
                }
            },
            read_on(*old(is), *final(is), r is Err),
            final(is).reliable() == old(is).reliable(),
            r is Ok ==> final(is).stream().len() <= old(is).stream().len(),
            0xc0 <= opcode < 0xe0 && operandless(*context, opcode) is Some
                ==> r == Ok::<IrOp, E>(operandless(*context, opcode)->0) && *final(is) == *old(is),
            opcode == 0xc6 || opcode == 0xc7 ==> {
                let s = old(is).stream();
                &&& old(is).reliable() ==> (r is Ok <==> match context.spec_operand(s) {
                    Some((o, n)) => n + mov_imm_len(context.is_opsize32, opcode, o) <= s.len(),
                    None => false,
                })
                &&& r is Ok ==> {
                    let (o, n) = context.spec_operand(s)->0;
                    &&& context.spec_operand(s) is Some
                    &&& n + mov_imm_len(context.is_opsize32, opcode, o) <= s.len()
                    &&& mov_imm_rel(context.is_opsize32, opcode, o, s.skip(n as int), r->Ok_0)
                    &&& final(is).stream() == s.skip((n + mov_imm_len(context.is_opsize32, opcode, o)) as int)
                }
            },
            0xc0 <= opcode < 0xe0 && imm_size(*context, opcode) > 0 && old(is).reliable() ==> if old(is).stream().len() >= imm_size(*context, opcode) {
                &&& r matches Ok(ir) && imm_result(*context, opcode, old(is).stream(), old(is).eip(), ir)
                &&& final(is).stream() == old(is).stream().skip(imm_size(*context, opcode) as int)
            } else {
                r is Err
            },
    {
        match opcode {
            0xc0 => Self::decode_shift_c0(context, opcode, is),
            0xc1 => Self::decode_shift_c1(context, opcode, is),
            0xc2 => {
                // RET imm16
                let imm = is.fetch_u16()?;
                if context.is_opsize32 {
                    Ok(IrOp::RET_D32(imm))
                } else {
                    Ok(IrOp::RET_D16(imm))
                }
            }
            0xc3 => {
                // RET
                if context.is_opsize32 {
                    Ok(IrOp::RET_D32(0))
                } else {
                    Ok(IrOp::RET_D16(0))
                }
            }
            0xc4 => {
                // LES r16/32, m16:16/32
                match context.modrm_mv(is)? {
                    SizedOperand::Word(ModRmOperand::Reg(_, _)) => Ok(IrOp::UD),
                    SizedOperand::Dword(ModRmOperand::Reg(_, _)) => Ok(IrOp::UD),
                    SizedOperand::Word(ModRmOperand::Mem16(m, r)) => Ok(IrOp::LES_Rw_MwA16(r, m)),
                    SizedOperand::Word(ModRmOperand::Mem32(m, r)) => Ok(IrOp::LES_Rw_MwA32(r, m)),
                    SizedOperand::Dword(ModRmOperand::Mem16(m, r)) => Ok(IrOp::LES_Rd_MdA16(r, m)),
                    SizedOperand::Dword(ModRmOperand::Mem32(m, r)) => Ok(IrOp::LES_Rd_MdA32(r, m)),
                }
            }
            0xc5 => {
                // LDS r16/32, m16:16/32
                match context.modrm_mv(is)? {
                    SizedOperand::Word(ModRmOperand::Reg(_, _)) => Ok(IrOp::UD),
                    SizedOperand::Dword(ModRmOperand::Reg(_, _)) => Ok(IrOp::UD),
                    SizedOperand::Word(ModRmOperand::Mem16(m, r)) => Ok(IrOp::LDS_Rw_MwA16(r, m)),
                    SizedOperand::Word(ModRmOperand::Mem32(m, r)) => Ok(IrOp::LDS_Rw_MwA32(r, m)),
                    SizedOperand::Dword(ModRmOperand::Mem16(m, r)) => Ok(IrOp::LDS_Rd_MdA16(r, m)),
                    SizedOperand::Dword(ModRmOperand::Mem32(m, r)) => Ok(IrOp::LDS_Rd_MdA32(r, m)),
                }
            }
            0xc6 => Self::decode_mov_imm(context, opcode, is),
            0xc7 => Self::decode_mov_imm(context, opcode, is),
            0xc8 => {
                // ENTER imm16, imm8
                // the operand-size prefix does not change it here
                let iw = is.fetch_u16()?;
                let ib = is.fetch_u8()?;
                Ok(IrOp::ENTER_Iw_Ib(iw, ib))
            }
            0xc9 => {
                // LEAVE
                // the operand-size prefix does not change it here
                Ok(IrOp::LEAVE)
            }
            0xca => {
                // RETF imm16
                let imm = is.fetch_u16()?;
                if context.is_opsize32 {
                    Ok(IrOp::RETF_D32(imm))
                } else {
                    Ok(IrOp::RETF_D16(imm))
                }
            }
            0xcb => {
                // RETF
                if context.is_opsize32 {
                    Ok(IrOp::RETF_D32(0))
                } else {
                    Ok(IrOp::RETF_D16(0))
                }
            }
            0xcc => {
                // INT3
                Ok(IrOp::INT_Ib(3))
            }
            0xcd => {
                // INT imm8
                let imm = is.fetch_u8()?;
                Ok(IrOp::INT_Ib(imm))
            }
            0xce => {
                // INTO
                Ok(IrOp::INTO)
            }
            0xcf => {
                // IRET
                if context.is_opsize32 {
                    Ok(IrOp::IRETD)
                } else {
                    Ok(IrOp::IRET)
                }
            }
            0xd0 => Self::decode_shift_d0(context, opcode, is),
            0xd1 => Self::decode_shift_d1(context, opcode, is),
            0xd2 => Self::decode_shift_d2(context, opcode, is),
            0xd3 => Self::decode_shift_d3(context, opcode, is),
            0xd4 => {
                // AAM imm8
                let imm = is.fetch_u8()?;
                Ok(IrOp::AAM_Ib(imm))
            }
            0xd5 => {
                // AAD imm8
                let imm = is.fetch_u8()?;
                Ok(IrOp::AAD_Ib(imm))
            }
            0xd6 => {
                // SALC
                Ok(IrOp::SALC)
            }
            0xd7 => {
                // XLAT
                if context.is_addr32 {
                    Ok(IrOp::XLAT_MbA32(MemOpr32::for_xlat(
                        context.segment_override.unwrap_or(DS),
                    )))
                } else {
                    Ok(IrOp::XLAT_MbA16(MemOpr16::for_xlat(
                        context.segment_override.unwrap_or(DS),
                    )))
                }
            }
            0xd8..=0xdf => {
                // FPU instructions (escape 0xd8..0xdf)
                match context.modrm_rb(is)? {
                    ModRmOperand::Reg(m, r) => Ok(IrOp::ESC_Rb(opcode, r.to_u8(), m)),
                    ModRmOperand::Mem16(m, r) => Ok(IrOp::ESC_MbA16(opcode, r.to_u8(), m)),
                    ModRmOperand::Mem32(m, r) => Ok(IrOp::ESC_MbA32(opcode, r.to_u8(), m)),
                }
            }
            _ => Ok(IrOp::UD),
        }
    }

    /// Decodes the group-3 instructions (TEST, NOT, NEG, MUL, IMUL, DIV, IDIV).
    #[verifier::spinoff_prover]
    #[verifier::rlimit(100)]
    fn decode_grp3<FETCH: Fetch<E = E>, E>(context: &DecoderContext, opcode: u8, is: &mut FETCH) -> (r: Result<IrOp, E>)
        requires
            opcode == 0xf6 || opcode == 0xf7,
        ensures
            read_on(*old(is), *final(is), r is Err),
            final(is).reliable() == old(is).reliable(),
            r is Ok ==> final(is).stream().len() <= old(is).stream().len(),
            ({
                let s = old(is).stream();
                &&& old(is).reliable() ==> (r is Ok <==> match context.spec_operand(s) {
                    Some((o, n)) => n + grp3_imm_len(context.is_opsize32, opcode, o) <= s.len(),
                    None => false,
                })
                &&& r is Ok ==> {
                    let (o, n) = context.spec_operand(s)->0;
                    &&& context.spec_operand(s) is Some
                    &&& n + grp3_imm_len(context.is_opsize32, opcode, o) <= s.len()
                    &&& grp3_rel(context.is_opsize32, opcode, o, s.skip(n as int), r->Ok_0)
                    &&& final(is).stream() == s.skip((n + grp3_imm_len(context.is_opsize32, opcode, o)) as int)
                }
            }),
    {
        match opcode {
            0xf6 => {
                // grp3 r/m8
                let ghost s = is.stream();
                let operand = context.modrm_rb_sub3(is)?;
                proof {
                    let (o, n) = context.spec_operand(s)->0;
                    if n + 1 <= s.len() {
                        assert(s.skip(n as int).drop_first() =~= s.skip(n + 1int));
                    }
                    if n + 2 <= s.len() {
                        assert(s.skip(n as int).skip(2) =~= s.skip(n + 2int));
                    }
                    if n + 4 <= s.len() {
                        assert(s.skip(n as int).skip(4) =~= s.skip(n + 4int));
                    }
                    if n <= s.len() {
                        assert(s.skip(n as int).skip(0) =~= s.skip(n as int));
                    }
                }
                match operand {
                    ModRmOperand::Reg(s, c) => {
                            let sub_op = OpGrp3::from_idx3(c);
                            match sub_op {
                                OpGrp3::TEST | OpGrp3::_TEST1 => {
                                    let imm = is.fetch_u8()?;
                                    Ok(IrOp::TEST_Rb_Ib(s, imm))
                                }
                                OpGrp3::NOT => Ok(IrOp::NOT_Rb(s)),
                                OpGrp3::NEG => Ok(IrOp::NEG_Rb(s)),
                                OpGrp3::MUL => Ok(IrOp::MUL_Rb(s)),
                                OpGrp3::IMUL => Ok(IrOp::IMUL_Rb(s)),
                                OpGrp3::DIV => Ok(IrOp::DIV_Rb(s)),
                                OpGrp3::IDIV => Ok(IrOp::IDIV_Rb(s)),
                            }
                        },
                    ModRmOperand::Mem16(s, c) => {
                            let sub_op = OpGrp3::from_idx3(c);
                            match sub_op {
                                OpGrp3::TEST | OpGrp3::_TEST1 => {
                                    let imm = is.fetch_u8()?;
                                    Ok(IrOp::TEST_MbA16_Ib(s, imm))
                                }
                                OpGrp3::NOT => Ok(IrOp::NOT_MbA16(s)),
                                OpGrp3::NEG => Ok(IrOp::NEG_MbA16(s)),
                                OpGrp3::MUL => Ok(IrOp::MUL_MbA16(s)),
                                OpGrp3::IMUL => Ok(IrOp::IMUL_MbA16(s)),
                                OpGrp3::DIV => Ok(IrOp::DIV_MbA16(s)),
                                OpGrp3::IDIV => Ok(IrOp::IDIV_MbA16(s)),
                            }
                        },
                    ModRmOperand::Mem32(s, c) => {
                            let sub_op = OpGrp3::from_idx3(c);
                            match sub_op {
                                OpGrp3::TEST | OpGrp3::_TEST1 => {
                                    let imm = is.fetch_u8()?;
                                    Ok(IrOp::TEST_MbA32_Ib(s, imm))
                                }
                                OpGrp3::NOT => Ok(IrOp::NOT_MbA32(s)),
                                OpGrp3::NEG => Ok(IrOp::NEG_MbA32(s)),
                                OpGrp3::MUL => Ok(IrOp::MUL_MbA32(s)),
                                OpGrp3::IMUL => Ok(IrOp::IMUL_MbA32(s)),
                                OpGrp3::DIV => Ok(IrOp::DIV_MbA32(s)),
                                OpGrp3::IDIV => Ok(IrOp::IDIV_MbA32(s)),
                            }
                        },
                }
            }
            0xf7 => {
                // grp3 r/m16/32
                let ghost s = is.stream();
                let operand = context.modrm_rv_sub3(is)?;
                proof {
                    let (o, n) = context.spec_operand(s)->0;
                    if n + 1 <= s.len() {
                        assert(s.skip(n as int).drop_first() =~= s.skip(n + 1int));
                    }
                    if n + 2 <= s.len() {
                        assert(s.skip(n as int).skip(2) =~= s.skip(n + 2int));
                    }
                    if n + 4 <= s.len() {
                        assert(s.skip(n as int).skip(4) =~= s.skip(n + 4int));
                    }
                    if n <= s.len() {
                        assert(s.skip(n as int).skip(0) =~= s.skip(n as int));
                    }
                }
                match operand {
                    SizedOperand::Word(ModRmOperand::Reg(s, c)) => {
                            let sub_op = OpGrp3::from_idx3(c);
                            match sub_op {
                                OpGrp3::TEST | OpGrp3::_TEST1 => {
                                    let imm = is.fetch_u16()?;
                                    Ok(IrOp::TEST_Rw_Iw(s, imm))
                                }
                                OpGrp3::NOT => Ok(IrOp::NOT_Rw(s)),
                                OpGrp3::NEG => Ok(IrOp::NEG_Rw(s)),
                                OpGrp3::MUL => Ok(IrOp::MUL_Rw(s)),
                                OpGrp3::IMUL => Ok(IrOp::IMUL_Rw(s)),
                                OpGrp3::DIV => Ok(IrOp::DIV_Rw(s)),
                                OpGrp3::IDIV => Ok(IrOp::IDIV_Rw(s)),
                            }
                        },
                    SizedOperand::Word(ModRmOperand::Mem16(s, c)) => {
                            let sub_op = OpGrp3::from_idx3(c);
                            match sub_op {
                                OpGrp3::TEST | OpGrp3::_TEST1 => {
                                    let imm = is.fetch_u16()?;
                                    Ok(IrOp::TEST_MwA16_Iw(s, imm))
                                }
                                OpGrp3::NOT => Ok(IrOp::NOT_MwA16(s)),
                                OpGrp3::NEG => Ok(IrOp::NEG_MwA16(s)),
                                OpGrp3::MUL => Ok(IrOp::MUL_MwA16(s)),
                                OpGrp3::IMUL => Ok(IrOp::IMUL_MwA16(s)),
                                OpGrp3::DIV => Ok(IrOp::DIV_MwA16(s)),
                                OpGrp3::IDIV => Ok(IrOp::IDIV_MwA16(s)),
                            }
                        },
                    SizedOperand::Word(ModRmOperand::Mem32(s, c)) => {
                            let sub_op = OpGrp3::from_idx3(c);
                            match sub_op {
                                OpGrp3::TEST | OpGrp3::_TEST1 => {
                                    let imm = is.fetch_u16()?;
                                    Ok(IrOp::TEST_MwA32_Iw(s, imm))
                                }
                                OpGrp3::NOT => Ok(IrOp::NOT_MwA32(s)),
                                OpGrp3::NEG => Ok(IrOp::NEG_MwA32(s)),
                                OpGrp3::MUL => Ok(IrOp::MUL_MwA32(s)),
                                OpGrp3::IMUL => Ok(IrOp::IMUL_MwA32(s)),
                                OpGrp3::DIV => Ok(IrOp::DIV_MwA32(s)),
                                OpGrp3::IDIV => Ok(IrOp::IDIV_MwA32(s)),
                            }
                        },
                    SizedOperand::Dword(ModRmOperand::Reg(s, c)) => {
                            let sub_op = OpGrp3::from_idx3(c);
                            match sub_op {
                                OpGrp3::TEST | OpGrp3::_TEST1 => {
                                    let imm = is.fetch_u32()?;
                                    Ok(IrOp::TEST_Rd_Id(s, imm))
                                }
                                OpGrp3::NOT => Ok(IrOp::NOT_Rd(s)),
                                OpGrp3::NEG => Ok(IrOp::NEG_Rd(s)),
                                OpGrp3::MUL => Ok(IrOp::MUL_Rd(s)),
                                OpGrp3::IMUL => Ok(IrOp::IMUL_Rd(s)),
                                OpGrp3::DIV => Ok(IrOp::DIV_Rd(s)),
                                OpGrp3::IDIV => Ok(IrOp::IDIV_Rd(s)),
                            }
                        },
                    SizedOperand::Dword(ModRmOperand::Mem16(s, c)) => {
                            let sub_op = OpGrp3::from_idx3(c);
                            match sub_op {
                                OpGrp3::TEST | OpGrp3::_TEST1 => {
                                    let imm = is.fetch_u32()?;
                                    Ok(IrOp::TEST_MdA16_Id(s, imm))
                                }
                                OpGrp3::NOT => Ok(IrOp::NOT_MdA16(s)),
                                OpGrp3::NEG => Ok(IrOp::NEG_MdA16(s)),
                                OpGrp3::MUL => Ok(IrOp::MUL_MdA16(s)),
                                OpGrp3::IMUL => Ok(IrOp::IMUL_MdA16(s)),
                                OpGrp3::DIV => Ok(IrOp::DIV_MdA16(s)),
                                OpGrp3::IDIV => Ok(IrOp::IDIV_MdA16(s)),
                            }
                        },
                    SizedOperand::Dword(ModRmOperand::Mem32(s, c)) => {
                            let sub_op = OpGrp3::from_idx3(c);
                            match sub_op {
                                OpGrp3::TEST | OpGrp3::_TEST1 => {
                                    let imm = is.fetch_u32()?;
                                    Ok(IrOp::TEST_MdA32_Id(s, imm))
                                }
                                OpGrp3::NOT => Ok(IrOp::NOT_MdA32(s)),
                                OpGrp3::NEG => Ok(IrOp::NEG_MdA32(s)),
                                OpGrp3::MUL => Ok(IrOp::MUL_MdA32(s)),
                                OpGrp3::IMUL => Ok(IrOp::IMUL_MdA32(s)),
                                OpGrp3::DIV => Ok(IrOp::DIV_MdA32(s)),
                                OpGrp3::IDIV => Ok(IrOp::IDIV_MdA32(s)),
                            }
                        },
                }
            }
            _ => Ok(IrOp::UD),
        }
    }

    /// Decodes the 8-bit INC and DEC of a ModR/M operand.
    #[verifier::spinoff_prover]
    #[verifier::rlimit(100)]
    fn decode_grp4<FETCH: Fetch<E = E>, E>(context: &DecoderContext, opcode: u8, is: &mut FETCH) -> (r: Result<IrOp, E>)
        requires
            opcode == 0xfe,
        ensures
            read_on(*old(is), *final(is), r is Err),
            final(is).reliable() == old(is).reliable(),
            r is Ok ==> final(is).stream().len() <= old(is).stream().len(),
            ({
                let s = old(is).stream();
                &&& old(is).reliable() ==> (r is Ok <==> match context.spec_operand(s) {
                    Some((o, n)) => n + incdec_imm_len(context.is_opsize32, opcode, o) <= s.len(),
                    None => false,
                })
                &&& r is Ok ==> {
                    let (o, n) = context.spec_operand(s)->0;
                    &&& context.spec_operand(s) is Some
                    &&& n + incdec_imm_len(context.is_opsize32, opcode, o) <= s.len()
                    &&& incdec_rel(context.is_opsize32, opcode, o, s.skip(n as int), r->Ok_0)
                    &&& final(is).stream() == s.skip((n + incdec_imm_len(context.is_opsize32, opcode, o)) as int)
                }
            }),
    {
        match opcode {
            0xfe => {
                // Grp4 r/m8
                let ghost s = is.stream();
                let operand = context.modrm_rb_sub3(is)?;
                proof {
                    let (o, n) = context.spec_operand(s)->0;
                    if n + 1 <= s.len() {
                        assert(s.skip(n as int).drop_first() =~= s.skip(n + 1int));
                    }
                    if n + 2 <= s.len() {
                        assert(s.skip(n as int).skip(2) =~= s.skip(n + 2int));
                    }
                    if n + 4 <= s.len() {
                        assert(s.skip(n as int).skip(4) =~= s.skip(n + 4int));
                    }
                    if n <= s.len() {
                        assert(s.skip(n as int).skip(0) =~= s.skip(n as int));
                    }
                }
                match operand {
                    ModRmOperand::Reg(s, c) => {
                            let sub_op = OpGrp4::from_idx3(c);
                            match sub_op {
                                OpGrp4::INC => Ok(IrOp::INC_Rb(s)),
                                OpGrp4::DEC => Ok(IrOp::DEC_Rb(s)),
                                _ => Ok(IrOp::UD),
                            }
                        },
                    ModRmOperand::Mem16(s, c) => {
                            let sub_op = OpGrp4::from_idx3(c);
                            match sub_op {
                                OpGrp4::INC => Ok(IrOp::INC_MbA16(s)),
                                OpGrp4::DEC => Ok(IrOp::DEC_MbA16(s)),
                                _ => Ok(IrOp::UD),
                            }
                        },
                    ModRmOperand::Mem32(s, c) => {
                            let sub_op = OpGrp4::from_idx3(c);
                            match sub_op {
                                OpGrp4::INC => Ok(IrOp::INC_MbA32(s)),
                                OpGrp4::DEC => Ok(IrOp::DEC_MbA32(s)),
                                _ => Ok(IrOp::UD),
                            }
                        },
                }
            }
            _ => Ok(IrOp::UD),
        }
    }

    /// Decodes INC, DEC, CALL, JMP and PUSH of a 16- or 32-bit ModR/M operand.
    #[verifier::spinoff_prover]
    #[verifier::rlimit(100)]
    fn decode_grp5<FETCH: Fetch<E = E>, E>(context: &DecoderContext, opcode: u8, is: &mut FETCH) -> (r: Result<IrOp, E>)
        requires
            opcode == 0xff,
        ensures
            read_on(*old(is), *final(is), r is Err),
            final(is).reliable() == old(is).reliable(),
            r is Ok ==> final(is).stream().len() <= old(is).stream().len(),
            ({
                let s = old(is).stream();
                &&& old(is).reliable() ==> (r is Ok <==> match context.spec_operand(s) {
                    Some((o, n)) => n + incdec_imm_len(context.is_opsize32, opcode, o) <= s.len(),
                    None => false,
                })
                &&& r is Ok ==> {
                    let (o, n) = context.spec_operand(s)->0;
                    &&& context.spec_operand(s) is Some
                    &&& n + incdec_imm_len(context.is_opsize32, opcode, o) <= s.len()
                    &&& incdec_rel(context.is_opsize32, opcode, o, s.skip(n as int), r->Ok_0)
                    &&& final(is).stream() == s.skip((n + incdec_imm_len(context.is_opsize32, opcode, o)) as int)
                }
            }),
    {
        match opcode {
            0xff => {
                // Grp5 r/m16/32
                let ghost s = is.stream();
                let operand = context.modrm_rv_sub3(is)?;
                proof {
                    let (o, n) = context.spec_operand(s)->0;
                    if n + 1 <= s.len() {
                        assert(s.skip(n as int).drop_first() =~= s.skip(n + 1int));
                    }
                    if n + 2 <= s.len() {
                        assert(s.skip(n as int).skip(2) =~= s.skip(n + 2int));
                    }
                    if n + 4 <= s.len() {
                        assert(s.skip(n as int).skip(4) =~= s.skip(n + 4int));
                    }
                    if n <= s.len() {
                        assert(s.skip(n as int).skip(0) =~= s.skip(n as int));
                    }
                }
                match operand {
                    SizedOperand::Word(ModRmOperand::Reg(s, c)) => {
                            let sub_op = OpGrp5::from_idx3(c);
                            match sub_op {
                                OpGrp5::INC => Ok(IrOp::INC_Rw(s)),
                                OpGrp5::DEC => Ok(IrOp::DEC_Rw(s)),
                                OpGrp5::CALL => Ok(IrOp::CALL_Rw(s)),
                                OpGrp5::JMP => Ok(IrOp::JMP_Rw(s)),
                                OpGrp5::PUSH => Ok(IrOp::PUSH_Rw(s)),
                                _ => Ok(IrOp::UD),
                            }
                        },
                    SizedOperand::Word(ModRmOperand::Mem16(s, c)) => {
                            let sub_op = OpGrp5::from_idx3(c);
                            match sub_op {
                                OpGrp5::INC => Ok(IrOp::INC_MwA16(s)),
                                OpGrp5::DEC => Ok(IrOp::DEC_MwA16(s)),
                                OpGrp5::CALL => Ok(IrOp::CALL_MwA16(s)),
                                OpGrp5::CALLF => Ok(IrOp::CALLF_MpA16O16(s)),
                                OpGrp5::JMP => Ok(IrOp::JMP_MwA16(s)),
                                OpGrp5::JMPF => Ok(IrOp::JMPF_MpA16O16(s)),
                                OpGrp5::PUSH => Ok(IrOp::PUSH_MwA16(s)),
                                OpGrp5::_UD7 => Ok(IrOp::UD),
                            }
                        },
                    SizedOperand::Word(ModRmOperand::Mem32(s, c)) => {
                            let sub_op = OpGrp5::from_idx3(c);
                            match sub_op {
                                OpGrp5::INC => Ok(IrOp::INC_MwA32(s)),
                                OpGrp5::DEC => Ok(IrOp::DEC_MwA32(s)),
                                OpGrp5::CALL => Ok(IrOp::CALL_MwA32(s)),
                                OpGrp5::CALLF => Ok(IrOp::CALLF_MpA32O16(s)),
                                OpGrp5::JMP => Ok(IrOp::JMP_MwA32(s)),
                                OpGrp5::JMPF => Ok(IrOp::JMPF_MpA32O16(s)),
                                OpGrp5::PUSH => Ok(IrOp::PUSH_MwA32(s)),
                                OpGrp5::_UD7 => Ok(IrOp::UD),
                            }
                        },
                    SizedOperand::Dword(ModRmOperand::Reg(s, c)) => {
                            let sub_op = OpGrp5::from_idx3(c);
                            match sub_op {
                                OpGrp5::INC => Ok(IrOp::INC_Rd(s)),
                                OpGrp5::DEC => Ok(IrOp::DEC_Rd(s)),
                                OpGrp5::CALL => Ok(IrOp::CALL_Rd(s)),
                                OpGrp5::JMP => Ok(IrOp::JMP_Rd(s)),
                                OpGrp5::PUSH => Ok(IrOp::PUSH_Rd(s)),
                                _ => Ok(IrOp::UD),
                            }
                        },
                    SizedOperand::Dword(ModRmOperand::Mem16(s, c)) => {
                            let sub_op = OpGrp5::from_idx3(c);
                            match sub_op {
                                OpGrp5::INC => Ok(IrOp::INC_MdA16(s)),
                                OpGrp5::DEC => Ok(IrOp::DEC_MdA16(s)),
                                OpGrp5::CALL => Ok(IrOp::CALL_MdA16(s)),
                                OpGrp5::CALLF => Ok(IrOp::CALLF_MpA16O32(s)),
                                OpGrp5::JMP => Ok(IrOp::JMP_MdA16(s)),
                                OpGrp5::JMPF => Ok(IrOp::JMPF_MpA16O32(s)),
                                OpGrp5::PUSH => Ok(IrOp::PUSH_MdA16(s)),
                                OpGrp5::_UD7 => Ok(IrOp::UD),
                            }
                        },
                    SizedOperand::Dword(ModRmOperand::Mem32(s, c)) => {
                            let sub_op = OpGrp5::from_idx3(c);
                            match sub_op {
                                OpGrp5::INC => Ok(IrOp::INC_MdA32(s)),
                                OpGrp5::DEC => Ok(IrOp::DEC_MdA32(s)),
                                OpGrp5::CALL => Ok(IrOp::CALL_MdA32(s)),
                                OpGrp5::CALLF => Ok(IrOp::CALLF_MpA32O32(s)),
                                OpGrp5::JMP => Ok(IrOp::JMP_MdA32(s)),
                                OpGrp5::JMPF => Ok(IrOp::JMPF_MpA32O32(s)),
                                OpGrp5::PUSH => Ok(IrOp::PUSH_MdA32(s)),
                                OpGrp5::_UD7 => Ok(IrOp::UD),
                            }
                        },
                }
            }
            _ => Ok(IrOp::UD),
        }
    }

    fn decode_e0_ff<FETCH: Fetch<E = E>, E>(context: &DecoderContext, opcode: u8, is: &mut FETCH) -> (r: Result<IrOp, E>)
        ensures
            (0xe0 <= opcode <= 0xe7) && old(is).reliable() ==> if old(is).stream().len() >= imm2_size(opcode) {
                &&& r matches Ok(ir) && imm2_result(*context, opcode, old(is).stream(), old(is).eip(), ir)
                &&& final(is).stream() == old(is).stream().skip(imm2_size(opcode) as int)
            } else {
                r is Err
            },
            opcode == 0xff ==> {
                let s = old(is).stream();
                &&& old(is).reliable() ==> (r is Ok <==> match context.spec_operand(s) {
                    Some((o, n)) => n + incdec_imm_len(context.is_opsize32, opcode, o) <= s.len(),
                    None => false,
                })
                &&& r is Ok ==> {
                    let (o, n) = context.spec_operand(s)->0;
                    &&& context.spec_operand(s) is Some
                    &&& n + incdec_imm_len(context.is_opsize32, opcode, o) <= s.len()
                    &&& incdec_rel(context.is_opsize32, opcode, o, s.skip(n as int), r->Ok_0)
                    &&& final(is).stream() == s.skip((n + incdec_imm_len(context.is_opsize32, opcode, o)) as int)
                }
            },
            opcode == 0xfe ==> {
                let s = old(is).stream();
                &&& old(is).reliable() ==> (r is Ok <==> match context.spec_operand(s) {
                    Some((o, n)) => n + incdec_imm_len(context.is_opsize32, opcode, o) <= s.len(),
                    None => false,
                })
                &&& r is Ok ==> {
                    let (o, n) = context.spec_operand(s)->0;
                    &&& context.spec_operand(s) is Some
                    &&& n + incdec_imm_len(context.is_opsize32, opcode, o) <= s.len()
                    &&& incdec_rel(context.is_opsize32, opcode, o, s.skip(n as int), r->Ok_0)
                    &&& final(is).stream() == s.skip((n + incdec_imm_len(context.is_opsize32, opcode, o)) as int)
                }
            },
            opcode == 0xf6 || opcode == 0xf7 ==> {
                let s = old(is).stream();
                &&& old(is).reliable() ==> (r is Ok <==> match context.spec_operand(s) {
                    Some((o, n)) => n + grp3_imm_len(context.is_opsize32, opcode, o) <= s.len(),
                    None => false,
                })
                &&& r is Ok ==> {
                    let (o, n) = context.spec_operand(s)->0;
                    &&& context.spec_operand(s) is Some
                    &&& n + grp3_imm_len(context.is_opsize32, opcode, o) <= s.len()
                    &&& grp3_rel(context.is_opsize32, opcode, o, s.skip(n as int), r->Ok_0)
                    &&& final(is).stream() == s.skip((n + grp3_imm_len(context.is_opsize32, opcode, o)) as int)
                }
            },
            read_on(*old(is), *final(is), r is Err),
            final(is).reliable() == old(is).reliable(),
            r is Ok ==> final(is).stream().len() <= old(is).stream().len(),
            0xe0 <= opcode && operandless(*context, opcode) is Some
                ==> r == Ok::<IrOp, E>(operandless(*context, opcode)->0) && *final(is) == *old(is),
            0xe0 <= opcode && imm_size(*context, opcode) > 0 && old(is).reliable() ==> if old(is).stream().len() >= imm_size(*context, opcode) {
                &&& r matches Ok(ir) && imm_result(*context, opcode, old(is).stream(), old(is).eip(), ir)
                &&& final(is).stream() == old(is).stream().skip(imm_size(*context, opcode) as int)
            } else {
                r is Err
            },
    {
        match opcode {
            0xe0 => {
                // LOOPNE/LOOPNZ rel8
                let rel = is.fetch_i8()? as i32;
                let target = if context.is_opsize32 {
                    Offset32(is.current_eip().0.wrapping_add(rel as u32))
                } else {
                    Offset32(is.current_eip().0.wrapping_add(rel as u32) & 0x0000_ffff)
                };
                Ok(IrOp::LOOPNZ_Jv(target))
            }
            0xe1 => {
                // LOOPE/LOOPZ rel8
                let rel = is.fetch_i8()? as i32;
                let target = if context.is_opsize32 {
                    Offset32(is.current_eip().0.wrapping_add(rel as u32))
                } else {
                    Offset32(is.current_eip().0.wrapping_add(rel as u32) & 0x0000_ffff)
                };
                Ok(IrOp::LOOPZ_Jv(target))
            }
            0xe2 => {
                // LOOP rel8
                let rel = is.fetch_i8()? as i32;
                let target = if context.is_opsize32 {
                    Offset32(is.current_eip().0.wrapping_add(rel as u32))
                } else {
                    Offset32(is.current_eip().0.wrapping_add(rel as u32) & 0x0000_ffff)
                };
                Ok(IrOp::LOOP_Jv(target))
            }
            0xe3 => {
                // JECXZ/JRCXZ rel8
                let rel = is.fetch_i8()? as i32;
                let target = if context.is_opsize32 {
                    Offset32(is.current_eip().0.wrapping_add(rel as u32))
                } else {
                    Offset32(is.current_eip().0.wrapping_add(rel as u32) & 0x0000_ffff)
                };
                Ok(IrOp::JCXZ_Jv(target))
            }
            0xe4 => {
                // IN AL, imm8
                let port = is.fetch_u8()?;
                Ok(IrOp::IN_Al_Ib(port))
            }
            0xe5 => {
                // IN AX, imm16/32
                let port = is.fetch_u8()?;
                if context.is_opsize32 {
                    Ok(IrOp::IN_Ad_Ib(port))
                } else {
                    Ok(IrOp::IN_Aw_Ib(port))
                }
            }
            0xe6 => {
                // OUT imm8, AL
                let port = is.fetch_u8()?;
                Ok(IrOp::OUT_Ib_Al(port))
            }
            0xe7 => {
                // OUT imm8, AX/EAX
                let port = is.fetch_u8()?;
                if context.is_opsize32 {
                    Ok(IrOp::OUT_Ib_Ad(port))
                } else {
                    Ok(IrOp::OUT_Ib_Aw(port))
                }
            }
            0xe8 => {
                // CALL rel16/32
                let target = if context.is_opsize32 {
                    let ghost st = is.stream();
                    let rel = is.fetch_i32()?;
                    proof {
                        let x = le32(st[0], st[1], st[2], st[3]);
                        assert((x as i32) as u32 == x) by (bit_vector);
                    }
                    Offset32(is.current_eip().0.wrapping_add(rel as u32))
                } else {
                    let rel = is.fetch_i16()?;
                    Offset32(is.current_eip().0.wrapping_add(rel as u32) & 0x0000_ffff)
                };
                Ok(IrOp::CALL_Jv(target))
            }
            0xe9 => {
                // JMP rel16/32
                let target = if context.is_opsize32 {
                    let ghost st = is.stream();
                    let rel = is.fetch_i32()?;
                    proof {
                        let x = le32(st[0], st[1], st[2], st[3]);
                        assert((x as i32) as u32 == x) by (bit_vector);
                    }
                    Offset32(is.current_eip().0.wrapping_add(rel as u32))
                } else {
                    let rel = is.fetch_i16()?;
                    Offset32(is.current_eip().0.wrapping_add(rel as u32) & 0x0000_ffff)
                };
                Ok(IrOp::JMP_Jv(target))
            }
            0xea => {
                // JMP ptr16:16/32
                let offset = if context.is_opsize32 {
                    is.fetch_u32()?
                } else {
                    is.fetch_u16()? as u32
                };
                let segment = is.fetch_u16()?;
                Ok(IrOp::JMPF_Ap(SegmentSelector(segment), Offset32(offset)))
            }
            0xeb => {
                // JMP rel8
                let rel = is.fetch_i8()? as i32;
                let target = if context.is_opsize32 {
                    Offset32(is.current_eip().0.wrapping_add(rel as u32))
                } else {
                    Offset32(is.current_eip().0.wrapping_add(rel as u32) & 0x0000_ffff)
                };
                Ok(IrOp::JMP_Jv(target))
            }
            0xec => {
                // IN AL, DX
                Ok(IrOp::IN_Al_Dx)
            }
            0xed => {
                // IN AX/EAX, DX
                if context.is_opsize32 {
                    Ok(IrOp::IN_Ad_Dx)
                } else {
                    Ok(IrOp::IN_Aw_Dx)
                }
            }
            0xee => {
                // OUT DX, AL
                Ok(IrOp::OUT_Dx_Al)
            }
            0xef => {
                // OUT DX, AX/EAX
                if context.is_opsize32 {
                    Ok(IrOp::OUT_Dx_Ad)
                } else {
                    Ok(IrOp::OUT_Dx_Aw)
                }
            }
            0xf1 => {
                // INT1 (ICEBP)
                Ok(IrOp::ICEBP)
            }
            0xf4 => {
                // HLT
                Ok(IrOp::HLT)
            }
            0xf5 => {
                // CMC
                Ok(IrOp::CMC)
            }
            0xf6 => Self::decode_grp3(context, opcode, is),
            0xf7 => Self::decode_grp3(context, opcode, is),
            0xf8 => {
                // CLC
                Ok(IrOp::CLC)
            }
            0xf9 => {
                // STC
                Ok(IrOp::STC)
            }
            0xfa => {
                // CLI
                Ok(IrOp::CLI)
            }
            0xfb => {
                // STI
                Ok(IrOp::STI)
            }
            0xfc => {
                // CLD
                Ok(IrOp::CLD)
            }
            0xfd => {
                // STD
                Ok(IrOp::STD)
            }
            0xfe => Self::decode_grp4(context, opcode, is),
            0xff => Self::decode_grp5(context, opcode, is),
            _ => Ok(IrOp::UD),
        }
    }

    fn decode_0f_00_3f<FETCH: Fetch<E = E>, E>(context: &DecoderContext, second_opcode: u8, is: &mut FETCH) -> (r: Result<IrOp, E>)
        ensures
            read_on(*old(is), *final(is), r is Err),
            final(is).reliable() == old(is).reliable(),
            r is Ok ==> final(is).stream().len() <= old(is).stream().len(),
            second_opcode < 0x40 && operandless_0f(second_opcode) is Some
                ==> r == Ok::<IrOp, E>(operandless_0f(second_opcode)->0) && *final(is) == *old(is),
    {
        match second_opcode {
            0x00 => {
                // grp6
                match context.modrm_rw_sub3(is)? {
                    ModRmOperand::Reg(s, c) => {
                            let sub_op = OpGrp6::from_idx3(c);
                            match sub_op {
                                OpGrp6::SLDT => Ok(IrOp::SLDT_Rw(s)),
                                OpGrp6::STR => Ok(IrOp::STR_Rw(s)),
                                OpGrp6::LLDT => Ok(IrOp::LLDT_Rw(s)),
                                OpGrp6::LTR => Ok(IrOp::LTR_Rw(s)),
                                OpGrp6::VERR => Ok(IrOp::VERR_Rw(s)),
                                OpGrp6::VERW => Ok(IrOp::VERW_Rw(s)),
                                OpGrp6::_UD => Ok(IrOp::UD),
                            }
                        },
                    ModRmOperand::Mem16(s, c) => {
                            let sub_op = OpGrp6::from_idx3(c);
                            match sub_op {
                                OpGrp6::SLDT => Ok(IrOp::SLDT_MwA16(s)),
                                OpGrp6::STR => Ok(IrOp::STR_MwA16(s)),
                                OpGrp6::LLDT => Ok(IrOp::LLDT_MwA16(s)),
                                OpGrp6::LTR => Ok(IrOp::LTR_MwA16(s)),
                                OpGrp6::VERR => Ok(IrOp::VERR_MwA16(s)),
                                OpGrp6::VERW => Ok(IrOp::VERW_MwA16(s)),
                                OpGrp6::_UD => Ok(IrOp::UD),
                            }
                        },
                    ModRmOperand::Mem32(s, c) => {
                            let sub_op = OpGrp6::from_idx3(c);
                            match sub_op {
                                OpGrp6::SLDT => Ok(IrOp::SLDT_MwA32(s)),
                                OpGrp6::STR => Ok(IrOp::STR_MwA32(s)),
                                OpGrp6::LLDT => Ok(IrOp::LLDT_MwA32(s)),
                                OpGrp6::LTR => Ok(IrOp::LTR_MwA32(s)),
                                OpGrp6::VERR => Ok(IrOp::VERR_MwA32(s)),
                                OpGrp6::VERW => Ok(IrOp::VERW_MwA32(s)),
                                OpGrp6::_UD => Ok(IrOp::UD),
                            }
                        },
                }
            }
            0x01 => {
                // grp7
                match context.modrm_mw_sub3(is)? {
                    ModRmOperand::Reg(modrm, _) => {
                            let sub_op = OpGrp7::from_idx3(modrm.reg_index());
                            let s = GprIndex16::from_idx3(modrm.rm_index());
                            match sub_op {
                                OpGrp7::SMSW => Ok(IrOp::SMSW_Rw(s)),
                                OpGrp7::LMSW => Ok(IrOp::LMSW_Rw(s)),
                                _ => match modrm.raw() {
                                    0xd0 => Ok(IrOp::XGETBV),
                                    0xd1 => Ok(IrOp::XSETBV),
                                    0xf8 => Ok(IrOp::SWAPGS),
                                    0xf9 => Ok(IrOp::RDTSCP),
                                    _ => Ok(IrOp::UD),
                                },
                            }
                        },
                    ModRmOperand::Mem16(s, c) => {
                            let sub_op = OpGrp7::from_idx3(c);
                            match sub_op {
                                OpGrp7::SGDT => Ok(IrOp::SGDT_MpA16(s)),
                                OpGrp7::SIDT => Ok(IrOp::SIDT_MpA16(s)),
                                OpGrp7::LGDT => Ok(IrOp::LGDT_MpA16(s)),
                                OpGrp7::LIDT => Ok(IrOp::LIDT_MpA16(s)),
                                OpGrp7::SMSW => Ok(IrOp::SMSW_MwA16(s)),
                                OpGrp7::LMSW => Ok(IrOp::LMSW_MwA16(s)),
                                OpGrp7::INVLPG => Ok(IrOp::INVLPG_MwA16(s)),
                                _ => Ok(IrOp::UD),
                            }
                        },
                    ModRmOperand::Mem32(s, c) => {
                            let sub_op = OpGrp7::from_idx3(c);
                            match sub_op {
                                OpGrp7::SGDT => Ok(IrOp::SGDT_MpA32(s)),
                                OpGrp7::SIDT => Ok(IrOp::SIDT_MpA32(s)),
                                OpGrp7::LGDT => Ok(IrOp::LGDT_MpA32(s)),
                                OpGrp7::LIDT => Ok(IrOp::LIDT_MpA32(s)),
                                OpGrp7::SMSW => Ok(IrOp::SMSW_MwA32(s)),
                                OpGrp7::LMSW => Ok(IrOp::LMSW_MwA32(s)),
                                OpGrp7::INVLPG => Ok(IrOp::INVLPG_MwA32(s)),
                                _ => Ok(IrOp::UD),
                            }
                        },
                }
            }
            0x05 => {
                // SYSCALL
                Ok(IrOp::SYSCALL)
            }
            0x06 => {
                // CLTS
                Ok(IrOp::CLTS)
            }
            0x07 => {
                // SYSRET
                Ok(IrOp::SYSRET)
            }
            0x08 => {
                // INVD
                Ok(IrOp::INVD)
            }
            0x09 => {
                // WBINVD
                Ok(IrOp::WBINVD)
            }
            0x0b => {
                // UD2
                Ok(IrOp::UD)
            }
            0x0d => {
                // NOP
                match context.modrm_mv(is)? {
                    SizedOperand::Word(ModRmOperand::Reg(_, _)) => Ok(IrOp::NOP),
                    SizedOperand::Dword(ModRmOperand::Reg(_, _)) => Ok(IrOp::NOP),
                    SizedOperand::Word(ModRmOperand::Mem16(_, _)) => Ok(IrOp::NOP),
                    SizedOperand::Word(ModRmOperand::Mem32(_, _)) => Ok(IrOp::NOP),
                    SizedOperand::Dword(ModRmOperand::Mem16(_, _)) => Ok(IrOp::NOP),
                    SizedOperand::Dword(ModRmOperand::Mem32(_, _)) => Ok(IrOp::NOP),
                }
            }
            0x18..=0x1f => {
                // HINT_NOP Ev /?
                match context.modrm_rw_sub3(is)? {
                    ModRmOperand::Reg(_, _) => Ok(IrOp::NOP),
                    ModRmOperand::Mem16(_, _) => Ok(IrOp::NOP),
                    ModRmOperand::Mem32(_, _) => Ok(IrOp::NOP),
                }
            }
            0x20 => {
                // MOV r/m16/32, CR0..CR7
                let modrm = ModRM::new(is.fetch_u8()?);
                if let Some(cr) = CrIndex::from_idx3(modrm.reg_index()) {
                    let reg = GprIndex32::from_idx3(modrm.rm_index());
                    Ok(IrOp::MOV_Rd_Cr(reg, cr))
                } else {
                    Ok(IrOp::UD)
                }
            }
            0x21 => {
                // MOV CR0..CR7, r/m16/32
                let modrm = ModRM::new(is.fetch_u8()?);
                if let Some(cr) = CrIndex::from_idx3(modrm.reg_index()) {
                    let reg = GprIndex32::from_idx3(modrm.rm_index());
                    Ok(IrOp::MOV_Cr_Rd(cr, reg))
                } else {
                    Ok(IrOp::UD)
                }
            }
            0x22 => {
                // MOV r/m16/32, DR0..DR7
                match context.modrm_rd_sub3(is)? {
                    ModRmOperand::Reg(s, c) => Ok(IrOp::MOV_Rd_Dr(s, DrIndex::from_idx3(c))),
                    ModRmOperand::Mem16(_, _) => Ok(IrOp::UD),
                    ModRmOperand::Mem32(_, _) => Ok(IrOp::UD),
                }
            }
            0x23 => {
                // MOV DR0..DR7, r/m16/32
                match context.modrm_rd_sub3(is)? {
                    ModRmOperand::Reg(s, c) => Ok(IrOp::MOV_Dr_Rd(DrIndex::from_idx3(c), s)),
                    ModRmOperand::Mem16(_, _) => Ok(IrOp::UD),
                    ModRmOperand::Mem32(_, _) => Ok(IrOp::UD),
                }
            }
            0x30 => {
                // WRMSR
                Ok(IrOp::WRMSR)
            }
            0x31 => {
                // RDTSC
                Ok(IrOp::RDTSC)
            }
            0x32 => {
                // RDMSR
                Ok(IrOp::RDMSR)
            }
            0x34 => {
                // SYSENTER
                Ok(IrOp::SYSENTER)
            }
            0x35 => {
                // SYSEXIT
                Ok(IrOp::SYSEXIT)
            }
            0x38 => {
                // 3-byte opcode escape (0x0f 0x38): not decoded
                Ok(IrOp::UD)
            }
            0x3a => {
                // 3-byte opcode escape (0x0f 0x3a): not decoded
                Ok(IrOp::UD)
            }
            _ => Ok(IrOp::UD),
        }
    }

    fn decode_0f_40_9f<FETCH: Fetch<E = E>, E>(context: &DecoderContext, second_opcode: u8, is: &mut FETCH) -> (r: Result<IrOp, E>)
        ensures
            read_on(*old(is), *final(is), r is Err),
            final(is).reliable() == old(is).reliable(),
            r is Ok ==> final(is).stream().len() <= old(is).stream().len(),
            0x80 <= second_opcode <= 0x8f && old(is).reliable()
                && old(is).stream().len() >= (if context.is_opsize32 { 4int } else { 2int })
                ==> (r matches Ok(op) && is_jcc_near(*context, second_opcode, old(is).stream(), old(is).eip(), op, final(is).stream())),
    {
        match second_opcode {
            0x40..=0x4f => {
                // CMOVcc r16/32, r/m16/32
                let cc = CC::from_u8(second_opcode);
                match context.modrm_rv(is)? {
                    SizedOperand::Word(ModRmOperand::Reg(m, r)) => Ok(IrOp::CMOV_Rw_Rw(cc, r, m)),
                    SizedOperand::Word(ModRmOperand::Mem16(m, r)) => Ok(IrOp::CMOV_Rw_MwA16(cc, r, m)),
                    SizedOperand::Word(ModRmOperand::Mem32(m, r)) => Ok(IrOp::CMOV_Rw_MwA32(cc, r, m)),
                    SizedOperand::Dword(ModRmOperand::Reg(m, r)) => Ok(IrOp::CMOV_Rd_Rd(cc, r, m)),
                    SizedOperand::Dword(ModRmOperand::Mem16(m, r)) => Ok(IrOp::CMOV_Rd_MdA16(cc, r, m)),
                    SizedOperand::Dword(ModRmOperand::Mem32(m, r)) => Ok(IrOp::CMOV_Rd_MdA32(cc, r, m)),
                }
            }
            0x80..=0x8f => {
                // Jcc rel16/32
                let cc = CC::from_u8(second_opcode);
                let target = if context.is_opsize32 {
                    let ghost st = is.stream();
                    let rel = is.fetch_i32()?;
                    proof {
                        let x = le32(st[0], st[1], st[2], st[3]);
                        assert((x as i32) as u32 == x) by (bit_vector);
                    }
                    Offset32(is.current_eip().0.wrapping_add(rel as u32))
                } else {
                    let rel = is.fetch_i16()?;
                    Offset32(is.current_eip().0.wrapping_add(rel as u32) & 0x0000_ffff)
                };
                Ok(IrOp::JCC_Jv(cc, target))
            }
            0x90..=0x9f => {
                // SETcc r/m8
                let cc = CC::from_u8(second_opcode);
                match context.modrm_rb_sub3(is)? {
                    ModRmOperand::Reg(s, c) => match c {
                            Index3::I000 => Ok(IrOp::SETCC_Rb(cc, s)),
                            _ => Ok(IrOp::UD),
                        },
                    ModRmOperand::Mem16(s, c) => match c {
                            Index3::I000 => Ok(IrOp::SETCC_MbA16(cc, s)),
                            _ => Ok(IrOp::UD),
                        },
                    ModRmOperand::Mem32(s, c) => match c {
                            Index3::I000 => Ok(IrOp::SETCC_MbA32(cc, s)),
                            _ => Ok(IrOp::UD),
                        },
                }
            }
            _ => Ok(IrOp::UD),
        }
    }

    /// Decodes the two-byte opcode 0xaf: IMUL, MOVZX or MOVSX.
    #[verifier::spinoff_prover]
    #[verifier::rlimit(100)]
    fn decode_ext_af<FETCH: Fetch<E = E>, E>(context: &DecoderContext, opcode: u8, is: &mut FETCH) -> (r: Result<IrOp, E>)
        requires
            opcode == 0xaf,
        ensures
            read_on(*old(is), *final(is), r is Err),
            final(is).reliable() == old(is).reliable(),
            r is Ok ==> final(is).stream().len() <= old(is).stream().len(),
            ({
                let s = old(is).stream();
                &&& old(is).reliable() ==> (r is Ok <==> match context.spec_operand(s) {
                    Some((o, n)) => n + ext_imm_len(context.is_opsize32, opcode, o) <= s.len(),
                    None => false,
                })
                &&& r is Ok ==> {
                    let (o, n) = context.spec_operand(s)->0;
                    &&& context.spec_operand(s) is Some
                    &&& n + ext_imm_len(context.is_opsize32, opcode, o) <= s.len()
                    &&& ext_rel(context.is_opsize32, opcode, o, s.skip(n as int), r->Ok_0)
                    &&& final(is).stream() == s.skip((n + ext_imm_len(context.is_opsize32, opcode, o)) as int)
                }
            }),
    {
        match opcode {
            0xaf => {
                // IMUL r16/32, r/m16/32
                let ghost s = is.stream();
                let operand = context.modrm_rv(is)?;
                proof {
                    let (o, n) = context.spec_operand(s)->0;
                    if n + 1 <= s.len() {
                        assert(s.skip(n as int).drop_first() =~= s.skip(n + 1int));
                    }
                    if n + 2 <= s.len() {
                        assert(s.skip(n as int).skip(2) =~= s.skip(n + 2int));
                    }
                    if n + 4 <= s.len() {
                        assert(s.skip(n as int).skip(4) =~= s.skip(n + 4int));
                    }
                    if n <= s.len() {
                        assert(s.skip(n as int).skip(0) =~= s.skip(n as int));
                    }
                }
                match operand {
                    SizedOperand::Word(ModRmOperand::Reg(m, r)) => Ok(IrOp::IMUL_Rw_Rw(r, m)),
                    SizedOperand::Word(ModRmOperand::Mem16(m, r)) => Ok(IrOp::IMUL_Rw_MwA16(r, m)),
                    SizedOperand::Word(ModRmOperand::Mem32(m, r)) => Ok(IrOp::IMUL_Rw_MwA32(r, m)),
                    SizedOperand::Dword(ModRmOperand::Reg(m, r)) => Ok(IrOp::IMUL_Rd_Rd(r, m)),
                    SizedOperand::Dword(ModRmOperand::Mem16(m, r)) => Ok(IrOp::IMUL_Rd_MdA16(r, m)),
                    SizedOperand::Dword(ModRmOperand::Mem32(m, r)) => Ok(IrOp::IMUL_Rd_MdA32(r, m)),
                }
            }
            _ => Ok(IrOp::UD),
        }
    }

    /// Decodes the two-byte opcode 0xb6: IMUL, MOVZX or MOVSX.
    #[verifier::spinoff_prover]
    #[verifier::rlimit(100)]
    fn decode_ext_b6<FETCH: Fetch<E = E>, E>(context: &DecoderContext, opcode: u8, is: &mut FETCH) -> (r: Result<IrOp, E>)
        requires
            opcode == 0xb6,
        ensures
            read_on(*old(is), *final(is), r is Err),
            final(is).reliable() == old(is).reliable(),
            r is Ok ==> final(is).stream().len() <= old(is).stream().len(),
            ({
                let s = old(is).stream();
                &&& old(is).reliable() ==> (r is Ok <==> match context.spec_operand(s) {
                    Some((o, n)) => n + ext_imm_len(context.is_opsize32, opcode, o) <= s.len(),
                    None => false,
                })
                &&& r is Ok ==> {
                    let (o, n) = context.spec_operand(s)->0;
                    &&& context.spec_operand(s) is Some
                    &&& n + ext_imm_len(context.is_opsize32, opcode, o) <= s.len()
                    &&& ext_rel(context.is_opsize32, opcode, o, s.skip(n as int), r->Ok_0)
                    &&& final(is).stream() == s.skip((n + ext_imm_len(context.is_opsize32, opcode, o)) as int)
                }
            }),
    {
        match opcode {
            0xb6 => {
                // MOVZX r16/32, r/m8
                let ghost s = is.stream();
                let operand = context.modrm_rv(is)?;
                proof {
                    let (o, n) = context.spec_operand(s)->0;
                    if n + 1 <= s.len() {
                        assert(s.skip(n as int).drop_first() =~= s.skip(n + 1int));
                    }
                    if n + 2 <= s.len() {
                        assert(s.skip(n as int).skip(2) =~= s.skip(n + 2int));
                    }
                    if n + 4 <= s.len() {
                        assert(s.skip(n as int).skip(4) =~= s.skip(n + 4int));
                    }
                    if n <= s.len() {
                        assert(s.skip(n as int).skip(0) =~= s.skip(n as int));
                    }
                }
                match operand {
                    SizedOperand::Word(ModRmOperand::Reg(m, r)) => Ok(IrOp::MOVZX_Rw_Rb(r, GprIndex8::from_u8(m.to_u8()))),
                    SizedOperand::Word(ModRmOperand::Mem16(m, r)) => Ok(IrOp::MOVZX_Rw_MbA16(r, m)),
                    SizedOperand::Word(ModRmOperand::Mem32(m, r)) => Ok(IrOp::MOVZX_Rw_MbA32(r, m)),
                    SizedOperand::Dword(ModRmOperand::Reg(m, r)) => Ok(IrOp::MOVZX_Rd_Rb(r, GprIndex8::from_u8(m.to_u8()))),
                    SizedOperand::Dword(ModRmOperand::Mem16(m, r)) => Ok(IrOp::MOVZX_Rd_MbA16(r, m)),
                    SizedOperand::Dword(ModRmOperand::Mem32(m, r)) => Ok(IrOp::MOVZX_Rd_MbA32(r, m)),
                }
            }
            _ => Ok(IrOp::UD),
        }
    }

    /// Decodes the two-byte opcode 0xb7: IMUL, MOVZX or MOVSX.
    #[verifier::spinoff_prover]
    #[verifier::rlimit(100)]
    fn decode_ext_b7<FETCH: Fetch<E = E>, E>(context: &DecoderContext, opcode: u8, is: &mut FETCH) -> (r: Result<IrOp, E>)
        requires
            opcode == 0xb7,
        ensures
            read_on(*old(is), *final(is), r is Err),
            final(is).reliable() == old(is).reliable(),
            r is Ok ==> final(is).stream().len() <= old(is).stream().len(),
            ({
                let s = old(is).stream();
                &&& old(is).reliable() ==> (r is Ok <==> match context.spec_operand(s) {
                    Some((o, n)) => n + ext_imm_len(context.is_opsize32, opcode, o) <= s.len(),
                    None => false,
                })
                &&& r is Ok ==> {
                    let (o, n) = context.spec_operand(s)->0;
                    &&& context.spec_operand(s) is Some
                    &&& n + ext_imm_len(context.is_opsize32, opcode, o) <= s.len()
                    &&& ext_rel(context.is_opsize32, opcode, o, s.skip(n as int), r->Ok_0)
                    &&& final(is).stream() == s.skip((n + ext_imm_len(context.is_opsize32, opcode, o)) as int)
                }
            }),
    {
        match opcode {
            0xb7 => {
                // MOVZX r16/32, r/m16
                let ghost s = is.stream();
                let operand = context.modrm_rv(is)?;
                proof {
                    let (o, n) = context.spec_operand(s)->0;
                    if n + 1 <= s.len() {
                        assert(s.skip(n as int).drop_first() =~= s.skip(n + 1int));
                    }
                    if n + 2 <= s.len() {
                        assert(s.skip(n as int).skip(2) =~= s.skip(n + 2int));
                    }
                    if n + 4 <= s.len() {
                        assert(s.skip(n as int).skip(4) =~= s.skip(n + 4int));
                    }
                    if n <= s.len() {
                        assert(s.skip(n as int).skip(0) =~= s.skip(n as int));
                    }
                }
                match operand {
                    SizedOperand::Word(ModRmOperand::Reg(m, r)) => Ok(IrOp::MOV_Rw_Rw(r, m)),
                    SizedOperand::Word(ModRmOperand::Mem16(m, r)) => Ok(IrOp::MOV_Rw_MwA16(r, m)),
                    SizedOperand::Word(ModRmOperand::Mem32(m, r)) => Ok(IrOp::MOV_Rw_MwA32(r, m)),
                    SizedOperand::Dword(ModRmOperand::Reg(m, r)) => Ok(IrOp::MOVZX_Rd_Rw(r, m.downgrade())),
                    SizedOperand::Dword(ModRmOperand::Mem16(m, r)) => Ok(IrOp::MOVZX_Rd_MwA16(r, m)),
                    SizedOperand::Dword(ModRmOperand::Mem32(m, r)) => Ok(IrOp::MOVZX_Rd_MwA32(r, m)),
                }
            }
            _ => Ok(IrOp::UD),
        }
    }

    /// Decodes the two-byte opcode 0xbe: IMUL, MOVZX or MOVSX.
    #[verifier::spinoff_prover]
    #[verifier::rlimit(100)]
    fn decode_ext_be<FETCH: Fetch<E = E>, E>(context: &DecoderContext, opcode: u8, is: &mut FETCH) -> (r: Result<IrOp, E>)
        requires
            opcode == 0xbe,
        ensures
            read_on(*old(is), *final(is), r is Err),
            final(is).reliable() == old(is).reliable(),
            r is Ok ==> final(is).stream().len() <= old(is).stream().len(),
            ({
                let s = old(is).stream();
                &&& old(is).reliable() ==> (r is Ok <==> match context.spec_operand(s) {
                    Some((o, n)) => n + ext_imm_len(context.is_opsize32, opcode, o) <= s.len(),
                    None => false,
                })
                &&& r is Ok ==> {
                    let (o, n) = context.spec_operand(s)->0;
                    &&& context.spec_operand(s) is Some
                    &&& n + ext_imm_len(context.is_opsize32, opcode, o) <= s.len()
                    &&& ext_rel(context.is_opsize32, opcode, o, s.skip(n as int), r->Ok_0)
                    &&& final(is).stream() == s.skip((n + ext_imm_len(context.is_opsize32, opcode, o)) as int)
                }
            }),
    {
        match opcode {
            0xbe => {
                // MOVSX r16/32, r/m8
                let ghost s = is.stream();
                let operand = context.modrm_rv(is)?;
                proof {
                    let (o, n) = context.spec_operand(s)->0;
                    if n + 1 <= s.len() {
                        assert(s.skip(n as int).drop_first() =~= s.skip(n + 1int));
                    }
                    if n + 2 <= s.len() {
                        assert(s.skip(n as int).skip(2) =~= s.skip(n + 2int));
                    }
                    if n + 4 <= s.len() {
                        assert(s.skip(n as int).skip(4) =~= s.skip(n + 4int));
                    }
                    if n <= s.len() {
                        assert(s.skip(n as int).skip(0) =~= s.skip(n as int));
                    }
                }
                match operand {
                    SizedOperand::Word(ModRmOperand::Reg(m, r)) => Ok(IrOp::MOVSX_Rw_Rb(r, GprIndex8::from_u8(m.to_u8()))),
                    SizedOperand::Word(ModRmOperand::Mem16(m, r)) => Ok(IrOp::MOVSX_Rw_MbA16(r, m)),
                    SizedOperand::Word(ModRmOperand::Mem32(m, r)) => Ok(IrOp::MOVSX_Rw_MbA32(r, m)),
                    SizedOperand::Dword(ModRmOperand::Reg(m, r)) => Ok(IrOp::MOVSX_Rd_Rb(r, GprIndex8::from_u8(m.to_u8()))),
                    SizedOperand::Dword(ModRmOperand::Mem16(m, r)) => Ok(IrOp::MOVSX_Rd_MbA16(r, m)),
                    SizedOperand::Dword(ModRmOperand::Mem32(m, r)) => Ok(IrOp::MOVSX_Rd_MbA32(r, m)),
                }
            }
            _ => Ok(IrOp::UD),
        }
    }

    /// Decodes the two-byte opcode 0xbf: IMUL, MOVZX or MOVSX.
    #[verifier::spinoff_prover]
    #[verifier::rlimit(100)]
    fn decode_ext_bf<FETCH: Fetch<E = E>, E>(context: &DecoderContext, opcode: u8, is: &mut FETCH) -> (r: Result<IrOp, E>)
        requires
            opcode == 0xbf,
        ensures
            read_on(*old(is), *final(is), r is Err),
            final(is).reliable() == old(is).reliable(),
            r is Ok ==> final(is).stream().len() <= old(is).stream().len(),
            ({
                let s = old(is).stream();
                &&& old(is).reliable() ==> (r is Ok <==> match context.spec_operand(s) {
                    Some((o, n)) => n + ext_imm_len(context.is_opsize32, opcode, o) <= s.len(),
                    None => false,
                })
                &&& r is Ok ==> {
                    let (o, n) = context.spec_operand(s)->0;
                    &&& context.spec_operand(s) is Some
                    &&& n + ext_imm_len(context.is_opsize32, opcode, o) <= s.len()
                    &&& ext_rel(context.is_opsize32, opcode, o, s.skip(n as int), r->Ok_0)
                    &&& final(is).stream() == s.skip((n + ext_imm_len(context.is_opsize32, opcode, o)) as int)
                }
            }),
    {
        match opcode {
            0xbf => {
                // MOVSX r16/32, r/m16
                let ghost s = is.stream();
                let operand = context.modrm_rv(is)?;
                proof {
                    let (o, n) = context.spec_operand(s)->0;
                    if n + 1 <= s.len() {
                        assert(s.skip(n as int).drop_first() =~= s.skip(n + 1int));
                    }
                    if n + 2 <= s.len() {
                        assert(s.skip(n as int).skip(2) =~= s.skip(n + 2int));
                    }
                    if n + 4 <= s.len() {
                        assert(s.skip(n as int).skip(4) =~= s.skip(n + 4int));
                    }
                    if n <= s.len() {
                        assert(s.skip(n as int).skip(0) =~= s.skip(n as int));
                    }
                }
                match operand {
                    SizedOperand::Word(ModRmOperand::Reg(m, r)) => Ok(IrOp::MOV_Rw_Rw(r, m)),
                    SizedOperand::Word(ModRmOperand::Mem16(m, r)) => Ok(IrOp::MOV_Rw_MwA16(r, m)),
                    SizedOperand::Word(ModRmOperand::Mem32(m, r)) => Ok(IrOp::MOV_Rw_MwA32(r, m)),
                    SizedOperand::Dword(ModRmOperand::Reg(m, r)) => Ok(IrOp::MOVSX_Rd_Rw(r, m.downgrade())),
                    SizedOperand::Dword(ModRmOperand::Mem16(m, r)) => Ok(IrOp::MOVSX_Rd_MwA16(r, m)),
                    SizedOperand::Dword(ModRmOperand::Mem32(m, r)) => Ok(IrOp::MOVSX_Rd_MwA32(r, m)),
                }
            }
            _ => Ok(IrOp::UD),
        }
    }

    fn decode_0f_a0_ff<FETCH: Fetch<E = E>, E>(context: &DecoderContext, second_opcode: u8, is: &mut FETCH) -> (r: Result<IrOp, E>)
        ensures
            second_opcode == 0xbf ==> {
                let s = old(is).stream();
                &&& old(is).reliable() ==> (r is Ok <==> match context.spec_operand(s) {
                    Some((o, n)) => n + ext_imm_len(context.is_opsize32, second_opcode, o) <= s.len(),
                    None => false,
                })
                &&& r is Ok ==> {
                    let (o, n) = context.spec_operand(s)->0;
                    &&& context.spec_operand(s) is Some
                    &&& n + ext_imm_len(context.is_opsize32, second_opcode, o) <= s.len()
                    &&& ext_rel(context.is_opsize32, second_opcode, o, s.skip(n as int), r->Ok_0)
                    &&& final(is).stream() == s.skip((n + ext_imm_len(context.is_opsize32, second_opcode, o)) as int)
                }
            },
            second_opcode == 0xbe ==> {
                let s = old(is).stream();
                &&& old(is).reliable() ==> (r is Ok <==> match context.spec_operand(s) {
                    Some((o, n)) => n + ext_imm_len(context.is_opsize32, second_opcode, o) <= s.len(),
                    None => false,
                })
                &&& r is Ok ==> {
                    let (o, n) = context.spec_operand(s)->0;
                    &&& context.spec_operand(s) is Some
                    &&& n + ext_imm_len(context.is_opsize32, second_opcode, o) <= s.len()
                    &&& ext_rel(context.is_opsize32, second_opcode, o, s.skip(n as int), r->Ok_0)
                    &&& final(is).stream() == s.skip((n + ext_imm_len(context.is_opsize32, second_opcode, o)) as int)
                }
            },
            second_opcode == 0xb7 ==> {
                let s = old(is).stream();
                &&& old(is).reliable() ==> (r is Ok <==> match context.spec_operand(s) {
                    Some((o, n)) => n + ext_imm_len(context.is_opsize32, second_opcode, o) <= s.len(),
                    None => false,
                })
                &&& r is Ok ==> {
                    let (o, n) = context.spec_operand(s)->0;
                    &&& context.spec_operand(s) is Some
                    &&& n + ext_imm_len(context.is_opsize32, second_opcode, o) <= s.len()
                    &&& ext_rel(context.is_opsize32, second_opcode, o, s.skip(n as int), r->Ok_0)
                    &&& final(is).stream() == s.skip((n + ext_imm_len(context.is_opsize32, second_opcode, o)) as int)
                }
            },
            second_opcode == 0xb6 ==> {
                let s = old(is).stream();
                &&& old(is).reliable() ==> (r is Ok <==> match context.spec_operand(s) {
                    Some((o, n)) => n + ext_imm_len(context.is_opsize32, second_opcode, o) <= s.len(),
                    None => false,
                })
                &&& r is Ok ==> {
                    let (o, n) = context.spec_operand(s)->0;
                    &&& context.spec_operand(s) is Some
                    &&& n + ext_imm_len(context.is_opsize32, second_opcode, o) <= s.len()
                    &&& ext_rel(context.is_opsize32, second_opcode, o, s.skip(n as int), r->Ok_0)
                    &&& final(is).stream() == s.skip((n + ext_imm_len(context.is_opsize32, second_opcode, o)) as int)
                }
            },
            second_opcode == 0xaf ==> {
                let s = old(is).stream();
                &&& old(is).reliable() ==> (r is Ok <==> match context.spec_operand(s) {
                    Some((o, n)) => n + ext_imm_len(context.is_opsize32, second_opcode, o) <= s.len(),
                    None => false,
                })
                &&& r is Ok ==> {
                    let (o, n) = context.spec_operand(s)->0;
                    &&& context.spec_operand(s) is Some
                    &&& n + ext_imm_len(context.is_opsize32, second_opcode, o) <= s.len()
                    &&& ext_rel(context.is_opsize32, second_opcode, o, s.skip(n as int), r->Ok_0)
                    &&& final(is).stream() == s.skip((n + ext_imm_len(context.is_opsize32, second_opcode, o)) as int)
                }
            },
            read_on(*old(is), *final(is), r is Err),
            final(is).reliable() == old(is).reliable(),
            r is Ok ==> final(is).stream().len() <= old(is).stream().len(),
            0xa0 <= second_opcode && operandless_0f(second_opcode) is Some
                ==> r == Ok::<IrOp, E>(operandless_0f(second_opcode)->0) && *final(is) == *old(is),
    {
        match second_opcode {
            0xa0 => {
                // PUSH FS
                Ok(IrOp::PUSH_Sr(FS))
            }
            0xa1 => {
                // POP FS
                Ok(IrOp::POP_Sr(FS))
            }
            0xa2 => {
                // CPUID
                Ok(IrOp::CPUID)
            }
            0xa3 => {
                // BT r/m16/32, r16/32
                match context.modrm_rv(is)? {
                    SizedOperand::Word(ModRmOperand::Reg(s, r)) => Ok(IrOp::BT_Rw_Rw(s, r)),
                    SizedOperand::Word(ModRmOperand::Mem16(s, r)) => Ok(IrOp::BT_MwA16_Rw(s, r)),
                    SizedOperand::Word(ModRmOperand::Mem32(s, r)) => Ok(IrOp::BT_MwA32_Rw(s, r)),
                    SizedOperand::Dword(ModRmOperand::Reg(s, r)) => Ok(IrOp::BT_Rd_Rd(s, r)),
                    SizedOperand::Dword(ModRmOperand::Mem16(s, r)) => Ok(IrOp::BT_MdA16_Rd(s, r)),
                    SizedOperand::Dword(ModRmOperand::Mem32(s, r)) => Ok(IrOp::BT_MdA32_Rd(s, r)),
                }
            }
            0xa4 => {
                // SHLD r/m16/32, r16/32, imm8
                match context.modrm_rv_ib(is)? {
                    (SizedOperand::Word(ModRmOperand::Reg(s, r)), imm) => Ok(IrOp::SHLD_Rw_Rw_Ib(s, r, imm)),
                    (SizedOperand::Word(ModRmOperand::Mem16(s, r)), imm) => Ok(IrOp::SHLD_MwA16_Rw_Ib(s, r, imm)),
                    (SizedOperand::Word(ModRmOperand::Mem32(s, r)), imm) => Ok(IrOp::SHLD_MwA32_Rw_Ib(s, r, imm)),
                    (SizedOperand::Dword(ModRmOperand::Reg(s, r)), imm) => Ok(IrOp::SHLD_Rd_Rd_Ib(s, r, imm)),
                    (SizedOperand::Dword(ModRmOperand::Mem16(s, r)), imm) => Ok(IrOp::SHLD_MdA16_Rd_Ib(s, r, imm)),
                    (SizedOperand::Dword(ModRmOperand::Mem32(s, r)), imm) => Ok(IrOp::SHLD_MdA32_Rd_Ib(s, r, imm)),
                }
            }
            0xa5 => {
                // SHLD r/m16/32, r16/32, cl
                match context.modrm_rv(is)? {
                    SizedOperand::Word(ModRmOperand::Reg(s, r)) => Ok(IrOp::SHLD_Rw_Rw_Cl(s, r)),
                    SizedOperand::Word(ModRmOperand::Mem16(s, r)) => Ok(IrOp::SHLD_MwA16_Rw_Cl(s, r)),
                    SizedOperand::Word(ModRmOperand::Mem32(s, r)) => Ok(IrOp::SHLD_MwA32_Rw_Cl(s, r)),
                    SizedOperand::Dword(ModRmOperand::Reg(s, r)) => Ok(IrOp::SHLD_Rd_Rd_Cl(s, r)),
                    SizedOperand::Dword(ModRmOperand::Mem16(s, r)) => Ok(IrOp::SHLD_MdA16_Rd_Cl(s, r)),
                    SizedOperand::Dword(ModRmOperand::Mem32(s, r)) => Ok(IrOp::SHLD_MdA32_Rd_Cl(s, r)),
                }
            }
            0xa8 => {
                // PUSH GS
                Ok(IrOp::PUSH_Sr(GS))
            }
            0xa9 => {
                // POP GS
                Ok(IrOp::POP_Sr(GS))
            }
            0xaa => {
                // RSM
                Ok(IrOp::RSM)
            }
            0xab => {
                // BTS r/m16/32, r16/32
                match context.modrm_rv(is)? {
                    SizedOperand::Word(ModRmOperand::Reg(s, r)) => Ok(IrOp::BTS_Rw_Rw(s, r)),
                    SizedOperand::Word(ModRmOperand::Mem16(s, r)) => Ok(IrOp::BTS_MwA16_Rw(s, r)),
                    SizedOperand::Word(ModRmOperand::Mem32(s, r)) => Ok(IrOp::BTS_MwA32_Rw(s, r)),
                    SizedOperand::Dword(ModRmOperand::Reg(s, r)) => Ok(IrOp::BTS_Rd_Rd(s, r)),
                    SizedOperand::Dword(ModRmOperand::Mem16(s, r)) => Ok(IrOp::BTS_MdA16_Rd(s, r)),
                    SizedOperand::Dword(ModRmOperand::Mem32(s, r)) => Ok(IrOp::BTS_MdA32_Rd(s, r)),
                }
            }
            0xac => {
                // SHRD r/m16/32, r16/32, imm8
                match context.modrm_rv_ib(is)? {
                    (SizedOperand::Word(ModRmOperand::Reg(s, r)), imm) => Ok(IrOp::SHRD_Rw_Rw_Ib(s, r, imm)),
                    (SizedOperand::Word(ModRmOperand::Mem16(s, r)), imm) => Ok(IrOp::SHRD_MwA16_Rw_Ib(s, r, imm)),
                    (SizedOperand::Word(ModRmOperand::Mem32(s, r)), imm) => Ok(IrOp::SHRD_MwA32_Rw_Ib(s, r, imm)),
                    (SizedOperand::Dword(ModRmOperand::Reg(s, r)), imm) => Ok(IrOp::SHRD_Rd_Rd_Ib(s, r, imm)),
                    (SizedOperand::Dword(ModRmOperand::Mem16(s, r)), imm) => Ok(IrOp::SHRD_MdA16_Rd_Ib(s, r, imm)),
                    (SizedOperand::Dword(ModRmOperand::Mem32(s, r)), imm) => Ok(IrOp::SHRD_MdA32_Rd_Ib(s, r, imm)),
                }
            }
            0xad => {
                // SHRD r/m16/32, r16/32, cl
                match context.modrm_rv(is)? {
                    SizedOperand::Word(ModRmOperand::Reg(s, r)) => Ok(IrOp::SHRD_Rw_Rw_Cl(s, r)),
                    SizedOperand::Word(ModRmOperand::Mem16(s, r)) => Ok(IrOp::SHRD_MwA16_Rw_Cl(s, r)),
                    SizedOperand::Word(ModRmOperand::Mem32(s, r)) => Ok(IrOp::SHRD_MwA32_Rw_Cl(s, r)),
                    SizedOperand::Dword(ModRmOperand::Reg(s, r)) => Ok(IrOp::SHRD_Rd_Rd_Cl(s, r)),
                    SizedOperand::Dword(ModRmOperand::Mem16(s, r)) => Ok(IrOp::SHRD_MdA16_Rd_Cl(s, r)),
                    SizedOperand::Dword(ModRmOperand::Mem32(s, r)) => Ok(IrOp::SHRD_MdA32_Rd_Cl(s, r)),
                }
            }
            0xaf => Self::decode_ext_af(context, second_opcode, is),
            0xb0 => {
                // CMPXCHG r/m8, reg8
                match context.modrm_rb(is)? {
                    ModRmOperand::Reg(s, r) => Ok(IrOp::CMPXCHG_Rb_Rb(s, r)),
                    ModRmOperand::Mem16(s, r) => Ok(IrOp::CMPXCHG_MbA16_Rb(s, r)),
                    ModRmOperand::Mem32(s, r) => Ok(IrOp::CMPXCHG_MbA32_Rb(s, r)),
                }
            }
            0xb1 => {
                // CMPXCHG r/m16/32, reg16/32
                match context.modrm_rv(is)? {
                    SizedOperand::Word(ModRmOperand::Reg(s, r)) => Ok(IrOp::CMPXCHG_Rw_Rw(s, r)),
                    SizedOperand::Word(ModRmOperand::Mem16(s, r)) => Ok(IrOp::CMPXCHG_MwA16_Rw(s, r)),
                    SizedOperand::Word(ModRmOperand::Mem32(s, r)) => Ok(IrOp::CMPXCHG_MwA32_Rw(s, r)),
                    SizedOperand::Dword(ModRmOperand::Reg(s, r)) => Ok(IrOp::CMPXCHG_Rd_Rd(s, r)),
                    SizedOperand::Dword(ModRmOperand::Mem16(s, r)) => Ok(IrOp::CMPXCHG_MdA16_Rd(s, r)),
                    SizedOperand::Dword(ModRmOperand::Mem32(s, r)) => Ok(IrOp::CMPXCHG_MdA32_Rd(s, r)),
                }
            }
            0xb2 => {
                // LSS r16/32, m16:16/32
                match context.modrm_mv(is)? {
                    SizedOperand::Word(ModRmOperand::Reg(_, _)) => Ok(IrOp::UD),
                    SizedOperand::Dword(ModRmOperand::Reg(_, _)) => Ok(IrOp::UD),
                    SizedOperand::Word(ModRmOperand::Mem16(m, r)) => Ok(IrOp::LSS_Rw_MwA16(r, m)),
                    SizedOperand::Word(ModRmOperand::Mem32(m, r)) => Ok(IrOp::LSS_Rw_MwA32(r, m)),
                    SizedOperand::Dword(ModRmOperand::Mem16(m, r)) => Ok(IrOp::LSS_Rd_MdA16(r, m)),
                    SizedOperand::Dword(ModRmOperand::Mem32(m, r)) => Ok(IrOp::LSS_Rd_MdA32(r, m)),
                }
            }
            0xb3 => {
                // BTR r/m16/32, r16/32
                match context.modrm_rv(is)? {
                    SizedOperand::Word(ModRmOperand::Reg(s, r)) => Ok(IrOp::BTR_Rw_Rw(s, r)),
                    SizedOperand::Word(ModRmOperand::Mem16(s, r)) => Ok(IrOp::BTR_MwA16_Rw(s, r)),
                    SizedOperand::Word(ModRmOperand::Mem32(s, r)) => Ok(IrOp::BTR_MwA32_Rw(s, r)),
                    SizedOperand::Dword(ModRmOperand::Reg(s, r)) => Ok(IrOp::BTR_Rd_Rd(s, r)),
                    SizedOperand::Dword(ModRmOperand::Mem16(s, r)) => Ok(IrOp::BTR_MdA16_Rd(s, r)),
                    SizedOperand::Dword(ModRmOperand::Mem32(s, r)) => Ok(IrOp::BTR_MdA32_Rd(s, r)),
                }
            }
            0xb4 => {
                // LFS r16/32, m16:16/32
                match context.modrm_mv(is)? {
                    SizedOperand::Word(ModRmOperand::Reg(_, _)) => Ok(IrOp::UD),
                    SizedOperand::Dword(ModRmOperand::Reg(_, _)) => Ok(IrOp::UD),
                    SizedOperand::Word(ModRmOperand::Mem16(m, r)) => Ok(IrOp::LFS_Rw_MwA16(r, m)),
                    SizedOperand::Word(ModRmOperand::Mem32(m, r)) => Ok(IrOp::LFS_Rw_MwA32(r, m)),
                    SizedOperand::Dword(ModRmOperand::Mem16(m, r)) => Ok(IrOp::LFS_Rd_MdA16(r, m)),
                    SizedOperand::Dword(ModRmOperand::Mem32(m, r)) => Ok(IrOp::LFS_Rd_MdA32(r, m)),
                }
            }
            0xb5 => {
                // LGS r16/32, m16:16/32
                match context.modrm_mv(is)? {
                    SizedOperand::Word(ModRmOperand::Reg(_, _)) => Ok(IrOp::UD),
                    SizedOperand::Dword(ModRmOperand::Reg(_, _)) => Ok(IrOp::UD),
                    SizedOperand::Word(ModRmOperand::Mem16(m, r)) => Ok(IrOp::LGS_Rw_MwA16(r, m)),
                    SizedOperand::Word(ModRmOperand::Mem32(m, r)) => Ok(IrOp::LGS_Rw_MwA32(r, m)),
                    SizedOperand::Dword(ModRmOperand::Mem16(m, r)) => Ok(IrOp::LGS_Rd_MdA16(r, m)),
                    SizedOperand::Dword(ModRmOperand::Mem32(m, r)) => Ok(IrOp::LGS_Rd_MdA32(r, m)),
                }
            }
            0xb6 => Self::decode_ext_b6(context, second_opcode, is),
            0xb7 => Self::decode_ext_b7(context, second_opcode, is),
            0xb8 => {
                if matches!(context.prefix_fx, PrefixFx::F3_REPZ) {
                    // POPCNT r16/32, r/m16/32
                    match context.modrm_rv(is)? {
                        SizedOperand::Word(ModRmOperand::Reg(m, r)) => Ok(IrOp::POPCNT_Rw_Rw(r, m)),
                        SizedOperand::Word(ModRmOperand::Mem16(m, r)) => Ok(IrOp::POPCNT_Rw_MwA16(r, m)),
                        SizedOperand::Word(ModRmOperand::Mem32(m, r)) => Ok(IrOp::POPCNT_Rw_MwA32(r, m)),
                        SizedOperand::Dword(ModRmOperand::Reg(m, r)) => Ok(IrOp::POPCNT_Rd_Rd(r, m)),
                        SizedOperand::Dword(ModRmOperand::Mem16(m, r)) => Ok(IrOp::POPCNT_Rd_MdA16(r, m)),
                        SizedOperand::Dword(ModRmOperand::Mem32(m, r)) => Ok(IrOp::POPCNT_Rd_MdA32(r, m)),
                    }
                } else {
                    // JMPE?
                    Ok(IrOp::UD)
                }
            }
            0xb9 => {
                // UD r/m/ reg
                match context.modrm_rw_sub3(is)? {
                    ModRmOperand::Reg(_, _) => Ok(IrOp::UD),
                    ModRmOperand::Mem16(_, _) => Ok(IrOp::UD),
                    ModRmOperand::Mem32(_, _) => Ok(IrOp::UD),
                }
            }
            0xba => {
                // grp8 r/m16/32, imm8
                match context.modrm_rv_sub3(is)? {
                    SizedOperand::Word(ModRmOperand::Reg(s, c)) => {
                            let sub_op = OpGrp8::from_idx3(c);
                            let imm = is.fetch_u8()?;
                            match sub_op {
                                OpGrp8::BT => Ok(IrOp::BT_Rw_Ib(s, imm)),
                                OpGrp8::BTS => Ok(IrOp::BTS_Rw_Ib(s, imm)),
                                OpGrp8::BTR => Ok(IrOp::BTR_Rw_Ib(s, imm)),
                                OpGrp8::BTC => Ok(IrOp::BTC_Rw_Ib(s, imm)),
                                _ => Ok(IrOp::UD),
                            }
                        },
                    SizedOperand::Word(ModRmOperand::Mem16(s, c)) => {
                            let sub_op = OpGrp8::from_idx3(c);
                            let imm = is.fetch_u8()?;
                            match sub_op {
                                OpGrp8::BT => Ok(IrOp::BT_MwA16_Ib(s, imm)),
                                OpGrp8::BTS => Ok(IrOp::BTS_MwA16_Ib(s, imm)),
                                OpGrp8::BTR => Ok(IrOp::BTR_MwA16_Ib(s, imm)),
                                OpGrp8::BTC => Ok(IrOp::BTC_MwA16_Ib(s, imm)),
                                _ => Ok(IrOp::UD),
                            }
                        },
                    SizedOperand::Word(ModRmOperand::Mem32(s, c)) => {
                            let sub_op = OpGrp8::from_idx3(c);
                            let imm = is.fetch_u8()?;
                            match sub_op {
                                OpGrp8::BT => Ok(IrOp::BT_MwA32_Ib(s, imm)),
                                OpGrp8::BTS => Ok(IrOp::BTS_MwA32_Ib(s, imm)),
                                OpGrp8::BTR => Ok(IrOp::BTR_MwA32_Ib(s, imm)),
                                OpGrp8::BTC => Ok(IrOp::BTC_MwA32_Ib(s, imm)),
                                _ => Ok(IrOp::UD),
                            }
                        },
                    SizedOperand::Dword(ModRmOperand::Reg(s, c)) => {
                            let sub_op = OpGrp8::from_idx3(c);
                            let imm = is.fetch_u8()?;
                            match sub_op {
                                OpGrp8::BT => Ok(IrOp::BT_Rd_Ib(s, imm)),
                                OpGrp8::BTS => Ok(IrOp::BTS_Rd_Ib(s, imm)),
                                OpGrp8::BTR => Ok(IrOp::BTR_Rd_Ib(s, imm)),
                                OpGrp8::BTC => Ok(IrOp::BTC_Rd_Ib(s, imm)),
                                _ => Ok(IrOp::UD),
                            }
                        },
                    SizedOperand::Dword(ModRmOperand::Mem16(s, c)) => {
                            let sub_op = OpGrp8::from_idx3(c);
                            let imm = is.fetch_u8()?;
                            match sub_op {
                                OpGrp8::BT => Ok(IrOp::BT_MdA16_Ib(s, imm)),
                                OpGrp8::BTS => Ok(IrOp::BTS_MdA16_Ib(s, imm)),
                                OpGrp8::BTR => Ok(IrOp::BTR_MdA16_Ib(s, imm)),
                                OpGrp8::BTC => Ok(IrOp::BTC_MdA16_Ib(s, imm)),
                                _ => Ok(IrOp::UD),
                            }
                        },
                    SizedOperand::Dword(ModRmOperand::Mem32(s, c)) => {
                            let sub_op = OpGrp8::from_idx3(c);
                            let imm = is.fetch_u8()?;
                            match sub_op {
                                OpGrp8::BT => Ok(IrOp::BT_MdA32_Ib(s, imm)),
                                OpGrp8::BTS => Ok(IrOp::BTS_MdA32_Ib(s, imm)),
                                OpGrp8::BTR => Ok(IrOp::BTR_MdA32_Ib(s, imm)),
                                OpGrp8::BTC => Ok(IrOp::BTC_MdA32_Ib(s, imm)),
                                _ => Ok(IrOp::UD),
                            }
                        },
                }
            }
            0xbb => {
                // BTC r/m16/32, r16/32
                match context.modrm_rv(is)? {
                    SizedOperand::Word(ModRmOperand::Reg(s, r)) => Ok(IrOp::BTC_Rw_Rw(s, r)),
                    SizedOperand::Word(ModRmOperand::Mem16(s, r)) => Ok(IrOp::BTC_MwA16_Rw(s, r)),
                    SizedOperand::Word(ModRmOperand::Mem32(s, r)) => Ok(IrOp::BTC_MwA32_Rw(s, r)),
                    SizedOperand::Dword(ModRmOperand::Reg(s, r)) => Ok(IrOp::BTC_Rd_Rd(s, r)),
                    SizedOperand::Dword(ModRmOperand::Mem16(s, r)) => Ok(IrOp::BTC_MdA16_Rd(s, r)),
                    SizedOperand::Dword(ModRmOperand::Mem32(s, r)) => Ok(IrOp::BTC_MdA32_Rd(s, r)),
                }
            }
            0xbc => {
                // BSF r16/32, r/m16/32
                match context.modrm_rv(is)? {
                    SizedOperand::Word(ModRmOperand::Reg(m, r)) => Ok(IrOp::BSF_Rw_Rw(r, m)),
                    SizedOperand::Word(ModRmOperand::Mem16(m, r)) => Ok(IrOp::BSF_Rw_MwA16(r, m)),
                    SizedOperand::Word(ModRmOperand::Mem32(m, r)) => Ok(IrOp::BSF_Rw_MwA32(r, m)),
                    SizedOperand::Dword(ModRmOperand::Reg(m, r)) => Ok(IrOp::BSF_Rd_Rd(r, m)),
                    SizedOperand::Dword(ModRmOperand::Mem16(m, r)) => Ok(IrOp::BSF_Rd_MdA16(r, m)),
                    SizedOperand::Dword(ModRmOperand::Mem32(m, r)) => Ok(IrOp::BSF_Rd_MdA32(r, m)),
                }
            }
            0xbd => {
                // BSR r16/32, r/m16/32
                match context.modrm_rv(is)? {
                    SizedOperand::Word(ModRmOperand::Reg(m, r)) => Ok(IrOp::BSR_Rw_Rw(r, m)),
                    SizedOperand::Word(ModRmOperand::Mem16(m, r)) => Ok(IrOp::BSR_Rw_MwA16(r, m)),
                    SizedOperand::Word(ModRmOperand::Mem32(m, r)) => Ok(IrOp::BSR_Rw_MwA32(r, m)),
                    SizedOperand::Dword(ModRmOperand::Reg(m, r)) => Ok(IrOp::BSR_Rd_Rd(r, m)),
                    SizedOperand::Dword(ModRmOperand::Mem16(m, r)) => Ok(IrOp::BSR_Rd_MdA16(r, m)),
                    SizedOperand::Dword(ModRmOperand::Mem32(m, r)) => Ok(IrOp::BSR_Rd_MdA32(r, m)),
                }
            }
            0xbe => Self::decode_ext_be(context, second_opcode, is),
            0xbf => Self::decode_ext_bf(context, second_opcode, is),
            0xc0 => {
                // XADD r/m8, r8
                match context.modrm_rb(is)? {
                    ModRmOperand::Reg(s, r) => Ok(IrOp::XADD_Rb_Rb(s, r)),
                    ModRmOperand::Mem16(s, r) => Ok(IrOp::XADD_MbA16_Rb(s, r)),
                    ModRmOperand::Mem32(s, r) => Ok(IrOp::XADD_MbA32_Rb(s, r)),
                }
            }
            0xc1 => {
                // XADD r/m16/32, r16/32
                match context.modrm_rv(is)? {
                    SizedOperand::Word(ModRmOperand::Reg(s, r)) => Ok(IrOp::XADD_Rw_Rw(s, r)),
                    SizedOperand::Word(ModRmOperand::Mem16(s, r)) => Ok(IrOp::XADD_MwA16_Rw(s, r)),
                    SizedOperand::Word(ModRmOperand::Mem32(s, r)) => Ok(IrOp::XADD_MwA32_Rw(s, r)),
                    SizedOperand::Dword(ModRmOperand::Reg(s, r)) => Ok(IrOp::XADD_Rd_Rd(s, r)),
                    SizedOperand::Dword(ModRmOperand::Mem16(s, r)) => Ok(IrOp::XADD_MdA16_Rd(s, r)),
                    SizedOperand::Dword(ModRmOperand::Mem32(s, r)) => Ok(IrOp::XADD_MdA32_Rd(s, r)),
                }
            }
            0xc8..=0xcf => {
                // BSWAP r32
                let reg = GprIndex32::from_u8(second_opcode);
                Ok(IrOp::BSWAP_Rd(reg))
            }
            _ => Ok(IrOp::UD),
        }
    }

}

} // verus!
