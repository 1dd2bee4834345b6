//! The intermediate representation of decoded instructions.

use vstd::prelude::*;
use crate::ir86::encoding::{CC, CrIndex, DrIndex, GprIndex16, GprIndex32, GprIndex8, MemOpr16, MemOpr32, SrIndex};
use crate::ir86::types::{Offset32, SegmentSelector};

verus! {

/// A decoded instruction.
///
/// A variant is named after its mnemonic and the kinds of its operands:
/// `Rb`, `Rw` and `Rd` are 8-, 16- and 32-bit registers; `Mb`, `Mw`, `Md`
/// and `Mp` are memory operands with 16-bit (`A16`) or 32-bit (`A32`)
/// addressing; `Ib`, `Iw` and `Id` are immediates; `Jv` is a branch target.
/// String instructions carry their source segment and whether they use
/// 32-bit addressing.
#[allow(non_camel_case_types)]
#[derive(Debug, Clone, Copy, PartialEq, Eq, Structural)]
pub enum IrOp {
    /// `AAA`
    AAA,
    /// `AAD imm8`
    AAD_Ib(u8),
    /// `AAM imm8`
    AAM_Ib(u8),
    /// `AAS`
    AAS,
    /// `ADC mb16, imm8`
    ADC_MbA16_Ib(MemOpr16, u8),
    /// `ADC mb16, r8`
    ADC_MbA16_Rb(MemOpr16, GprIndex8),
    /// `ADC mb32, imm8`
    ADC_MbA32_Ib(MemOpr32, u8),
    /// `ADC mb32, r8`
    ADC_MbA32_Rb(MemOpr32, GprIndex8),
    /// `ADC md16, imm32`
    ADC_MdA16_Id(MemOpr16, u32),
    /// `ADC md16, r32`
    ADC_MdA16_Rd(MemOpr16, GprIndex32),
    /// `ADC md32, imm32`
    ADC_MdA32_Id(MemOpr32, u32),
    /// `ADC md32, r32`
    ADC_MdA32_Rd(MemOpr32, GprIndex32),
    /// `ADC mw16, imm16`
    ADC_MwA16_Iw(MemOpr16, u16),
    /// `ADC mw16, r16`
    ADC_MwA16_Rw(MemOpr16, GprIndex16),
    /// `ADC mw32, imm16`
    ADC_MwA32_Iw(MemOpr32, u16),
    /// `ADC mw32, r16`
    ADC_MwA32_Rw(MemOpr32, GprIndex16),
    /// `ADC r8, imm8`
    ADC_Rb_Ib(GprIndex8, u8),
    /// `ADC r8, mb16`
    ADC_Rb_MbA16(GprIndex8, MemOpr16),
    /// `ADC r8, mb32`
    ADC_Rb_MbA32(GprIndex8, MemOpr32),
    /// `ADC r8, r8`
    ADC_Rb_Rb(GprIndex8, GprIndex8),
    /// `ADC r32, imm32`
    ADC_Rd_Id(GprIndex32, u32),
    /// `ADC r32, md16`
    ADC_Rd_MdA16(GprIndex32, MemOpr16),
    /// `ADC r32, md32`
    ADC_Rd_MdA32(GprIndex32, MemOpr32),
    /// `ADC r32, r32`
    ADC_Rd_Rd(GprIndex32, GprIndex32),
    /// `ADC r16, imm16`
    ADC_Rw_Iw(GprIndex16, u16),
    /// `ADC r16, mw16`
    ADC_Rw_MwA16(GprIndex16, MemOpr16),
    /// `ADC r16, mw32`
    ADC_Rw_MwA32(GprIndex16, MemOpr32),
    /// `ADC r16, r16`
    ADC_Rw_Rw(GprIndex16, GprIndex16),
    /// `ADD mb16, imm8`
    ADD_MbA16_Ib(MemOpr16, u8),
    /// `ADD mb16, r8`
    ADD_MbA16_Rb(MemOpr16, GprIndex8),
    /// `ADD mb32, imm8`
    ADD_MbA32_Ib(MemOpr32, u8),
    /// `ADD mb32, r8`
    ADD_MbA32_Rb(MemOpr32, GprIndex8),
    /// `ADD md16, imm32`
    ADD_MdA16_Id(MemOpr16, u32),
    /// `ADD md16, r32`
    ADD_MdA16_Rd(MemOpr16, GprIndex32),
    /// `ADD md32, imm32`
    ADD_MdA32_Id(MemOpr32, u32),
    /// `ADD md32, r32`
    ADD_MdA32_Rd(MemOpr32, GprIndex32),
    /// `ADD mw16, imm16`
    ADD_MwA16_Iw(MemOpr16, u16),
    /// `ADD mw16, r16`
    ADD_MwA16_Rw(MemOpr16, GprIndex16),
    /// `ADD mw32, imm16`
    ADD_MwA32_Iw(MemOpr32, u16),
    /// `ADD mw32, r16`
    ADD_MwA32_Rw(MemOpr32, GprIndex16),
    /// `ADD r8, imm8`
    ADD_Rb_Ib(GprIndex8, u8),
    /// `ADD r8, mb16`
    ADD_Rb_MbA16(GprIndex8, MemOpr16),
    /// `ADD r8, mb32`
    ADD_Rb_MbA32(GprIndex8, MemOpr32),
    /// `ADD r8, r8`
    ADD_Rb_Rb(GprIndex8, GprIndex8),
    /// `ADD r32, imm32`
    ADD_Rd_Id(GprIndex32, u32),
    /// `ADD r32, md16`
    ADD_Rd_MdA16(GprIndex32, MemOpr16),
    /// `ADD r32, md32`
    ADD_Rd_MdA32(GprIndex32, MemOpr32),
    /// `ADD r32, r32`
    ADD_Rd_Rd(GprIndex32, GprIndex32),
    /// `ADD r16, imm16`
    ADD_Rw_Iw(GprIndex16, u16),
    /// `ADD r16, mw16`
    ADD_Rw_MwA16(GprIndex16, MemOpr16),
    /// `ADD r16, mw32`
    ADD_Rw_MwA32(GprIndex16, MemOpr32),
    /// `ADD r16, r16`
    ADD_Rw_Rw(GprIndex16, GprIndex16),
    /// `AND mb16, imm8`
    AND_MbA16_Ib(MemOpr16, u8),
    /// `AND mb16, r8`
    AND_MbA16_Rb(MemOpr16, GprIndex8),
    /// `AND mb32, imm8`
    AND_MbA32_Ib(MemOpr32, u8),
    /// `AND mb32, r8`
    AND_MbA32_Rb(MemOpr32, GprIndex8),
    /// `AND md16, imm32`
    AND_MdA16_Id(MemOpr16, u32),
    /// `AND md16, r32`
    AND_MdA16_Rd(MemOpr16, GprIndex32),
    /// `AND md32, imm32`
    AND_MdA32_Id(MemOpr32, u32),
    /// `AND md32, r32`
    AND_MdA32_Rd(MemOpr32, GprIndex32),
    /// `AND mw16, imm16`
    AND_MwA16_Iw(MemOpr16, u16),
    /// `AND mw16, r16`
    AND_MwA16_Rw(MemOpr16, GprIndex16),
    /// `AND mw32, imm16`
    AND_MwA32_Iw(MemOpr32, u16),
    /// `AND mw32, r16`
    AND_MwA32_Rw(MemOpr32, GprIndex16),
    /// `AND r8, imm8`
    AND_Rb_Ib(GprIndex8, u8),
    /// `AND r8, mb16`
    AND_Rb_MbA16(GprIndex8, MemOpr16),
    /// `AND r8, mb32`
    AND_Rb_MbA32(GprIndex8, MemOpr32),
    /// `AND r8, r8`
    AND_Rb_Rb(GprIndex8, GprIndex8),
    /// `AND r32, imm32`
    AND_Rd_Id(GprIndex32, u32),
    /// `AND r32, md16`
    AND_Rd_MdA16(GprIndex32, MemOpr16),
    /// `AND r32, md32`
    AND_Rd_MdA32(GprIndex32, MemOpr32),
    /// `AND r32, r32`
    AND_Rd_Rd(GprIndex32, GprIndex32),
    /// `AND r16, imm16`
    AND_Rw_Iw(GprIndex16, u16),
    /// `AND r16, mw16`
    AND_Rw_MwA16(GprIndex16, MemOpr16),
    /// `AND r16, mw32`
    AND_Rw_MwA32(GprIndex16, MemOpr32),
    /// `AND r16, r16`
    AND_Rw_Rw(GprIndex16, GprIndex16),
    /// `ARPL mw16, r16`
    ARPL_MwA16_Rw(MemOpr16, GprIndex16),
    /// `ARPL mw32, r16`
    ARPL_MwA32_Rw(MemOpr32, GprIndex16),
    /// `ARPL r16, r16`
    ARPL_Rw_Rw(GprIndex16, GprIndex16),
    /// `BOUND r32, md16`
    BOUND_Rd_MdA16(GprIndex32, MemOpr16),
    /// `BOUND r32, md32`
    BOUND_Rd_MdA32(GprIndex32, MemOpr32),
    /// `BOUND r16, mw16`
    BOUND_Rw_MwA16(GprIndex16, MemOpr16),
    /// `BOUND r16, mw32`
    BOUND_Rw_MwA32(GprIndex16, MemOpr32),
    /// `BSF r32, md16`
    BSF_Rd_MdA16(GprIndex32, MemOpr16),
    /// `BSF r32, md32`
    BSF_Rd_MdA32(GprIndex32, MemOpr32),
    /// `BSF r32, r32`
    BSF_Rd_Rd(GprIndex32, GprIndex32),
    /// `BSF r16, mw16`
    BSF_Rw_MwA16(GprIndex16, MemOpr16),
    /// `BSF r16, mw32`
    BSF_Rw_MwA32(GprIndex16, MemOpr32),
    /// `BSF r16, r16`
    BSF_Rw_Rw(GprIndex16, GprIndex16),
    /// `BSR r32, md16`
    BSR_Rd_MdA16(GprIndex32, MemOpr16),
    /// `BSR r32, md32`
    BSR_Rd_MdA32(GprIndex32, MemOpr32),
    /// `BSR r32, r32`
    BSR_Rd_Rd(GprIndex32, GprIndex32),
    /// `BSR r16, mw16`
    BSR_Rw_MwA16(GprIndex16, MemOpr16),
    /// `BSR r16, mw32`
    BSR_Rw_MwA32(GprIndex16, MemOpr32),
    /// `BSR r16, r16`
    BSR_Rw_Rw(GprIndex16, GprIndex16),
    /// `BSWAP r32`
    BSWAP_Rd(GprIndex32),
    /// `BTC md16, imm8`
    BTC_MdA16_Ib(MemOpr16, u8),
    /// `BTC md16, r32`
    BTC_MdA16_Rd(MemOpr16, GprIndex32),
    /// `BTC md32, imm8`
    BTC_MdA32_Ib(MemOpr32, u8),
    /// `BTC md32, r32`
    BTC_MdA32_Rd(MemOpr32, GprIndex32),
    /// `BTC mw16, imm8`
    BTC_MwA16_Ib(MemOpr16, u8),
    /// `BTC mw16, r16`
    BTC_MwA16_Rw(MemOpr16, GprIndex16),
    /// `BTC mw32, imm8`
    BTC_MwA32_Ib(MemOpr32, u8),
    /// `BTC mw32, r16`
    BTC_MwA32_Rw(MemOpr32, GprIndex16),
    /// `BTC r32, imm8`
    BTC_Rd_Ib(GprIndex32, u8),
    /// `BTC r32, r32`
    BTC_Rd_Rd(GprIndex32, GprIndex32),
    /// `BTC r16, imm8`
    BTC_Rw_Ib(GprIndex16, u8),
    /// `BTC r16, r16`
    BTC_Rw_Rw(GprIndex16, GprIndex16),
    /// `BTR md16, imm8`
    BTR_MdA16_Ib(MemOpr16, u8),
    /// `BTR md16, r32`
    BTR_MdA16_Rd(MemOpr16, GprIndex32),
    /// `BTR md32, imm8`
    BTR_MdA32_Ib(MemOpr32, u8),
    /// `BTR md32, r32`
    BTR_MdA32_Rd(MemOpr32, GprIndex32),
    /// `BTR mw16, imm8`
    BTR_MwA16_Ib(MemOpr16, u8),
    /// `BTR mw16, r16`
    BTR_MwA16_Rw(MemOpr16, GprIndex16),
    /// `BTR mw32, imm8`
    BTR_MwA32_Ib(MemOpr32, u8),
    /// `BTR mw32, r16`
    BTR_MwA32_Rw(MemOpr32, GprIndex16),
    /// `BTR r32, imm8`
    BTR_Rd_Ib(GprIndex32, u8),
    /// `BTR r32, r32`
    BTR_Rd_Rd(GprIndex32, GprIndex32),
    /// `BTR r16, imm8`
    BTR_Rw_Ib(GprIndex16, u8),
    /// `BTR r16, r16`
    BTR_Rw_Rw(GprIndex16, GprIndex16),
    /// `BTS md16, imm8`
    BTS_MdA16_Ib(MemOpr16, u8),
    /// `BTS md16, r32`
    BTS_MdA16_Rd(MemOpr16, GprIndex32),
    /// `BTS md32, imm8`
    BTS_MdA32_Ib(MemOpr32, u8),
    /// `BTS md32, r32`
    BTS_MdA32_Rd(MemOpr32, GprIndex32),
    /// `BTS mw16, imm8`
    BTS_MwA16_Ib(MemOpr16, u8),
    /// `BTS mw16, r16`
    BTS_MwA16_Rw(MemOpr16, GprIndex16),
    /// `BTS mw32, imm8`
    BTS_MwA32_Ib(MemOpr32, u8),
    /// `BTS mw32, r16`
    BTS_MwA32_Rw(MemOpr32, GprIndex16),
    /// `BTS r32, imm8`
    BTS_Rd_Ib(GprIndex32, u8),
    /// `BTS r32, r32`
    BTS_Rd_Rd(GprIndex32, GprIndex32),
    /// `BTS r16, imm8`
    BTS_Rw_Ib(GprIndex16, u8),
    /// `BTS r16, r16`
    BTS_Rw_Rw(GprIndex16, GprIndex16),
    /// `BT md16, imm8`
    BT_MdA16_Ib(MemOpr16, u8),
    /// `BT md16, r32`
    BT_MdA16_Rd(MemOpr16, GprIndex32),
    /// `BT md32, imm8`
    BT_MdA32_Ib(MemOpr32, u8),
    /// `BT md32, r32`
    BT_MdA32_Rd(MemOpr32, GprIndex32),
    /// `BT mw16, imm8`
    BT_MwA16_Ib(MemOpr16, u8),
    /// `BT mw16, r16`
    BT_MwA16_Rw(MemOpr16, GprIndex16),
    /// `BT mw32, imm8`
    BT_MwA32_Ib(MemOpr32, u8),
    /// `BT mw32, r16`
    BT_MwA32_Rw(MemOpr32, GprIndex16),
    /// `BT r32, imm8`
    BT_Rd_Ib(GprIndex32, u8),
    /// `BT r32, r32`
    BT_Rd_Rd(GprIndex32, GprIndex32),
    /// `BT r16, imm8`
    BT_Rw_Ib(GprIndex16, u8),
    /// `BT r16, r16`
    BT_Rw_Rw(GprIndex16, GprIndex16),
    /// `CALLF ptr16:32`
    CALLF_Ap(SegmentSelector, Offset32),
    /// `CALLF mp16`
    CALLF_MpA16O16(MemOpr16),
    /// `CALLF mp16`
    CALLF_MpA16O32(MemOpr16),
    /// `CALLF mp32`
    CALLF_MpA32O16(MemOpr32),
    /// `CALLF mp32`
    CALLF_MpA32O32(MemOpr32),
    /// `CALL rel`
    CALL_Jv(Offset32),
    /// `CALL md16`
    CALL_MdA16(MemOpr16),
    /// `CALL md32`
    CALL_MdA32(MemOpr32),
    /// `CALL mw16`
    CALL_MwA16(MemOpr16),
    /// `CALL mw32`
    CALL_MwA32(MemOpr32),
    /// `CALL r32`
    CALL_Rd(GprIndex32),
    /// `CALL r16`
    CALL_Rw(GprIndex16),
    /// `CDQ`
    CDQ,
    /// `CLC`
    CLC,
    /// `CLD`
    CLD,
    /// `CLI`
    CLI,
    /// `CLTS`
    CLTS,
    /// `CMC`
    CMC,
    /// `CMOV r32, md16`
    CMOV_Rd_MdA16(CC, GprIndex32, MemOpr16),
    /// `CMOV r32, md32`
    CMOV_Rd_MdA32(CC, GprIndex32, MemOpr32),
    /// `CMOV r32, r32`
    CMOV_Rd_Rd(CC, GprIndex32, GprIndex32),
    /// `CMOV r16, mw16`
    CMOV_Rw_MwA16(CC, GprIndex16, MemOpr16),
    /// `CMOV r16, mw32`
    CMOV_Rw_MwA32(CC, GprIndex16, MemOpr32),
    /// `CMOV r16, r16`
    CMOV_Rw_Rw(CC, GprIndex16, GprIndex16),
    /// `CMPSB`
    CMPSB(SrIndex, bool),
    /// `CMPSD`
    CMPSD(SrIndex, bool),
    /// `CMPSW`
    CMPSW(SrIndex, bool),
    /// `CMPXCHG mb16, r8`
    CMPXCHG_MbA16_Rb(MemOpr16, GprIndex8),
    /// `CMPXCHG mb32, r8`
    CMPXCHG_MbA32_Rb(MemOpr32, GprIndex8),
    /// `CMPXCHG md16, r32`
    CMPXCHG_MdA16_Rd(MemOpr16, GprIndex32),
    /// `CMPXCHG md32, r32`
    CMPXCHG_MdA32_Rd(MemOpr32, GprIndex32),
    /// `CMPXCHG mw16, r16`
    CMPXCHG_MwA16_Rw(MemOpr16, GprIndex16),
    /// `CMPXCHG mw32, r16`
    CMPXCHG_MwA32_Rw(MemOpr32, GprIndex16),
    /// `CMPXCHG r8, r8`
    CMPXCHG_Rb_Rb(GprIndex8, GprIndex8),
    /// `CMPXCHG r32, r32`
    CMPXCHG_Rd_Rd(GprIndex32, GprIndex32),
    /// `CMPXCHG r16, r16`
    CMPXCHG_Rw_Rw(GprIndex16, GprIndex16),
    /// `CMP mb16, imm8`
    CMP_MbA16_Ib(MemOpr16, u8),
    /// `CMP mb16, r8`
    CMP_MbA16_Rb(MemOpr16, GprIndex8),
    /// `CMP mb32, imm8`
    CMP_MbA32_Ib(MemOpr32, u8),
    /// `CMP mb32, r8`
    CMP_MbA32_Rb(MemOpr32, GprIndex8),
    /// `CMP md16, imm32`
    CMP_MdA16_Id(MemOpr16, u32),
    /// `CMP md16, r32`
    CMP_MdA16_Rd(MemOpr16, GprIndex32),
    /// `CMP md32, imm32`
    CMP_MdA32_Id(MemOpr32, u32),
    /// `CMP md32, r32`
    CMP_MdA32_Rd(MemOpr32, GprIndex32),
    /// `CMP mw16, imm16`
    CMP_MwA16_Iw(MemOpr16, u16),
    /// `CMP mw16, r16`
    CMP_MwA16_Rw(MemOpr16, GprIndex16),
    /// `CMP mw32, imm16`
    CMP_MwA32_Iw(MemOpr32, u16),
    /// `CMP mw32, r16`
    CMP_MwA32_Rw(MemOpr32, GprIndex16),
    /// `CMP r8, imm8`
    CMP_Rb_Ib(GprIndex8, u8),
    /// `CMP r8, mb16`
    CMP_Rb_MbA16(GprIndex8, MemOpr16),
    /// `CMP r8, mb32`
    CMP_Rb_MbA32(GprIndex8, MemOpr32),
    /// `CMP r8, r8`
    CMP_Rb_Rb(GprIndex8, GprIndex8),
    /// `CMP r32, imm32`
    CMP_Rd_Id(GprIndex32, u32),
    /// `CMP r32, md16`
    CMP_Rd_MdA16(GprIndex32, MemOpr16),
    /// `CMP r32, md32`
    CMP_Rd_MdA32(GprIndex32, MemOpr32),
    /// `CMP r32, r32`
    CMP_Rd_Rd(GprIndex32, GprIndex32),
    /// `CMP r16, imm16`
    CMP_Rw_Iw(GprIndex16, u16),
    /// `CMP r16, mw16`
    CMP_Rw_MwA16(GprIndex16, MemOpr16),
    /// `CMP r16, mw32`
    CMP_Rw_MwA32(GprIndex16, MemOpr32),
    /// `CMP r16, r16`
    CMP_Rw_Rw(GprIndex16, GprIndex16),
    /// `CPUID`
    CPUID,
    /// `CWD`
    CWD,
    /// `DAA`
    DAA,
    /// `DAS`
    DAS,
    /// `DEC mb16`
    DEC_MbA16(MemOpr16),
    /// `DEC mb32`
    DEC_MbA32(MemOpr32),
    /// `DEC md16`
    DEC_MdA16(MemOpr16),
    /// `DEC md32`
    DEC_MdA32(MemOpr32),
    /// `DEC mw16`
    DEC_MwA16(MemOpr16),
    /// `DEC mw32`
    DEC_MwA32(MemOpr32),
    /// `DEC r8`
    DEC_Rb(GprIndex8),
    /// `DEC r32`
    DEC_Rd(GprIndex32),
    /// `DEC r16`
    DEC_Rw(GprIndex16),
    /// `DIV mb16`
    DIV_MbA16(MemOpr16),
    /// `DIV mb32`
    DIV_MbA32(MemOpr32),
    /// `DIV md16`
    DIV_MdA16(MemOpr16),
    /// `DIV md32`
    DIV_MdA32(MemOpr32),
    /// `DIV mw16`
    DIV_MwA16(MemOpr16),
    /// `DIV mw32`
    DIV_MwA32(MemOpr32),
    /// `DIV r8`
    DIV_Rb(GprIndex8),
    /// `DIV r32`
    DIV_Rd(GprIndex32),
    /// `DIV r16`
    DIV_Rw(GprIndex16),
    /// `ENTER imm16, imm8`
    ENTER_Iw_Ib(u16, u8),
    /// `ESC mb16`
    ESC_MbA16(u8, u8, MemOpr16),
    /// `ESC mb32`
    ESC_MbA32(u8, u8, MemOpr32),
    /// `ESC r8`
    ESC_Rb(u8, u8, GprIndex8),
    /// `HLT`
    HLT,
    /// `ICEBP`
    ICEBP,
    /// `IDIV mb16`
    IDIV_MbA16(MemOpr16),
    /// `IDIV mb32`
    IDIV_MbA32(MemOpr32),
    /// `IDIV md16`
    IDIV_MdA16(MemOpr16),
    /// `IDIV md32`
    IDIV_MdA32(MemOpr32),
    /// `IDIV mw16`
    IDIV_MwA16(MemOpr16),
    /// `IDIV mw32`
    IDIV_MwA32(MemOpr32),
    /// `IDIV r8`
    IDIV_Rb(GprIndex8),
    /// `IDIV r32`
    IDIV_Rd(GprIndex32),
    /// `IDIV r16`
    IDIV_Rw(GprIndex16),
    /// `IMUL mb16`
    IMUL_MbA16(MemOpr16),
    /// `IMUL mb32`
    IMUL_MbA32(MemOpr32),
    /// `IMUL md16`
    IMUL_MdA16(MemOpr16),
    /// `IMUL md32`
    IMUL_MdA32(MemOpr32),
    /// `IMUL mw16`
    IMUL_MwA16(MemOpr16),
    /// `IMUL mw32`
    IMUL_MwA32(MemOpr32),
    /// `IMUL r8`
    IMUL_Rb(GprIndex8),
    /// `IMUL r32`
    IMUL_Rd(GprIndex32),
    /// `IMUL r32, md16`
    IMUL_Rd_MdA16(GprIndex32, MemOpr16),
    /// `IMUL r32, md16, imm32`
    IMUL_Rd_MdA16_Id(GprIndex32, MemOpr16, u32),
    /// `IMUL r32, md32`
    IMUL_Rd_MdA32(GprIndex32, MemOpr32),
    /// `IMUL r32, md32, imm32`
    IMUL_Rd_MdA32_Id(GprIndex32, MemOpr32, u32),
    /// `IMUL r32, r32`
    IMUL_Rd_Rd(GprIndex32, GprIndex32),
    /// `IMUL r32, r32, imm32`
    IMUL_Rd_Rd_Id(GprIndex32, GprIndex32, u32),
    /// `IMUL r16`
    IMUL_Rw(GprIndex16),
    /// `IMUL r16, mw16`
    IMUL_Rw_MwA16(GprIndex16, MemOpr16),
    /// `IMUL r16, mw16, imm16`
    IMUL_Rw_MwA16_Iw(GprIndex16, MemOpr16, u16),
    /// `IMUL r16, mw32`
    IMUL_Rw_MwA32(GprIndex16, MemOpr32),
    /// `IMUL r16, mw32, imm16`
    IMUL_Rw_MwA32_Iw(GprIndex16, MemOpr32, u16),
    /// `IMUL r16, r16`
    IMUL_Rw_Rw(GprIndex16, GprIndex16),
    /// `IMUL r16, r16, imm16`
    IMUL_Rw_Rw_Iw(GprIndex16, GprIndex16, u16),
    /// `INC mb16`
    INC_MbA16(MemOpr16),
    /// `INC mb32`
    INC_MbA32(MemOpr32),
    /// `INC md16`
    INC_MdA16(MemOpr16),
    /// `INC md32`
    INC_MdA32(MemOpr32),
    /// `INC mw16`
    INC_MwA16(MemOpr16),
    /// `INC mw32`
    INC_MwA32(MemOpr32),
    /// `INC r8`
    INC_Rb(GprIndex8),
    /// `INC r32`
    INC_Rd(GprIndex32),
    /// `INC r16`
    INC_Rw(GprIndex16),
    /// `INSB`
    INSB(SrIndex, bool),
    /// `INSD`
    INSD(SrIndex, bool),
    /// `INSW`
    INSW(SrIndex, bool),
    /// `INTO`
    INTO,
    /// `INT imm8`
    INT_Ib(u8),
    /// `INVD`
    INVD,
    /// `INVLPG mw16`
    INVLPG_MwA16(MemOpr16),
    /// `INVLPG mw32`
    INVLPG_MwA32(MemOpr32),
    /// `IN EAX, DX`
    IN_Ad_Dx,
    /// `IN EAX, imm8`
    IN_Ad_Ib(u8),
    /// `IN AL, DX`
    IN_Al_Dx,
    /// `IN AL, imm8`
    IN_Al_Ib(u8),
    /// `IN AX, DX`
    IN_Aw_Dx,
    /// `IN AX, imm8`
    IN_Aw_Ib(u8),
    /// `IRET`
    IRET,
    /// `IRETD`
    IRETD,
    /// `JCC rel`
    JCC_Jv(CC, Offset32),
    /// `JCXZ rel`
    JCXZ_Jv(Offset32),
    /// `JMPF ptr16:32`
    JMPF_Ap(SegmentSelector, Offset32),
    /// `JMPF mp16`
    JMPF_MpA16O16(MemOpr16),
    /// `JMPF mp16`
    JMPF_MpA16O32(MemOpr16),
    /// `JMPF mp32`
    JMPF_MpA32O16(MemOpr32),
    /// `JMPF mp32`
    JMPF_MpA32O32(MemOpr32),
    /// `JMP rel`
    JMP_Jv(Offset32),
    /// `JMP md16`
    JMP_MdA16(MemOpr16),
    /// `JMP md32`
    JMP_MdA32(MemOpr32),
    /// `JMP mw16`
    JMP_MwA16(MemOpr16),
    /// `JMP mw32`
    JMP_MwA32(MemOpr32),
    /// `JMP r32`
    JMP_Rd(GprIndex32),
    /// `JMP r16`
    JMP_Rw(GprIndex16),
    /// `LAHF`
    LAHF,
    /// `LDS r32, md16`
    LDS_Rd_MdA16(GprIndex32, MemOpr16),
    /// `LDS r32, md32`
    LDS_Rd_MdA32(GprIndex32, MemOpr32),
    /// `LDS r16, mw16`
    LDS_Rw_MwA16(GprIndex16, MemOpr16),
    /// `LDS r16, mw32`
    LDS_Rw_MwA32(GprIndex16, MemOpr32),
    /// `LEAVE`
    LEAVE,
    /// `LEA r32, md16`
    LEA_Rd_MdA16(GprIndex32, MemOpr16),
    /// `LEA r32, md32`
    LEA_Rd_MdA32(GprIndex32, MemOpr32),
    /// `LEA r16, mw16`
    LEA_Rw_MwA16(GprIndex16, MemOpr16),
    /// `LEA r16, mw32`
    LEA_Rw_MwA32(GprIndex16, MemOpr32),
    /// `LES r32, md16`
    LES_Rd_MdA16(GprIndex32, MemOpr16),
    /// `LES r32, md32`
    LES_Rd_MdA32(GprIndex32, MemOpr32),
    /// `LES r16, mw16`
    LES_Rw_MwA16(GprIndex16, MemOpr16),
    /// `LES r16, mw32`
    LES_Rw_MwA32(GprIndex16, MemOpr32),
    /// `LFS r32, md16`
    LFS_Rd_MdA16(GprIndex32, MemOpr16),
    /// `LFS r32, md32`
    LFS_Rd_MdA32(GprIndex32, MemOpr32),
    /// `LFS r16, mw16`
    LFS_Rw_MwA16(GprIndex16, MemOpr16),
    /// `LFS r16, mw32`
    LFS_Rw_MwA32(GprIndex16, MemOpr32),
    /// `LGDT mp16`
    LGDT_MpA16(MemOpr16),
    /// `LGDT mp32`
    LGDT_MpA32(MemOpr32),
    /// `LGS r32, md16`
    LGS_Rd_MdA16(GprIndex32, MemOpr16),
    /// `LGS r32, md32`
    LGS_Rd_MdA32(GprIndex32, MemOpr32),
    /// `LGS r16, mw16`
    LGS_Rw_MwA16(GprIndex16, MemOpr16),
    /// `LGS r16, mw32`
    LGS_Rw_MwA32(GprIndex16, MemOpr32),
    /// `LIDT mp16`
    LIDT_MpA16(MemOpr16),
    /// `LIDT mp32`
    LIDT_MpA32(MemOpr32),
    /// `LLDT mw16`
    LLDT_MwA16(MemOpr16),
    /// `LLDT mw32`
    LLDT_MwA32(MemOpr32),
    /// `LLDT r16`
    LLDT_Rw(GprIndex16),
    /// `LMSW mw16`
    LMSW_MwA16(MemOpr16),
    /// `LMSW mw32`
    LMSW_MwA32(MemOpr32),
    /// `LMSW r16`
    LMSW_Rw(GprIndex16),
    /// `LODSB`
    LODSB(SrIndex, bool),
    /// `LODSD`
    LODSD(SrIndex, bool),
    /// `LODSW`
    LODSW(SrIndex, bool),
    /// `LOOPNZ rel`
    LOOPNZ_Jv(Offset32),
    /// `LOOPZ rel`
    LOOPZ_Jv(Offset32),
    /// `LOOP rel`
    LOOP_Jv(Offset32),
    /// `LSS r32, md16`
    LSS_Rd_MdA16(GprIndex32, MemOpr16),
    /// `LSS r32, md32`
    LSS_Rd_MdA32(GprIndex32, MemOpr32),
    /// `LSS r16, mw16`
    LSS_Rw_MwA16(GprIndex16, MemOpr16),
    /// `LSS r16, mw32`
    LSS_Rw_MwA32(GprIndex16, MemOpr32),
    /// `LTR mw16`
    LTR_MwA16(MemOpr16),
    /// `LTR mw32`
    LTR_MwA32(MemOpr32),
    /// `LTR r16`
    LTR_Rw(GprIndex16),
    /// `MONITOR`
    MONITOR,
    /// `MOVSB`
    MOVSB(SrIndex, bool),
    /// `MOVSD`
    MOVSD(SrIndex, bool),
    /// `MOVSW`
    MOVSW(SrIndex, bool),
    /// `MOVSX r32, mb16`
    MOVSX_Rd_MbA16(GprIndex32, MemOpr16),
    /// `MOVSX r32, mb32`
    MOVSX_Rd_MbA32(GprIndex32, MemOpr32),
    /// `MOVSX r32, mw16`
    MOVSX_Rd_MwA16(GprIndex32, MemOpr16),
    /// `MOVSX r32, mw32`
    MOVSX_Rd_MwA32(GprIndex32, MemOpr32),
    /// `MOVSX r32, r8`
    MOVSX_Rd_Rb(GprIndex32, GprIndex8),
    /// `MOVSX r32, r16`
    MOVSX_Rd_Rw(GprIndex32, GprIndex16),
    /// `MOVSX r16, mb16`
    MOVSX_Rw_MbA16(GprIndex16, MemOpr16),
    /// `MOVSX r16, mb32`
    MOVSX_Rw_MbA32(GprIndex16, MemOpr32),
    /// `MOVSX r16, r8`
    MOVSX_Rw_Rb(GprIndex16, GprIndex8),
    /// `MOVZX r32, mb16`
    MOVZX_Rd_MbA16(GprIndex32, MemOpr16),
    /// `MOVZX r32, mb32`
    MOVZX_Rd_MbA32(GprIndex32, MemOpr32),
    /// `MOVZX r32, mw16`
    MOVZX_Rd_MwA16(GprIndex32, MemOpr16),
    /// `MOVZX r32, mw32`
    MOVZX_Rd_MwA32(GprIndex32, MemOpr32),
    /// `MOVZX r32, r8`
    MOVZX_Rd_Rb(GprIndex32, GprIndex8),
    /// `MOVZX r32, r16`
    MOVZX_Rd_Rw(GprIndex32, GprIndex16),
    /// `MOVZX r16, mb16`
    MOVZX_Rw_MbA16(GprIndex16, MemOpr16),
    /// `MOVZX r16, mb32`
    MOVZX_Rw_MbA32(GprIndex16, MemOpr32),
    /// `MOVZX r16, r8`
    MOVZX_Rw_Rb(GprIndex16, GprIndex8),
    /// `MOV creg, r32`
    MOV_Cr_Rd(CrIndex, GprIndex32),
    /// `MOV dreg, r32`
    MOV_Dr_Rd(DrIndex, GprIndex32),
    /// `MOV mb16, imm8`
    MOV_MbA16_Ib(MemOpr16, u8),
    /// `MOV mb16, r8`
    MOV_MbA16_Rb(MemOpr16, GprIndex8),
    /// `MOV mb32, imm8`
    MOV_MbA32_Ib(MemOpr32, u8),
    /// `MOV mb32, r8`
    MOV_MbA32_Rb(MemOpr32, GprIndex8),
    /// `MOV md16, imm32`
    MOV_MdA16_Id(MemOpr16, u32),
    /// `MOV md16, r32`
    MOV_MdA16_Rd(MemOpr16, GprIndex32),
    /// `MOV md16, sreg`
    MOV_MdA16_Sr(MemOpr16, SrIndex),
    /// `MOV md32, imm32`
    MOV_MdA32_Id(MemOpr32, u32),
    /// `MOV md32, r32`
    MOV_MdA32_Rd(MemOpr32, GprIndex32),
    /// `MOV md32, sreg`
    MOV_MdA32_Sr(MemOpr32, SrIndex),
    /// `MOV mw16, imm16`
    MOV_MwA16_Iw(MemOpr16, u16),
    /// `MOV mw16, r16`
    MOV_MwA16_Rw(MemOpr16, GprIndex16),
    /// `MOV mw16, sreg`
    MOV_MwA16_Sr(MemOpr16, SrIndex),
    /// `MOV mw32, imm16`
    MOV_MwA32_Iw(MemOpr32, u16),
    /// `MOV mw32, r16`
    MOV_MwA32_Rw(MemOpr32, GprIndex16),
    /// `MOV mw32, sreg`
    MOV_MwA32_Sr(MemOpr32, SrIndex),
    /// `MOV r8, imm8`
    MOV_Rb_Ib(GprIndex8, u8),
    /// `MOV r8, mb16`
    MOV_Rb_MbA16(GprIndex8, MemOpr16),
    /// `MOV r8, mb32`
    MOV_Rb_MbA32(GprIndex8, MemOpr32),
    /// `MOV r8, r8`
    MOV_Rb_Rb(GprIndex8, GprIndex8),
    /// `MOV r32, creg`
    MOV_Rd_Cr(GprIndex32, CrIndex),
    /// `MOV r32, dreg`
    MOV_Rd_Dr(GprIndex32, DrIndex),
    /// `MOV r32, imm32`
    MOV_Rd_Id(GprIndex32, u32),
    /// `MOV r32, md16`
    MOV_Rd_MdA16(GprIndex32, MemOpr16),
    /// `MOV r32, md32`
    MOV_Rd_MdA32(GprIndex32, MemOpr32),
    /// `MOV r32, r32`
    MOV_Rd_Rd(GprIndex32, GprIndex32),
    /// `MOV r32, sreg`
    MOV_Rd_Sr(GprIndex32, SrIndex),
    /// `MOV r16, imm16`
    MOV_Rw_Iw(GprIndex16, u16),
    /// `MOV r16, mw16`
    MOV_Rw_MwA16(GprIndex16, MemOpr16),
    /// `MOV r16, mw32`
    MOV_Rw_MwA32(GprIndex16, MemOpr32),
    /// `MOV r16, r16`
    MOV_Rw_Rw(GprIndex16, GprIndex16),
    /// `MOV r16, sreg`
    MOV_Rw_Sr(GprIndex16, SrIndex),
    /// `MOV sreg, md16`
    MOV_Sr_MdA16(SrIndex, MemOpr16),
    /// `MOV sreg, md32`
    MOV_Sr_MdA32(SrIndex, MemOpr32),
    /// `MOV sreg, mw16`
    MOV_Sr_MwA16(SrIndex, MemOpr16),
    /// `MOV sreg, mw32`
    MOV_Sr_MwA32(SrIndex, MemOpr32),
    /// `MOV sreg, r32`
    MOV_Sr_Rd(SrIndex, GprIndex32),
    /// `MOV sreg, r16`
    MOV_Sr_Rw(SrIndex, GprIndex16),
    /// `MUL mb16`
    MUL_MbA16(MemOpr16),
    /// `MUL mb32`
    MUL_MbA32(MemOpr32),
    /// `MUL md16`
    MUL_MdA16(MemOpr16),
    /// `MUL md32`
    MUL_MdA32(MemOpr32),
    /// `MUL mw16`
    MUL_MwA16(MemOpr16),
    /// `MUL mw32`
    MUL_MwA32(MemOpr32),
    /// `MUL r8`
    MUL_Rb(GprIndex8),
    /// `MUL r32`
    MUL_Rd(GprIndex32),
    /// `MUL r16`
    MUL_Rw(GprIndex16),
    /// `MWAIT`
    MWAIT,
    /// `NEG mb16`
    NEG_MbA16(MemOpr16),
    /// `NEG mb32`
    NEG_MbA32(MemOpr32),
    /// `NEG md16`
    NEG_MdA16(MemOpr16),
    /// `NEG md32`
    NEG_MdA32(MemOpr32),
    /// `NEG mw16`
    NEG_MwA16(MemOpr16),
    /// `NEG mw32`
    NEG_MwA32(MemOpr32),
    /// `NEG r8`
    NEG_Rb(GprIndex8),
    /// `NEG r32`
    NEG_Rd(GprIndex32),
    /// `NEG r16`
    NEG_Rw(GprIndex16),
    /// `NOP`
    NOP,
    /// `NOT mb16`
    NOT_MbA16(MemOpr16),
    /// `NOT mb32`
    NOT_MbA32(MemOpr32),
    /// `NOT md16`
    NOT_MdA16(MemOpr16),
    /// `NOT md32`
    NOT_MdA32(MemOpr32),
    /// `NOT mw16`
    NOT_MwA16(MemOpr16),
    /// `NOT mw32`
    NOT_MwA32(MemOpr32),
    /// `NOT r8`
    NOT_Rb(GprIndex8),
    /// `NOT r32`
    NOT_Rd(GprIndex32),
    /// `NOT r16`
    NOT_Rw(GprIndex16),
    /// `OR mb16, imm8`
    OR_MbA16_Ib(MemOpr16, u8),
    /// `OR mb16, r8`
    OR_MbA16_Rb(MemOpr16, GprIndex8),
    /// `OR mb32, imm8`
    OR_MbA32_Ib(MemOpr32, u8),
    /// `OR mb32, r8`
    OR_MbA32_Rb(MemOpr32, GprIndex8),
    /// `OR md16, imm32`
    OR_MdA16_Id(MemOpr16, u32),
    /// `OR md16, r32`
    OR_MdA16_Rd(MemOpr16, GprIndex32),
    /// `OR md32, imm32`
    OR_MdA32_Id(MemOpr32, u32),
    /// `OR md32, r32`
    OR_MdA32_Rd(MemOpr32, GprIndex32),
    /// `OR mw16, imm16`
    OR_MwA16_Iw(MemOpr16, u16),
    /// `OR mw16, r16`
    OR_MwA16_Rw(MemOpr16, GprIndex16),
    /// `OR mw32, imm16`
    OR_MwA32_Iw(MemOpr32, u16),
    /// `OR mw32, r16`
    OR_MwA32_Rw(MemOpr32, GprIndex16),
    /// `OR r8, imm8`
    OR_Rb_Ib(GprIndex8, u8),
    /// `OR r8, mb16`
    OR_Rb_MbA16(GprIndex8, MemOpr16),
    /// `OR r8, mb32`
    OR_Rb_MbA32(GprIndex8, MemOpr32),
    /// `OR r8, r8`
    OR_Rb_Rb(GprIndex8, GprIndex8),
    /// `OR r32, imm32`
    OR_Rd_Id(GprIndex32, u32),
    /// `OR r32, md16`
    OR_Rd_MdA16(GprIndex32, MemOpr16),
    /// `OR r32, md32`
    OR_Rd_MdA32(GprIndex32, MemOpr32),
    /// `OR r32, r32`
    OR_Rd_Rd(GprIndex32, GprIndex32),
    /// `OR r16, imm16`
    OR_Rw_Iw(GprIndex16, u16),
    /// `OR r16, mw16`
    OR_Rw_MwA16(GprIndex16, MemOpr16),
    /// `OR r16, mw32`
    OR_Rw_MwA32(GprIndex16, MemOpr32),
    /// `OR r16, r16`
    OR_Rw_Rw(GprIndex16, GprIndex16),
    /// `OUTSB`
    OUTSB(SrIndex, bool),
    /// `OUTSD`
    OUTSD(SrIndex, bool),
    /// `OUTSW`
    OUTSW(SrIndex, bool),
    /// `OUT DX, EAX`
    OUT_Dx_Ad,
    /// `OUT DX, AL`
    OUT_Dx_Al,
    /// `OUT DX, AX`
    OUT_Dx_Aw,
    /// `OUT imm8, EAX`
    OUT_Ib_Ad(u8),
    /// `OUT imm8, AL`
    OUT_Ib_Al(u8),
    /// `OUT imm8, AX`
    OUT_Ib_Aw(u8),
    /// `PAUSE`
    PAUSE,
    /// `POPA`
    POPA,
    /// `POPAD`
    POPAD,
    /// `POPCNT r32, md16`
    POPCNT_Rd_MdA16(GprIndex32, MemOpr16),
    /// `POPCNT r32, md32`
    POPCNT_Rd_MdA32(GprIndex32, MemOpr32),
    /// `POPCNT r32, r32`
    POPCNT_Rd_Rd(GprIndex32, GprIndex32),
    /// `POPCNT r16, mw16`
    POPCNT_Rw_MwA16(GprIndex16, MemOpr16),
    /// `POPCNT r16, mw32`
    POPCNT_Rw_MwA32(GprIndex16, MemOpr32),
    /// `POPCNT r16, r16`
    POPCNT_Rw_Rw(GprIndex16, GprIndex16),
    /// `POPF`
    POPF,
    /// `POPFD`
    POPFD,
    /// `POP md16`
    POP_MdA16(MemOpr16),
    /// `POP md32`
    POP_MdA32(MemOpr32),
    /// `POP mw16`
    POP_MwA16(MemOpr16),
    /// `POP mw32`
    POP_MwA32(MemOpr32),
    /// `POP r32`
    POP_Rd(GprIndex32),
    /// `POP r16`
    POP_Rw(GprIndex16),
    /// `POP sreg`
    POP_Sr(SrIndex),
    /// `PUSHA`
    PUSHA,
    /// `PUSHAD`
    PUSHAD,
    /// `PUSHF`
    PUSHF,
    /// `PUSHFD`
    PUSHFD,
    /// `PUSH imm32`
    PUSH_Id(u32),
    /// `PUSH imm16`
    PUSH_Iw(u16),
    /// `PUSH md16`
    PUSH_MdA16(MemOpr16),
    /// `PUSH md32`
    PUSH_MdA32(MemOpr32),
    /// `PUSH mw16`
    PUSH_MwA16(MemOpr16),
    /// `PUSH mw32`
    PUSH_MwA32(MemOpr32),
    /// `PUSH r32`
    PUSH_Rd(GprIndex32),
    /// `PUSH r16`
    PUSH_Rw(GprIndex16),
    /// `PUSH sreg`
    PUSH_Sr(SrIndex),
    /// `RCL mb16, CL`
    RCL_MbA16_Cl(MemOpr16),
    /// `RCL mb16, imm8`
    RCL_MbA16_Ib(MemOpr16, u8),
    /// `RCL mb32, CL`
    RCL_MbA32_Cl(MemOpr32),
    /// `RCL mb32, imm8`
    RCL_MbA32_Ib(MemOpr32, u8),
    /// `RCL md16, CL`
    RCL_MdA16_Cl(MemOpr16),
    /// `RCL md16, imm8`
    RCL_MdA16_Ib(MemOpr16, u8),
    /// `RCL md32, CL`
    RCL_MdA32_Cl(MemOpr32),
    /// `RCL md32, imm8`
    RCL_MdA32_Ib(MemOpr32, u8),
    /// `RCL mw16, CL`
    RCL_MwA16_Cl(MemOpr16),
    /// `RCL mw16, imm8`
    RCL_MwA16_Ib(MemOpr16, u8),
    /// `RCL mw32, CL`
    RCL_MwA32_Cl(MemOpr32),
    /// `RCL mw32, imm8`
    RCL_MwA32_Ib(MemOpr32, u8),
    /// `RCL r8, CL`
    RCL_Rb_Cl(GprIndex8),
    /// `RCL r8, imm8`
    RCL_Rb_Ib(GprIndex8, u8),
    /// `RCL r32, CL`
    RCL_Rd_Cl(GprIndex32),
    /// `RCL r32, imm8`
    RCL_Rd_Ib(GprIndex32, u8),
    /// `RCL r16, CL`
    RCL_Rw_Cl(GprIndex16),
    /// `RCL r16, imm8`
    RCL_Rw_Ib(GprIndex16, u8),
    /// `RCR mb16, CL`
    RCR_MbA16_Cl(MemOpr16),
    /// `RCR mb16, imm8`
    RCR_MbA16_Ib(MemOpr16, u8),
    /// `RCR mb32, CL`
    RCR_MbA32_Cl(MemOpr32),
    /// `RCR mb32, imm8`
    RCR_MbA32_Ib(MemOpr32, u8),
    /// `RCR md16, CL`
    RCR_MdA16_Cl(MemOpr16),
    /// `RCR md16, imm8`
    RCR_MdA16_Ib(MemOpr16, u8),
    /// `RCR md32, CL`
    RCR_MdA32_Cl(MemOpr32),
    /// `RCR md32, imm8`
    RCR_MdA32_Ib(MemOpr32, u8),
    /// `RCR mw16, CL`
    RCR_MwA16_Cl(MemOpr16),
    /// `RCR mw16, imm8`
    RCR_MwA16_Ib(MemOpr16, u8),
    /// `RCR mw32, CL`
    RCR_MwA32_Cl(MemOpr32),
    /// `RCR mw32, imm8`
    RCR_MwA32_Ib(MemOpr32, u8),
    /// `RCR r8, CL`
    RCR_Rb_Cl(GprIndex8),
    /// `RCR r8, imm8`
    RCR_Rb_Ib(GprIndex8, u8),
    /// `RCR r32, CL`
    RCR_Rd_Cl(GprIndex32),
    /// `RCR r32, imm8`
    RCR_Rd_Ib(GprIndex32, u8),
    /// `RCR r16, CL`
    RCR_Rw_Cl(GprIndex16),
    /// `RCR r16, imm8`
    RCR_Rw_Ib(GprIndex16, u8),
    /// `RDMSR`
    RDMSR,
    /// `RDTSC`
    RDTSC,
    /// `RDTSCP`
    RDTSCP,
    /// `REPNZ CMPSB`
    REPNZ_CMPSB(SrIndex, bool),
    /// `REPNZ CMPSD`
    REPNZ_CMPSD(SrIndex, bool),
    /// `REPNZ CMPSW`
    REPNZ_CMPSW(SrIndex, bool),
    /// `REPNZ SCASB`
    REPNZ_SCASB(SrIndex, bool),
    /// `REPNZ SCASD`
    REPNZ_SCASD(SrIndex, bool),
    /// `REPNZ SCASW`
    REPNZ_SCASW(SrIndex, bool),
    /// `REPZ CMPSB`
    REPZ_CMPSB(SrIndex, bool),
    /// `REPZ CMPSD`
    REPZ_CMPSD(SrIndex, bool),
    /// `REPZ CMPSW`
    REPZ_CMPSW(SrIndex, bool),
    /// `REPZ SCASB`
    REPZ_SCASB(SrIndex, bool),
    /// `REPZ SCASD`
    REPZ_SCASD(SrIndex, bool),
    /// `REPZ SCASW`
    REPZ_SCASW(SrIndex, bool),
    /// `REP INSB`
    REP_INSB(SrIndex, bool),
    /// `REP INSD`
    REP_INSD(SrIndex, bool),
    /// `REP INSW`
    REP_INSW(SrIndex, bool),
    /// `REP LODSB`
    REP_LODSB(SrIndex, bool),
    /// `REP LODSD`
    REP_LODSD(SrIndex, bool),
    /// `REP LODSW`
    REP_LODSW(SrIndex, bool),
    /// `REP MOVSB`
    REP_MOVSB(SrIndex, bool),
    /// `REP MOVSD`
    REP_MOVSD(SrIndex, bool),
    /// `REP MOVSW`
    REP_MOVSW(SrIndex, bool),
    /// `REP OUTSB`
    REP_OUTSB(SrIndex, bool),
    /// `REP OUTSD`
    REP_OUTSD(SrIndex, bool),
    /// `REP OUTSW`
    REP_OUTSW(SrIndex, bool),
    /// `REP STOSB`
    REP_STOSB(SrIndex, bool),
    /// `REP STOSD`
    REP_STOSD(SrIndex, bool),
    /// `REP STOSW`
    REP_STOSW(SrIndex, bool),
    /// `RETF imm16`
    RETF_D16(u16),
    /// `RETF imm16`
    RETF_D32(u16),
    /// `RET imm16`
    RET_D16(u16),
    /// `RET imm16`
    RET_D32(u16),
    /// `ROL mb16, CL`
    ROL_MbA16_Cl(MemOpr16),
    /// `ROL mb16, imm8`
    ROL_MbA16_Ib(MemOpr16, u8),
    /// `ROL mb32, CL`
    ROL_MbA32_Cl(MemOpr32),
    /// `ROL mb32, imm8`
    ROL_MbA32_Ib(MemOpr32, u8),
    /// `ROL md16, CL`
    ROL_MdA16_Cl(MemOpr16),
    /// `ROL md16, imm8`
    ROL_MdA16_Ib(MemOpr16, u8),
    /// `ROL md32, CL`
    ROL_MdA32_Cl(MemOpr32),
    /// `ROL md32, imm8`
    ROL_MdA32_Ib(MemOpr32, u8),
    /// `ROL mw16, CL`
    ROL_MwA16_Cl(MemOpr16),
    /// `ROL mw16, imm8`
    ROL_MwA16_Ib(MemOpr16, u8),
    /// `ROL mw32, CL`
    ROL_MwA32_Cl(MemOpr32),
    /// `ROL mw32, imm8`
    ROL_MwA32_Ib(MemOpr32, u8),
    /// `ROL r8, CL`
    ROL_Rb_Cl(GprIndex8),
    /// `ROL r8, imm8`
    ROL_Rb_Ib(GprIndex8, u8),
    /// `ROL r32, CL`
    ROL_Rd_Cl(GprIndex32),
    /// `ROL r32, imm8`
    ROL_Rd_Ib(GprIndex32, u8),
    /// `ROL r16, CL`
    ROL_Rw_Cl(GprIndex16),
    /// `ROL r16, imm8`
    ROL_Rw_Ib(GprIndex16, u8),
    /// `ROR mb16, CL`
    ROR_MbA16_Cl(MemOpr16),
    /// `ROR mb16, imm8`
    ROR_MbA16_Ib(MemOpr16, u8),
    /// `ROR mb32, CL`
    ROR_MbA32_Cl(MemOpr32),
    /// `ROR mb32, imm8`
    ROR_MbA32_Ib(MemOpr32, u8),
    /// `ROR md16, CL`
    ROR_MdA16_Cl(MemOpr16),
    /// `ROR md16, imm8`
    ROR_MdA16_Ib(MemOpr16, u8),
    /// `ROR md32, CL`
    ROR_MdA32_Cl(MemOpr32),
    /// `ROR md32, imm8`
    ROR_MdA32_Ib(MemOpr32, u8),
    /// `ROR mw16, CL`
    ROR_MwA16_Cl(MemOpr16),
    /// `ROR mw16, imm8`
    ROR_MwA16_Ib(MemOpr16, u8),
    /// `ROR mw32, CL`
    ROR_MwA32_Cl(MemOpr32),
    /// `ROR mw32, imm8`
    ROR_MwA32_Ib(MemOpr32, u8),
    /// `ROR r8, CL`
    ROR_Rb_Cl(GprIndex8),
    /// `ROR r8, imm8`
    ROR_Rb_Ib(GprIndex8, u8),
    /// `ROR r32, CL`
    ROR_Rd_Cl(GprIndex32),
    /// `ROR r32, imm8`
    ROR_Rd_Ib(GprIndex32, u8),
    /// `ROR r16, CL`
    ROR_Rw_Cl(GprIndex16),
    /// `ROR r16, imm8`
    ROR_Rw_Ib(GprIndex16, u8),
    /// `RSM`
    RSM,
    /// `SAHF`
    SAHF,
    /// `SALC`
    SALC,
    /// `SAR mb16, CL`
    SAR_MbA16_Cl(MemOpr16),
    /// `SAR mb16, imm8`
    SAR_MbA16_Ib(MemOpr16, u8),
    /// `SAR mb32, CL`
    SAR_MbA32_Cl(MemOpr32),
    /// `SAR mb32, imm8`
    SAR_MbA32_Ib(MemOpr32, u8),
    /// `SAR md16, CL`
    SAR_MdA16_Cl(MemOpr16),
    /// `SAR md16, imm8`
    SAR_MdA16_Ib(MemOpr16, u8),
    /// `SAR md32, CL`
    SAR_MdA32_Cl(MemOpr32),
    /// `SAR md32, imm8`
    SAR_MdA32_Ib(MemOpr32, u8),
    /// `SAR mw16, CL`
    SAR_MwA16_Cl(MemOpr16),
    /// `SAR mw16, imm8`
    SAR_MwA16_Ib(MemOpr16, u8),
    /// `SAR mw32, CL`
    SAR_MwA32_Cl(MemOpr32),
    /// `SAR mw32, imm8`
    SAR_MwA32_Ib(MemOpr32, u8),
    /// `SAR r8, CL`
    SAR_Rb_Cl(GprIndex8),
    /// `SAR r8, imm8`
    SAR_Rb_Ib(GprIndex8, u8),
    /// `SAR r32, CL`
    SAR_Rd_Cl(GprIndex32),
    /// `SAR r32, imm8`
    SAR_Rd_Ib(GprIndex32, u8),
    /// `SAR r16, CL`
    SAR_Rw_Cl(GprIndex16),
    /// `SAR r16, imm8`
    SAR_Rw_Ib(GprIndex16, u8),
    /// `SBB mb16, imm8`
    SBB_MbA16_Ib(MemOpr16, u8),
    /// `SBB mb16, r8`
    SBB_MbA16_Rb(MemOpr16, GprIndex8),
    /// `SBB mb32, imm8`
    SBB_MbA32_Ib(MemOpr32, u8),
    /// `SBB mb32, r8`
    SBB_MbA32_Rb(MemOpr32, GprIndex8),
    /// `SBB md16, imm32`
    SBB_MdA16_Id(MemOpr16, u32),
    /// `SBB md16, r32`
    SBB_MdA16_Rd(MemOpr16, GprIndex32),
    /// `SBB md32, imm32`
    SBB_MdA32_Id(MemOpr32, u32),
    /// `SBB md32, r32`
    SBB_MdA32_Rd(MemOpr32, GprIndex32),
    /// `SBB mw16, imm16`
    SBB_MwA16_Iw(MemOpr16, u16),
    /// `SBB mw16, r16`
    SBB_MwA16_Rw(MemOpr16, GprIndex16),
    /// `SBB mw32, imm16`
    SBB_MwA32_Iw(MemOpr32, u16),
    /// `SBB mw32, r16`
    SBB_MwA32_Rw(MemOpr32, GprIndex16),
    /// `SBB r8, imm8`
    SBB_Rb_Ib(GprIndex8, u8),
    /// `SBB r8, mb16`
    SBB_Rb_MbA16(GprIndex8, MemOpr16),
    /// `SBB r8, mb32`
    SBB_Rb_MbA32(GprIndex8, MemOpr32),
    /// `SBB r8, r8`
    SBB_Rb_Rb(GprIndex8, GprIndex8),
    /// `SBB r32, imm32`
    SBB_Rd_Id(GprIndex32, u32),
    /// `SBB r32, md16`
    SBB_Rd_MdA16(GprIndex32, MemOpr16),
    /// `SBB r32, md32`
    SBB_Rd_MdA32(GprIndex32, MemOpr32),
    /// `SBB r32, r32`
    SBB_Rd_Rd(GprIndex32, GprIndex32),
    /// `SBB r16, imm16`
    SBB_Rw_Iw(GprIndex16, u16),
    /// `SBB r16, mw16`
    SBB_Rw_MwA16(GprIndex16, MemOpr16),
    /// `SBB r16, mw32`
    SBB_Rw_MwA32(GprIndex16, MemOpr32),
    /// `SBB r16, r16`
    SBB_Rw_Rw(GprIndex16, GprIndex16),
    /// `SCASB`
    SCASB(SrIndex, bool),
    /// `SCASD`
    SCASD(SrIndex, bool),
    /// `SCASW`
    SCASW(SrIndex, bool),
    /// `SETCC mb16`
    SETCC_MbA16(CC, MemOpr16),
    /// `SETCC mb32`
    SETCC_MbA32(CC, MemOpr32),
    /// `SETCC r8`
    SETCC_Rb(CC, GprIndex8),
    /// `SGDT mp16`
    SGDT_MpA16(MemOpr16),
    /// `SGDT mp32`
    SGDT_MpA32(MemOpr32),
    /// `SHLD md16, r32, CL`
    SHLD_MdA16_Rd_Cl(MemOpr16, GprIndex32),
    /// `SHLD md16, r32, imm8`
    SHLD_MdA16_Rd_Ib(MemOpr16, GprIndex32, u8),
    /// `SHLD md32, r32, CL`
    SHLD_MdA32_Rd_Cl(MemOpr32, GprIndex32),
    /// `SHLD md32, r32, imm8`
    SHLD_MdA32_Rd_Ib(MemOpr32, GprIndex32, u8),
    /// `SHLD mw16, r16, CL`
    SHLD_MwA16_Rw_Cl(MemOpr16, GprIndex16),
    /// `SHLD mw16, r16, imm8`
    SHLD_MwA16_Rw_Ib(MemOpr16, GprIndex16, u8),
    /// `SHLD mw32, r16, CL`
    SHLD_MwA32_Rw_Cl(MemOpr32, GprIndex16),
    /// `SHLD mw32, r16, imm8`
    SHLD_MwA32_Rw_Ib(MemOpr32, GprIndex16, u8),
    /// `SHLD r32, r32, CL`
    SHLD_Rd_Rd_Cl(GprIndex32, GprIndex32),
    /// `SHLD r32, r32, imm8`
    SHLD_Rd_Rd_Ib(GprIndex32, GprIndex32, u8),
    /// `SHLD r16, r16, CL`
    SHLD_Rw_Rw_Cl(GprIndex16, GprIndex16),
    /// `SHLD r16, r16, imm8`
    SHLD_Rw_Rw_Ib(GprIndex16, GprIndex16, u8),
    /// `SHL mb16, CL`
    SHL_MbA16_Cl(MemOpr16),
    /// `SHL mb16, imm8`
    SHL_MbA16_Ib(MemOpr16, u8),
    /// `SHL mb32, CL`
    SHL_MbA32_Cl(MemOpr32),
    /// `SHL mb32, imm8`
    SHL_MbA32_Ib(MemOpr32, u8),
    /// `SHL md16, CL`
    SHL_MdA16_Cl(MemOpr16),
    /// `SHL md16, imm8`
    SHL_MdA16_Ib(MemOpr16, u8),
    /// `SHL md32, CL`
    SHL_MdA32_Cl(MemOpr32),
    /// `SHL md32, imm8`
    SHL_MdA32_Ib(MemOpr32, u8),
    /// `SHL mw16, CL`
    SHL_MwA16_Cl(MemOpr16),
    /// `SHL mw16, imm8`
    SHL_MwA16_Ib(MemOpr16, u8),
    /// `SHL mw32, CL`
    SHL_MwA32_Cl(MemOpr32),
    /// `SHL mw32, imm8`
    SHL_MwA32_Ib(MemOpr32, u8),
    /// `SHL r8, CL`
    SHL_Rb_Cl(GprIndex8),
    /// `SHL r8, imm8`
    SHL_Rb_Ib(GprIndex8, u8),
    /// `SHL r32, CL`
    SHL_Rd_Cl(GprIndex32),
    /// `SHL r32, imm8`
    SHL_Rd_Ib(GprIndex32, u8),
    /// `SHL r16, CL`
    SHL_Rw_Cl(GprIndex16),
    /// `SHL r16, imm8`
    SHL_Rw_Ib(GprIndex16, u8),
    /// `SHRD md16, r32, CL`
    SHRD_MdA16_Rd_Cl(MemOpr16, GprIndex32),
    /// `SHRD md16, r32, imm8`
    SHRD_MdA16_Rd_Ib(MemOpr16, GprIndex32, u8),
    /// `SHRD md32, r32, CL`
    SHRD_MdA32_Rd_Cl(MemOpr32, GprIndex32),
    /// `SHRD md32, r32, imm8`
    SHRD_MdA32_Rd_Ib(MemOpr32, GprIndex32, u8),
    /// `SHRD mw16, r16, CL`
    SHRD_MwA16_Rw_Cl(MemOpr16, GprIndex16),
    /// `SHRD mw16, r16, imm8`
    SHRD_MwA16_Rw_Ib(MemOpr16, GprIndex16, u8),
    /// `SHRD mw32, r16, CL`
    SHRD_MwA32_Rw_Cl(MemOpr32, GprIndex16),
    /// `SHRD mw32, r16, imm8`
    SHRD_MwA32_Rw_Ib(MemOpr32, GprIndex16, u8),
    /// `SHRD r32, r32, CL`
    SHRD_Rd_Rd_Cl(GprIndex32, GprIndex32),
    /// `SHRD r32, r32, imm8`
    SHRD_Rd_Rd_Ib(GprIndex32, GprIndex32, u8),
    /// `SHRD r16, r16, CL`
    SHRD_Rw_Rw_Cl(GprIndex16, GprIndex16),
    /// `SHRD r16, r16, imm8`
    SHRD_Rw_Rw_Ib(GprIndex16, GprIndex16, u8),
    /// `SHR mb16, CL`
    SHR_MbA16_Cl(MemOpr16),
    /// `SHR mb16, imm8`
    SHR_MbA16_Ib(MemOpr16, u8),
    /// `SHR mb32, CL`
    SHR_MbA32_Cl(MemOpr32),
    /// `SHR mb32, imm8`
    SHR_MbA32_Ib(MemOpr32, u8),
    /// `SHR md16, CL`
    SHR_MdA16_Cl(MemOpr16),
    /// `SHR md16, imm8`
    SHR_MdA16_Ib(MemOpr16, u8),
    /// `SHR md32, CL`
    SHR_MdA32_Cl(MemOpr32),
    /// `SHR md32, imm8`
    SHR_MdA32_Ib(MemOpr32, u8),
    /// `SHR mw16, CL`
    SHR_MwA16_Cl(MemOpr16),
    /// `SHR mw16, imm8`
    SHR_MwA16_Ib(MemOpr16, u8),
    /// `SHR mw32, CL`
    SHR_MwA32_Cl(MemOpr32),
    /// `SHR mw32, imm8`
    SHR_MwA32_Ib(MemOpr32, u8),
    /// `SHR r8, CL`
    SHR_Rb_Cl(GprIndex8),
    /// `SHR r8, imm8`
    SHR_Rb_Ib(GprIndex8, u8),
    /// `SHR r32, CL`
    SHR_Rd_Cl(GprIndex32),
    /// `SHR r32, imm8`
    SHR_Rd_Ib(GprIndex32, u8),
    /// `SHR r16, CL`
    SHR_Rw_Cl(GprIndex16),
    /// `SHR r16, imm8`
    SHR_Rw_Ib(GprIndex16, u8),
    /// `SIDT mp16`
    SIDT_MpA16(MemOpr16),
    /// `SIDT mp32`
    SIDT_MpA32(MemOpr32),
    /// `SLDT mw16`
    SLDT_MwA16(MemOpr16),
    /// `SLDT mw32`
    SLDT_MwA32(MemOpr32),
    /// `SLDT r16`
    SLDT_Rw(GprIndex16),
    /// `SMSW mw16`
    SMSW_MwA16(MemOpr16),
    /// `SMSW mw32`
    SMSW_MwA32(MemOpr32),
    /// `SMSW r16`
    SMSW_Rw(GprIndex16),
    /// `STC`
    STC,
    /// `STD`
    STD,
    /// `STI`
    STI,
    /// `STOSB`
    STOSB(SrIndex, bool),
    /// `STOSD`
    STOSD(SrIndex, bool),
    /// `STOSW`
    STOSW(SrIndex, bool),
    /// `STR mw16`
    STR_MwA16(MemOpr16),
    /// `STR mw32`
    STR_MwA32(MemOpr32),
    /// `STR r16`
    STR_Rw(GprIndex16),
    /// `SUB mb16, imm8`
    SUB_MbA16_Ib(MemOpr16, u8),
    /// `SUB mb16, r8`
    SUB_MbA16_Rb(MemOpr16, GprIndex8),
    /// `SUB mb32, imm8`
    SUB_MbA32_Ib(MemOpr32, u8),
    /// `SUB mb32, r8`
    SUB_MbA32_Rb(MemOpr32, GprIndex8),
    /// `SUB md16, imm32`
    SUB_MdA16_Id(MemOpr16, u32),
    /// `SUB md16, r32`
    SUB_MdA16_Rd(MemOpr16, GprIndex32),
    /// `SUB md32, imm32`
    SUB_MdA32_Id(MemOpr32, u32),
    /// `SUB md32, r32`
    SUB_MdA32_Rd(MemOpr32, GprIndex32),
    /// `SUB mw16, imm16`
    SUB_MwA16_Iw(MemOpr16, u16),
    /// `SUB mw16, r16`
    SUB_MwA16_Rw(MemOpr16, GprIndex16),
    /// `SUB mw32, imm16`
    SUB_MwA32_Iw(MemOpr32, u16),
    /// `SUB mw32, r16`
    SUB_MwA32_Rw(MemOpr32, GprIndex16),
    /// `SUB r8, imm8`
    SUB_Rb_Ib(GprIndex8, u8),
    /// `SUB r8, mb16`
    SUB_Rb_MbA16(GprIndex8, MemOpr16),
    /// `SUB r8, mb32`
    SUB_Rb_MbA32(GprIndex8, MemOpr32),
    /// `SUB r8, r8`
    SUB_Rb_Rb(GprIndex8, GprIndex8),
    /// `SUB r32, imm32`
    SUB_Rd_Id(GprIndex32, u32),
    /// `SUB r32, md16`
    SUB_Rd_MdA16(GprIndex32, MemOpr16),
    /// `SUB r32, md32`
    SUB_Rd_MdA32(GprIndex32, MemOpr32),
    /// `SUB r32, r32`
    SUB_Rd_Rd(GprIndex32, GprIndex32),
    /// `SUB r16, imm16`
    SUB_Rw_Iw(GprIndex16, u16),
    /// `SUB r16, mw16`
    SUB_Rw_MwA16(GprIndex16, MemOpr16),
    /// `SUB r16, mw32`
    SUB_Rw_MwA32(GprIndex16, MemOpr32),
    /// `SUB r16, r16`
    SUB_Rw_Rw(GprIndex16, GprIndex16),
    /// `SWAPGS`
    SWAPGS,
    /// `SYSCALL`
    SYSCALL,
    /// `SYSENTER`
    SYSENTER,
    /// `SYSEXIT`
    SYSEXIT,
    /// `SYSRET`
    SYSRET,
    /// `TEST mb16, imm8`
    TEST_MbA16_Ib(MemOpr16, u8),
    /// `TEST mb16, r8`
    TEST_MbA16_Rb(MemOpr16, GprIndex8),
    /// `TEST mb32, imm8`
    TEST_MbA32_Ib(MemOpr32, u8),
    /// `TEST mb32, r8`
    TEST_MbA32_Rb(MemOpr32, GprIndex8),
    /// `TEST md16, imm32`
    TEST_MdA16_Id(MemOpr16, u32),
    /// `TEST md16, r32`
    TEST_MdA16_Rd(MemOpr16, GprIndex32),
    /// `TEST md32, imm32`
    TEST_MdA32_Id(MemOpr32, u32),
    /// `TEST md32, r32`
    TEST_MdA32_Rd(MemOpr32, GprIndex32),
    /// `TEST mw16, imm16`
    TEST_MwA16_Iw(MemOpr16, u16),
    /// `TEST mw16, r16`
    TEST_MwA16_Rw(MemOpr16, GprIndex16),
    /// `TEST mw32, imm16`
    TEST_MwA32_Iw(MemOpr32, u16),
    /// `TEST mw32, r16`
    TEST_MwA32_Rw(MemOpr32, GprIndex16),
    /// `TEST r8, imm8`
    TEST_Rb_Ib(GprIndex8, u8),
    /// `TEST r8, r8`
    TEST_Rb_Rb(GprIndex8, GprIndex8),
    /// `TEST r32, imm32`
    TEST_Rd_Id(GprIndex32, u32),
    /// `TEST r32, r32`
    TEST_Rd_Rd(GprIndex32, GprIndex32),
    /// `TEST r16, imm16`
    TEST_Rw_Iw(GprIndex16, u16),
    /// `TEST r16, r16`
    TEST_Rw_Rw(GprIndex16, GprIndex16),
    /// `UD`
    UD,
    /// `VERR mw16`
    VERR_MwA16(MemOpr16),
    /// `VERR mw32`
    VERR_MwA32(MemOpr32),
    /// `VERR r16`
    VERR_Rw(GprIndex16),
    /// `VERW mw16`
    VERW_MwA16(MemOpr16),
    /// `VERW mw32`
    VERW_MwA32(MemOpr32),
    /// `VERW r16`
    VERW_Rw(GprIndex16),
    /// `VMCALL`
    VMCALL,
    /// `VMLAUNCH`
    VMLAUNCH,
    /// `VMRESUME`
    VMRESUME,
    /// `VMXOFF`
    VMXOFF,
    /// `WAIT`
    WAIT,
    /// `WBINVD`
    WBINVD,
    /// `WRMSR`
    WRMSR,
    /// `XADD mb16, r8`
    XADD_MbA16_Rb(MemOpr16, GprIndex8),
    /// `XADD mb32, r8`
    XADD_MbA32_Rb(MemOpr32, GprIndex8),
    /// `XADD md16, r32`
    XADD_MdA16_Rd(MemOpr16, GprIndex32),
    /// `XADD md32, r32`
    XADD_MdA32_Rd(MemOpr32, GprIndex32),
    /// `XADD mw16, r16`
    XADD_MwA16_Rw(MemOpr16, GprIndex16),
    /// `XADD mw32, r16`
    XADD_MwA32_Rw(MemOpr32, GprIndex16),
    /// `XADD r8, r8`
    XADD_Rb_Rb(GprIndex8, GprIndex8),
    /// `XADD r32, r32`
    XADD_Rd_Rd(GprIndex32, GprIndex32),
    /// `XADD r16, r16`
    XADD_Rw_Rw(GprIndex16, GprIndex16),
    /// `XCHG mb16, r8`
    XCHG_MbA16_Rb(MemOpr16, GprIndex8),
    /// `XCHG mb32, r8`
    XCHG_MbA32_Rb(MemOpr32, GprIndex8),
    /// `XCHG md16, r32`
    XCHG_MdA16_Rd(MemOpr16, GprIndex32),
    /// `XCHG md32, r32`
    XCHG_MdA32_Rd(MemOpr32, GprIndex32),
    /// `XCHG mw16, r16`
    XCHG_MwA16_Rw(MemOpr16, GprIndex16),
    /// `XCHG mw32, r16`
    XCHG_MwA32_Rw(MemOpr32, GprIndex16),
    /// `XCHG r8, r8`
    XCHG_Rb_Rb(GprIndex8, GprIndex8),
    /// `XCHG r32, r32`
    XCHG_Rd_Rd(GprIndex32, GprIndex32),
    /// `XCHG r16, r16`
    XCHG_Rw_Rw(GprIndex16, GprIndex16),
    /// `XGETBV`
    XGETBV,
    /// `XLAT mb16`
    XLAT_MbA16(MemOpr16),
    /// `XLAT mb32`
    XLAT_MbA32(MemOpr32),
    /// `XOR mb16, imm8`
    XOR_MbA16_Ib(MemOpr16, u8),
    /// `XOR mb16, r8`
    XOR_MbA16_Rb(MemOpr16, GprIndex8),
    /// `XOR mb32, imm8`
    XOR_MbA32_Ib(MemOpr32, u8),
    /// `XOR mb32, r8`
    XOR_MbA32_Rb(MemOpr32, GprIndex8),
    /// `XOR md16, imm32`
    XOR_MdA16_Id(MemOpr16, u32),
    /// `XOR md16, r32`
    XOR_MdA16_Rd(MemOpr16, GprIndex32),
    /// `XOR md32, imm32`
    XOR_MdA32_Id(MemOpr32, u32),
    /// `XOR md32, r32`
    XOR_MdA32_Rd(MemOpr32, GprIndex32),
    /// `XOR mw16, imm16`
    XOR_MwA16_Iw(MemOpr16, u16),
    /// `XOR mw16, r16`
    XOR_MwA16_Rw(MemOpr16, GprIndex16),
    /// `XOR mw32, imm16`
    XOR_MwA32_Iw(MemOpr32, u16),
    /// `XOR mw32, r16`
    XOR_MwA32_Rw(MemOpr32, GprIndex16),
    /// `XOR r8, imm8`
    XOR_Rb_Ib(GprIndex8, u8),
    /// `XOR r8, mb16`
    XOR_Rb_MbA16(GprIndex8, MemOpr16),
    /// `XOR r8, mb32`
    XOR_Rb_MbA32(GprIndex8, MemOpr32),
    /// `XOR r8, r8`
    XOR_Rb_Rb(GprIndex8, GprIndex8),
    /// `XOR r32, imm32`
    XOR_Rd_Id(GprIndex32, u32),
    /// `XOR r32, md16`
    XOR_Rd_MdA16(GprIndex32, MemOpr16),
    /// `XOR r32, md32`
    XOR_Rd_MdA32(GprIndex32, MemOpr32),
    /// `XOR r32, r32`
    XOR_Rd_Rd(GprIndex32, GprIndex32),
    /// `XOR r16, imm16`
    XOR_Rw_Iw(GprIndex16, u16),
    /// `XOR r16, mw16`
    XOR_Rw_MwA16(GprIndex16, MemOpr16),
    /// `XOR r16, mw32`
    XOR_Rw_MwA32(GprIndex16, MemOpr32),
    /// `XOR r16, r16`
    XOR_Rw_Rw(GprIndex16, GprIndex16),
    /// `XSETBV`
    XSETBV,
}

} // verus!
