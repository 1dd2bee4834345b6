//! Processor State

use vstd::prelude::*;
use crate::ir86::encoding::{CC, GprIndex8, GprIndex16, GprIndex32, SrIndex};
use crate::ir86::types::SegmentSelector;
use crate::ume86::cpu::Generation;
use crate::ume86::flags::{Flags, FlagsRegister, has_bits};
use crate::ume86::gpr::{
    hi8, lemma_partial_writes, lo16, lo8, set_hi8, set_lo16, set_lo8, GeneralPurposeRegister, Gpr16,
    Gpr32, Gpr8, PartialRegister, SegmentRegister,
};
use crate::ume86::lazy::LazyOp;
use crate::ume86::types::{Limit, Linear32};

verus! {

/// Runtime Register Index
#[derive(Debug, Clone, Copy, PartialEq, Eq, Structural)]
pub enum RtReg {
    EAX,
    ECX,
    EDX,
    EBX,
    ESP,
    EBP,
    ESI,
    EDI,
    /// The instruction pointer
    EIP,
    /// Memory Effective Address
    MemAddr,
    /// Memory Temp Data
    MemData,
    /// Zero Register
    Zero,
}

impl RtReg {
    /// The slot of the register in the register file.
    pub open spec fn index(self) -> int {
        match self {
            RtReg::EAX => 0,
            RtReg::ECX => 1,
            RtReg::EDX => 2,
            RtReg::EBX => 3,
            RtReg::ESP => 4,
            RtReg::EBP => 5,
            RtReg::ESI => 6,
            RtReg::EDI => 7,
            RtReg::EIP => 8,
            RtReg::MemAddr => 9,
            RtReg::MemData => 10,
            RtReg::Zero => 11,
        }
    }

    /// The slot of the register in the register file.
    pub fn to_usize(&self) -> (r: usize)
        ensures
            r == self.index(),
    {
        match self {
            RtReg::EAX => 0,
            RtReg::ECX => 1,
            RtReg::EDX => 2,
            RtReg::EBX => 3,
            RtReg::ESP => 4,
            RtReg::EBP => 5,
            RtReg::ESI => 6,
            RtReg::EDI => 7,
            RtReg::EIP => 8,
            RtReg::MemAddr => 9,
            RtReg::MemData => 10,
            RtReg::Zero => 11,
        }
    }
}

/// Runtime Register Index for 8-bit registers
#[derive(Debug, Clone, Copy, PartialEq, Eq, Structural)]
pub enum RtReg8 {
    AL,
    CL,
    DL,
    BL,
    AH,
    CH,
    DH,
    BH,
    /// The low byte of the memory temp register
    MemData,
}

impl RtReg8 {
    /// The slot of the 32-bit register that holds the byte.
    pub open spec fn slot(self) -> int {
        match self {
            RtReg8::AL | RtReg8::AH => 0,
            RtReg8::CL | RtReg8::CH => 1,
            RtReg8::DL | RtReg8::DH => 2,
            RtReg8::BL | RtReg8::BH => 3,
            RtReg8::MemData => 10,
        }
    }

    /// The slot of the 32-bit register that holds the byte.
    pub fn to_usize(&self) -> (r: usize)
        ensures
            r == self.slot(),
    {
        match self {
            RtReg8::AL | RtReg8::AH => 0,
            RtReg8::CL | RtReg8::CH => 1,
            RtReg8::DL | RtReg8::DH => 2,
            RtReg8::BL | RtReg8::BH => 3,
            RtReg8::MemData => 10,
        }
    }

    /// Whether the byte is the second byte of its register.
    pub fn high(&self) -> (r: bool)
        ensures
            r == self.is_high(),
    {
        match self {
            RtReg8::AH | RtReg8::CH | RtReg8::DH | RtReg8::BH => true,
            _ => false,
        }
    }

    /// Whether the byte is the second byte of its register.
    pub open spec fn is_high(self) -> bool {
        match self {
            RtReg8::AH | RtReg8::CH | RtReg8::DH | RtReg8::BH => true,
            _ => false,
        }
    }
}

/// The byte that byte register `r` reads from register values `regs`.
pub open spec fn read8_of(regs: Seq<u32>, r: RtReg8) -> u8 {
    if r.is_high() {
        hi8(regs[r.slot()])
    } else {
        lo8(regs[r.slot()])
    }
}

/// The value of the register holding byte register `r` once `v` is written to it.
pub open spec fn write8_of(regs: Seq<u32>, r: RtReg8, v: u8) -> u32 {
    if r.is_high() {
        set_hi8(regs[r.slot()], v)
    } else {
        set_lo8(regs[r.slot()], v)
    }
}

/// The runtime register of a general purpose register.
pub open spec fn rt_of(index: GprIndex32) -> RtReg {
    match index {
        GprIndex32::EAX => RtReg::EAX,
        GprIndex32::ECX => RtReg::ECX,
        GprIndex32::EDX => RtReg::EDX,
        GprIndex32::EBX => RtReg::EBX,
        GprIndex32::ESP => RtReg::ESP,
        GprIndex32::EBP => RtReg::EBP,
        GprIndex32::ESI => RtReg::ESI,
        GprIndex32::EDI => RtReg::EDI,
    }
}

/// The runtime byte register of an 8-bit general purpose register.
pub open spec fn rt8_of(index: GprIndex8) -> RtReg8 {
    match index {
        GprIndex8::AL => RtReg8::AL,
        GprIndex8::CL => RtReg8::CL,
        GprIndex8::DL => RtReg8::DL,
        GprIndex8::BL => RtReg8::BL,
        GprIndex8::AH => RtReg8::AH,
        GprIndex8::CH => RtReg8::CH,
        GprIndex8::DH => RtReg8::DH,
        GprIndex8::BH => RtReg8::BH,
    }
}

impl From<GprIndex32> for RtReg {
    fn from(index: GprIndex32) -> (r: Self) {
        match index {
            GprIndex32::EAX => RtReg::EAX,
            GprIndex32::ECX => RtReg::ECX,
            GprIndex32::EDX => RtReg::EDX,
            GprIndex32::EBX => RtReg::EBX,
            GprIndex32::ESP => RtReg::ESP,
            GprIndex32::EBP => RtReg::EBP,
            GprIndex32::ESI => RtReg::ESI,
            GprIndex32::EDI => RtReg::EDI,
        }
    }
}

impl vstd::std_specs::convert::FromSpecImpl<GprIndex32> for RtReg {
    open spec fn obeys_from_spec() -> bool {
        true
    }

    open spec fn from_spec(index: GprIndex32) -> RtReg {
        rt_of(index)
    }
}

impl From<GprIndex8> for RtReg8 {
    fn from(index: GprIndex8) -> (r: Self) {
        match index {
            GprIndex8::AL => RtReg8::AL,
            GprIndex8::CL => RtReg8::CL,
            GprIndex8::DL => RtReg8::DL,
            GprIndex8::BL => RtReg8::BL,
            GprIndex8::AH => RtReg8::AH,
            GprIndex8::CH => RtReg8::CH,
            GprIndex8::DH => RtReg8::DH,
            GprIndex8::BH => RtReg8::BH,
        }
    }
}

impl vstd::std_specs::convert::FromSpecImpl<GprIndex8> for RtReg8 {
    open spec fn obeys_from_spec() -> bool {
        true
    }

    open spec fn from_spec(index: GprIndex8) -> RtReg8 {
        rt8_of(index)
    }
}

/// What a processor state holds.
#[verifier::ext_equal]
pub struct StateView {
    /// The 16 register slots; `RtReg::index` names them.
    pub regs: Seq<u32>,
    /// The segment registers, by `SrIndex::index`.
    pub srs: Seq<SegmentRegister>,
    pub flags: FlagsRegister,
    pub lazy_op: LazyOp,
    pub generation: Generation,
}

impl StateView {
    /// Whether the flags can always be computed: CF is valid whenever the last
    /// operation leaves it undefined.
    pub open spec fn wf(self) -> bool {
        self.lazy_op.cf_computable(self.flags.valid_mask.0)
    }

    /// The state with register slot `i` set to `v`.
    pub open spec fn with_reg(self, i: int, v: u32) -> StateView {
        StateView { regs: self.regs.update(i, v), ..self }
    }
}

/// The flag register after the flags that condition `cc` reads are resolved.
pub open spec fn resolved_for_cc(op: LazyOp, f: FlagsRegister, cc: CC) -> FlagsRegister {
    match cc {
        CC::O | CC::NO => op.resolved_of(f),
        CC::C | CC::NC => op.resolved_cf(f),
        CC::Z | CC::NZ => f,
        CC::BE | CC::NBE => if has_bits(f.dynamic_value.0, 0x40) { f } else { op.resolved_cf(f) },
        CC::S | CC::NS => op.resolved_sf(f),
        CC::P | CC::NP => op.resolved_pf(f),
        CC::L | CC::NL | CC::LE | CC::NLE => op.resolved_of(op.resolved_sf(f)),
    }
}

/// Whether condition `cc` holds on (resolved) flags `f`.
pub open spec fn cc_holds(cc: CC, f: FlagsRegister) -> bool {
    let d = f.dynamic_value.0;
    let cf = has_bits(d, 0x1);
    let pf = has_bits(d, 0x4);
    let zf = has_bits(d, 0x40);
    let sf = has_bits(d, 0x80);
    let of = has_bits(d, 0x800);
    match cc {
        CC::O => of,
        CC::NO => !of,
        CC::C => cf,
        CC::NC => !cf,
        CC::Z => zf,
        CC::NZ => !zf,
        CC::BE => zf || cf,
        CC::NBE => !(zf || cf),
        CC::S => sf,
        CC::NS => !sf,
        CC::P => pf,
        CC::NP => !pf,
        CC::L => sf != of,
        CC::NL => sf == of,
        CC::LE => zf || sf != of,
        CC::NLE => !(zf || sf != of),
    }
}

/// Resolving one flag keeps the bits of the other flags.
pub proof fn lemma_flag_bits_independent(d: u32, v: bool)
    ensures
        has_bits(crate::ume86::flags::with_bits(d, 0x800, v), 0x80) == has_bits(d, 0x80),
        has_bits(crate::ume86::flags::with_bits(d, 0x801, v), 0x80) == has_bits(d, 0x80),
        has_bits(crate::ume86::flags::with_bits(d, 0x1, v), 0x80) == has_bits(d, 0x80),
        has_bits(crate::ume86::flags::with_bits(d, 0x800, v), 0x40) == has_bits(d, 0x40),
        has_bits(crate::ume86::flags::with_bits(d, 0x801, v), 0x40) == has_bits(d, 0x40),
        has_bits(crate::ume86::flags::with_bits(d, 0x1, v), 0x40) == has_bits(d, 0x40),
        has_bits(crate::ume86::flags::with_bits(d, 0x80, v), 0x40) == has_bits(d, 0x40),
{
    assert(
        (((if v { d | 0x800u32 } else { d & !0x800u32 }) & 0x80u32 == 0x80u32) == (d & 0x80u32 == 0x80u32)) &&
        (((if v { d | 0x801u32 } else { d & !0x801u32 }) & 0x80u32 == 0x80u32) == (d & 0x80u32 == 0x80u32)) &&
        (((if v { d | 0x1u32 } else { d & !0x1u32 }) & 0x80u32 == 0x80u32) == (d & 0x80u32 == 0x80u32)) &&
        (((if v { d | 0x800u32 } else { d & !0x800u32 }) & 0x40u32 == 0x40u32) == (d & 0x40u32 == 0x40u32)) &&
        (((if v { d | 0x801u32 } else { d & !0x801u32 }) & 0x40u32 == 0x40u32) == (d & 0x40u32 == 0x40u32)) &&
        (((if v { d | 0x1u32 } else { d & !0x1u32 }) & 0x40u32 == 0x40u32) == (d & 0x40u32 == 0x40u32)) &&
        (((if v { d | 0x80u32 } else { d & !0x80u32 }) & 0x40u32 == 0x40u32) == (d & 0x40u32 == 0x40u32))
    ) by (bit_vector);
}

/// Each odd condition code is the negation of the even one before it (NO of
/// O, NC of C, ..., NLE of LE): both resolve the same flags, evaluating one
/// after the other resolves nothing more, and on those flags they disagree.
pub proof fn lemma_cc_pairs(op: LazyOp, f: FlagsRegister, even: CC, odd: CC)
    requires
        even.code() % 2 == 0,
        odd.code() == even.code() + 1,
    ensures
        resolved_for_cc(op, f, odd) == resolved_for_cc(op, f, even),
        resolved_for_cc(op, resolved_for_cc(op, f, even), odd) == resolved_for_cc(op, f, even),
        resolved_for_cc(op, resolved_for_cc(op, f, odd), even) == resolved_for_cc(op, f, odd),
        cc_holds(odd, resolved_for_cc(op, f, even)) == !cc_holds(even, resolved_for_cc(op, f, even)),
{
    crate::ume86::lazy::lemma_resolved_idempotent(op, f);
    crate::ume86::lazy::lemma_resolved_idempotent(op, op.resolved_sf(f));
    lemma_flag_bits_independent(f.dynamic_value.0, op.spec_cf());
    match even {
        CC::BE => {
            if !has_bits(f.dynamic_value.0, 0x40) {
                assert(has_bits(op.resolved_cf(f).dynamic_value.0, 0x40) == has_bits(f.dynamic_value.0, 0x40));
            }
        },
        _ => {},
    }
}

/// Processor State
pub struct ProcessorState {
    gpr: [GeneralPurposeRegister; 16],
    sr: [SegmentRegister; 6],
    flags: FlagsRegister,
    lazy_op: LazyOp,
    generation: Generation,
}

impl View for ProcessorState {
    type V = StateView;

    closed spec fn view(&self) -> StateView {
        StateView {
            regs: Seq::new(16, |i: int| self.gpr@[i].value),
            srs: self.sr@,
            flags: self.flags,
            lazy_op: self.lazy_op,
            generation: self.generation,
        }
    }
}

impl ProcessorState {
    /// A state has 16 register slots and 6 segment registers.
    pub proof fn lemma_view_lens(&self)
        ensures
            self@.regs.len() == 16,
            self@.srs.len() == 6,
    {
    }

    /// Creates a new processor state with the specified CPU generation.
    pub fn new(generation: Generation) -> (r: Self)
        ensures
            r@.wf(),
            r@.regs == Seq::new(16, |i: int| 0u32),
            r@.srs == Seq::new(6, |i: int| SegmentRegister {
                sel: SegmentSelector(0),
                base: Linear32(0),
                limit: Limit(0),
                ar: 0,
            }),
            r@.flags == FlagsRegister::spec_new(generation),
            r@.lazy_op == LazyOp::And8(0, 0),
            r@.generation == generation,
    {
        let zero_sr = SegmentRegister {
            sel: SegmentSelector(0),
            base: Linear32(0),
            limit: Limit(0),
            ar: 0,
        };
        let mut state = ProcessorState {
            gpr: [GeneralPurposeRegister { value: 0 }; 16],
            sr: [zero_sr; 6],
            flags: FlagsRegister::new(generation),
            lazy_op: LazyOp::And8(0, 0),
            generation,
        };
        state.init(generation);
        assert(state@.regs =~= Seq::new(16, |i: int| 0u32));
        assert(state@.srs =~= Seq::new(6, |i: int| zero_sr));
        state
    }

    /// Initializes the processor state based on the CPU generation.
    pub fn init(&mut self, generation: Generation)
        ensures
            final(self)@ == (StateView {
                flags: FlagsRegister::spec_new(generation),
                lazy_op: LazyOp::And8(0, 0),
                generation,
                ..old(self)@
            }),
            final(self)@.wf(),
    {
        self.generation = generation;
        self.flags = FlagsRegister::new(generation);
        self.lazy_op = LazyOp::default();
        proof {
            crate::ume86::lazy::lemma_or_bits(0, 0xffff_ffff);
        }
    }

    /// Initializes the processor state for real mode.
    pub fn init_rm(&mut self)
        ensures
            final(self)@.regs == old(self)@.regs.update(0, 0).update(1, 0).update(2, 0)
                .update(3, 0).update(4, 0).update(5, 0).update(6, 0).update(7, 0).update(8, 0xfff0),
            final(self)@.srs == seq![
                SegmentRegister::spec_data_rm(),
                SegmentRegister::spec_code_rm(),
                SegmentRegister::spec_data_rm(),
                SegmentRegister::spec_data_rm(),
                SegmentRegister::spec_data_rm(),
                SegmentRegister::spec_data_rm(),
            ],
            final(self)@.flags == FlagsRegister::spec_new(old(self)@.generation),
            final(self)@.lazy_op == LazyOp::And8(0, 0),
            final(self)@.generation == old(self)@.generation,
            final(self)@.wf(),
    {
        self.flags = FlagsRegister::new(self.generation);
        self.lazy_op = LazyOp::default();

        self.sr_mut(SrIndex::CS).init_code_rm();
        self.sr_mut(SrIndex::DS).init_data_rm();
        self.sr_mut(SrIndex::ES).init_data_rm();
        self.sr_mut(SrIndex::FS).init_data_rm();
        self.sr_mut(SrIndex::GS).init_data_rm();
        self.sr_mut(SrIndex::SS).init_data_rm();

        self.eax().write(0);
        self.ebx().write(0);
        self.ecx().write(0);
        self.edx().write(0);
        self.esp().write(0);
        self.ebp().write(0);
        self.esi().write(0);
        self.edi().write(0);

        self.eip().write(0x0000_fff0);
        proof {
            crate::ume86::lazy::lemma_or_bits(0, 0xffff_ffff);
        }
        assert(self@.srs =~= seq![
            SegmentRegister::spec_data_rm(),
            SegmentRegister::spec_code_rm(),
            SegmentRegister::spec_data_rm(),
            SegmentRegister::spec_data_rm(),
            SegmentRegister::spec_data_rm(),
            SegmentRegister::spec_data_rm(),
        ]);
        assert(self@.regs =~= old(self)@.regs.update(0, 0).update(1, 0).update(2, 0)
                .update(3, 0).update(4, 0).update(5, 0).update(6, 0).update(7, 0).update(8, 0xfff0));
    }

    /// Returns the CPU generation.
    pub fn generation(&self) -> (r: Generation)
        ensures
            r == self@.generation,
    {
        self.generation
    }

    /// The value of a runtime register.
    pub fn read32(&self, r: RtReg) -> (v: u32)
        ensures
            v == self@.regs[r.index()],
    {
        self.gpr[r.to_usize()].value
    }

    /// Sets a runtime register.
    pub fn write32(&mut self, r: RtReg, v: u32)
        ensures
            final(self)@ == old(self)@.with_reg(r.index(), v),
    {
        self.runtime(r).e().write(v);
    }

    /// The low 16 bits of a runtime register.
    pub fn read16(&self, r: RtReg) -> (v: u16)
        ensures
            v == lo16(self@.regs[r.index()]),
    {
        let x = self.gpr[r.to_usize()].value;
        proof {
            lemma_partial_writes(x, 0, 0);
        }
        (x & 0xffff) as u16
    }

    /// Sets the low 16 bits of a runtime register.
    pub fn write16(&mut self, r: RtReg, v: u16)
        ensures
            final(self)@ == old(self)@.with_reg(r.index(), set_lo16(old(self)@.regs[r.index()], v)),
    {
        self.runtime(r).w().write(v);
    }

    /// The byte that a runtime byte register names.
    pub fn read8(&self, r: RtReg8) -> (v: u8)
        ensures
            v == read8_of(self@.regs, r),
    {
        let x = self.gpr[r.to_usize()].value;
        proof {
            lemma_partial_writes(x, 0, 0);
        }
        if r.high() {
            ((x >> 8) & 0xff) as u8
        } else {
            (x & 0xff) as u8
        }
    }

    /// Sets the byte that a runtime byte register names.
    pub fn write8(&mut self, r: RtReg8, v: u8)
        ensures
            final(self)@ == old(self)@.with_reg(r.slot(), write8_of(old(self)@.regs, r, v)),
    {
        self.rt8(r).write(v);
    }

    /// Returns the general-purpose register at the specified index.
    pub fn gpr(&mut self, index: GprIndex32) -> (r: &mut GeneralPurposeRegister)
        ensures
            r.value == old(self)@.regs[rt_of(index).index()],
            final(self)@ == old(self)@.with_reg(rt_of(index).index(), final(r).value),
    {
        let rt: RtReg = RtReg::from(index);
        self.runtime(rt)
    }

    /// Returns the runtime register at the specified index.
    pub fn runtime(&mut self, index: RtReg) -> (r: &mut GeneralPurposeRegister)
        ensures
            r.value == old(self)@.regs[index.index()],
            final(self)@ == old(self)@.with_reg(index.index(), final(r).value),
    {
        let i = index.to_usize();
        &mut self.gpr[i]
    }

    pub fn gpr16(&mut self, index: GprIndex16) -> (r: Gpr16<'_>)
        ensures
            *r.0 == old(self)@.regs[index.index() as int],
            final(self)@ == old(self)@.with_reg(index.index() as int, *final(r.0)),
    {
        self.gpr(index.upgrade()).w()
    }

    pub fn gpr8(&mut self, index: GprIndex8) -> (r: Gpr8<'_>)
        ensures
            *r.reg == old(self)@.regs[rt8_of(index).slot()],
            r.high == rt8_of(index).is_high(),
            final(self)@ == old(self)@.with_reg(rt8_of(index).slot(), *final(r.reg)),
    {
        let rt: RtReg8 = RtReg8::from(index);
        self.rt8(rt)
    }

    pub fn rt8(&mut self, index: RtReg8) -> (r: Gpr8<'_>)
        ensures
            *r.reg == old(self)@.regs[index.slot()],
            r.high == index.is_high(),
            final(self)@ == old(self)@.with_reg(index.slot(), *final(r.reg)),
    {
        match index {
            RtReg8::AL => self.al(),
            RtReg8::CL => self.cl(),
            RtReg8::DL => self.dl(),
            RtReg8::BL => self.bl(),
            RtReg8::AH => self.ah(),
            RtReg8::CH => self.ch(),
            RtReg8::DH => self.dh(),
            RtReg8::BH => self.bh(),
            RtReg8::MemData => self.runtime(RtReg::MemData).l(),
        }
    }

    /// Returns the segment register at the specified index.
    pub fn sr(&self, index: SrIndex) -> (r: &SegmentRegister)
        ensures
            *r == self@.srs[index.index() as int],
    {
        &self.sr[index.to_usize()]
    }

    /// Returns a mutable reference to the segment register at the specified index.
    pub fn sr_mut(&mut self, index: SrIndex) -> (r: &mut SegmentRegister)
        ensures
            *r == old(self)@.srs[index.index() as int],
            final(self)@ == (StateView {
                srs: old(self)@.srs.update(index.index() as int, *final(r)),
                ..old(self)@
            }),
    {
        let i = index.to_usize();
        &mut self.sr[i]
    }

    pub fn al(&mut self) -> (r: Gpr8<'_>)
        ensures
            *r.reg == old(self)@.regs[0],
            !r.high,
            final(self)@ == old(self)@.with_reg(0, *final(r.reg)),
    {
        self.gpr(GprIndex32::EAX).l()
    }

    pub fn ah(&mut self) -> (r: Gpr8<'_>)
        ensures
            *r.reg == old(self)@.regs[0],
            r.high,
            final(self)@ == old(self)@.with_reg(0, *final(r.reg)),
    {
        self.gpr(GprIndex32::EAX).h()
    }

    pub fn ax(&mut self) -> (r: Gpr16<'_>)
        ensures
            *r.0 == old(self)@.regs[0],
            final(self)@ == old(self)@.with_reg(0, *final(r.0)),
    {
        self.gpr(GprIndex32::EAX).x()
    }

    pub fn eax(&mut self) -> (r: Gpr32<'_>)
        ensures
            *r.0 == old(self)@.regs[0],
            final(self)@ == old(self)@.with_reg(0, *final(r.0)),
    {
        self.gpr(GprIndex32::EAX).e()
    }

    pub fn bl(&mut self) -> (r: Gpr8<'_>)
        ensures
            *r.reg == old(self)@.regs[3],
            !r.high,
            final(self)@ == old(self)@.with_reg(3, *final(r.reg)),
    {
        self.gpr(GprIndex32::EBX).l()
    }

    pub fn bh(&mut self) -> (r: Gpr8<'_>)
        ensures
            *r.reg == old(self)@.regs[3],
            r.high,
            final(self)@ == old(self)@.with_reg(3, *final(r.reg)),
    {
        self.gpr(GprIndex32::EBX).h()
    }

    pub fn bx(&mut self) -> (r: Gpr16<'_>)
        ensures
            *r.0 == old(self)@.regs[3],
            final(self)@ == old(self)@.with_reg(3, *final(r.0)),
    {
        self.gpr(GprIndex32::EBX).x()
    }

    pub fn ebx(&mut self) -> (r: Gpr32<'_>)
        ensures
            *r.0 == old(self)@.regs[3],
            final(self)@ == old(self)@.with_reg(3, *final(r.0)),
    {
        self.gpr(GprIndex32::EBX).e()
    }

    pub fn cl(&mut self) -> (r: Gpr8<'_>)
        ensures
            *r.reg == old(self)@.regs[1],
            !r.high,
            final(self)@ == old(self)@.with_reg(1, *final(r.reg)),
    {
        self.gpr(GprIndex32::ECX).l()
    }

    pub fn ch(&mut self) -> (r: Gpr8<'_>)
        ensures
            *r.reg == old(self)@.regs[1],
            r.high,
            final(self)@ == old(self)@.with_reg(1, *final(r.reg)),
    {
        self.gpr(GprIndex32::ECX).h()
    }

    pub fn cx(&mut self) -> (r: Gpr16<'_>)
        ensures
            *r.0 == old(self)@.regs[1],
            final(self)@ == old(self)@.with_reg(1, *final(r.0)),
    {
        self.gpr(GprIndex32::ECX).x()
    }

    pub fn ecx(&mut self) -> (r: Gpr32<'_>)
        ensures
            *r.0 == old(self)@.regs[1],
            final(self)@ == old(self)@.with_reg(1, *final(r.0)),
    {
        self.gpr(GprIndex32::ECX).e()
    }

    pub fn dl(&mut self) -> (r: Gpr8<'_>)
        ensures
            *r.reg == old(self)@.regs[2],
            !r.high,
            final(self)@ == old(self)@.with_reg(2, *final(r.reg)),
    {
        self.gpr(GprIndex32::EDX).l()
    }

    pub fn dh(&mut self) -> (r: Gpr8<'_>)
        ensures
            *r.reg == old(self)@.regs[2],
            r.high,
            final(self)@ == old(self)@.with_reg(2, *final(r.reg)),
    {
        self.gpr(GprIndex32::EDX).h()
    }

    pub fn dx(&mut self) -> (r: Gpr16<'_>)
        ensures
            *r.0 == old(self)@.regs[2],
            final(self)@ == old(self)@.with_reg(2, *final(r.0)),
    {
        self.gpr(GprIndex32::EDX).x()
    }

    pub fn edx(&mut self) -> (r: Gpr32<'_>)
        ensures
            *r.0 == old(self)@.regs[2],
            final(self)@ == old(self)@.with_reg(2, *final(r.0)),
    {
        self.gpr(GprIndex32::EDX).e()
    }

    pub fn sp(&mut self) -> (r: Gpr16<'_>)
        ensures
            *r.0 == old(self)@.regs[4],
            final(self)@ == old(self)@.with_reg(4, *final(r.0)),
    {
        self.gpr(GprIndex32::ESP).x()
    }

    pub fn esp(&mut self) -> (r: Gpr32<'_>)
        ensures
            *r.0 == old(self)@.regs[4],
            final(self)@ == old(self)@.with_reg(4, *final(r.0)),
    {
        self.gpr(GprIndex32::ESP).e()
    }

    pub fn bp(&mut self) -> (r: Gpr16<'_>)
        ensures
            *r.0 == old(self)@.regs[5],
            final(self)@ == old(self)@.with_reg(5, *final(r.0)),
    {
        self.gpr(GprIndex32::EBP).x()
    }

    pub fn ebp(&mut self) -> (r: Gpr32<'_>)
        ensures
            *r.0 == old(self)@.regs[5],
            final(self)@ == old(self)@.with_reg(5, *final(r.0)),
    {
        self.gpr(GprIndex32::EBP).e()
    }

    pub fn si(&mut self) -> (r: Gpr16<'_>)
        ensures
            *r.0 == old(self)@.regs[6],
            final(self)@ == old(self)@.with_reg(6, *final(r.0)),
    {
        self.gpr(GprIndex32::ESI).x()
    }

    pub fn esi(&mut self) -> (r: Gpr32<'_>)
        ensures
            *r.0 == old(self)@.regs[6],
            final(self)@ == old(self)@.with_reg(6, *final(r.0)),
    {
        self.gpr(GprIndex32::ESI).e()
    }

    pub fn di(&mut self) -> (r: Gpr16<'_>)
        ensures
            *r.0 == old(self)@.regs[7],
            final(self)@ == old(self)@.with_reg(7, *final(r.0)),
    {
        self.gpr(GprIndex32::EDI).x()
    }

    pub fn edi(&mut self) -> (r: Gpr32<'_>)
        ensures
            *r.0 == old(self)@.regs[7],
            final(self)@ == old(self)@.with_reg(7, *final(r.0)),
    {
        self.gpr(GprIndex32::EDI).e()
    }

    pub fn eip(&mut self) -> (r: Gpr32<'_>)
        ensures
            *r.0 == old(self)@.regs[8],
            final(self)@ == old(self)@.with_reg(8, *final(r.0)),
    {
        self.runtime(RtReg::EIP).e()
    }

    pub fn cs(&self) -> (r: &SegmentRegister)
        ensures
            *r == self@.srs[SrIndex::CS.index() as int],
    {
        self.sr(SrIndex::CS)
    }

    pub fn ds(&self) -> (r: &SegmentRegister)
        ensures
            *r == self@.srs[SrIndex::DS.index() as int],
    {
        self.sr(SrIndex::DS)
    }

    pub fn es(&self) -> (r: &SegmentRegister)
        ensures
            *r == self@.srs[SrIndex::ES.index() as int],
    {
        self.sr(SrIndex::ES)
    }

    pub fn fs(&self) -> (r: &SegmentRegister)
        ensures
            *r == self@.srs[SrIndex::FS.index() as int],
    {
        self.sr(SrIndex::FS)
    }

    pub fn gs(&self) -> (r: &SegmentRegister)
        ensures
            *r == self@.srs[SrIndex::GS.index() as int],
    {
        self.sr(SrIndex::GS)
    }

    pub fn ss(&self) -> (r: &SegmentRegister)
        ensures
            *r == self@.srs[SrIndex::SS.index() as int],
    {
        self.sr(SrIndex::SS)
    }

    pub fn flags(&self) -> (r: &FlagsRegister)
        ensures
            *r == self@.flags,
    {
        &self.flags
    }

    pub fn flags_mut(&mut self) -> (r: &mut FlagsRegister)
        ensures
            *r == old(self)@.flags,
            final(self)@ == (StateView { flags: *final(r), ..old(self)@ }),
    {
        &mut self.flags
    }

    /// Resolves the lazily computed flags and returns the FLAGS value.
    pub fn compute_flags(&mut self) -> (r: Flags)
        requires
            old(self)@.wf(),
        ensures
            r.0 == final(self)@.flags.view_value(),
            final(self)@.regs == old(self)@.regs,
            final(self)@.srs == old(self)@.srs,
            final(self)@.lazy_op == old(self)@.lazy_op,
            final(self)@.generation == old(self)@.generation,
            final(self)@.flags.dynamic_value.0 == old(self)@.lazy_op.resolved_all(old(self)@.flags).dynamic_value.0 & 0x08d5,
            final(self)@.flags.static_value.0 == old(self)@.flags.static_value.0 & !0x08d5u32,
            final(self)@.wf(),
    {
        let r = self.flags.resolve(&self.lazy_op);
        proof {
            crate::ume86::lazy::lemma_resolved_all_cf_valid(old(self)@.lazy_op, old(self)@.flags);
            assert(self@.regs =~= old(self)@.regs);
        }
        r
    }

    pub fn lazy_op(&self) -> (r: &LazyOp)
        ensures
            *r == self@.lazy_op,
    {
        &self.lazy_op
    }

    pub fn lazy_op_mut(&mut self) -> (r: &mut LazyOp)
        ensures
            *r == old(self)@.lazy_op,
            final(self)@ == (StateView { lazy_op: *final(r), ..old(self)@ }),
    {
        &mut self.lazy_op
    }

    /// The carry of the last operation, without marking it resolved.
    pub fn recompute_cf(&mut self) -> (r: bool)
        requires
            old(self)@.wf(),
        ensures
            final(self)@ == old(self)@,
            r == old(self)@.lazy_op.current_cf(old(self)@.flags.dynamic_value.0, old(self)@.flags.valid_mask.0),
    {
        let r = self.lazy_op.recompute_cf(&mut self.flags);
        proof {
            assert(self@.regs =~= old(self)@.regs);
        }
        r
    }

    pub fn resolve_cf(&mut self) -> (r: bool)
        requires
            old(self)@.wf(),
        ensures
            final(self)@ == (StateView { flags: old(self)@.lazy_op.resolved_cf(old(self)@.flags), ..old(self)@ }),
            r == has_bits(final(self)@.flags.dynamic_value.0, 0x1),
            final(self)@.wf(),
    {
        self.lazy_op.resolve_cf(&mut self.flags);
        proof {
            assert(self@.regs =~= old(self)@.regs);
            crate::ume86::lazy::lemma_or_bits(old(self)@.flags.valid_mask.0, 0x801);
            crate::ume86::lazy::lemma_or_bits(old(self)@.flags.valid_mask.0, 0x800);
            crate::ume86::lazy::lemma_or_bits(old(self)@.flags.valid_mask.0 | 0x801, 0x800);
            crate::ume86::lazy::lemma_or_bits(old(self)@.flags.valid_mask.0 | 1, 0x800);
        }
        self.flags.cf()
    }

    pub fn resolve_sf(&mut self) -> (r: bool)
        requires
            old(self)@.wf(),
        ensures
            final(self)@ == (StateView { flags: old(self)@.lazy_op.resolved_sf(old(self)@.flags), ..old(self)@ }),
            r == has_bits(final(self)@.flags.dynamic_value.0, 0x80),
            final(self)@.wf(),
    {
        self.lazy_op.resolve_sf(&mut self.flags);
        proof {
            assert(self@.regs =~= old(self)@.regs);
            crate::ume86::lazy::lemma_or_bits(old(self)@.flags.valid_mask.0, 0x801);
            crate::ume86::lazy::lemma_or_bits(old(self)@.flags.valid_mask.0, 0x800);
            crate::ume86::lazy::lemma_or_bits(old(self)@.flags.valid_mask.0 | 0x801, 0x800);
            crate::ume86::lazy::lemma_or_bits(old(self)@.flags.valid_mask.0 | 1, 0x800);
        }
        self.flags.sf()
    }

    pub fn resolve_of(&mut self) -> (r: bool)
        requires
            old(self)@.wf(),
        ensures
            final(self)@ == (StateView { flags: old(self)@.lazy_op.resolved_of(old(self)@.flags), ..old(self)@ }),
            r == has_bits(final(self)@.flags.dynamic_value.0, 0x800),
            final(self)@.wf(),
    {
        self.lazy_op.resolve_of(&mut self.flags);
        proof {
            assert(self@.regs =~= old(self)@.regs);
            crate::ume86::lazy::lemma_or_bits(old(self)@.flags.valid_mask.0, 0x801);
            crate::ume86::lazy::lemma_or_bits(old(self)@.flags.valid_mask.0, 0x800);
            crate::ume86::lazy::lemma_or_bits(old(self)@.flags.valid_mask.0 | 0x801, 0x800);
            crate::ume86::lazy::lemma_or_bits(old(self)@.flags.valid_mask.0 | 1, 0x800);
        }
        self.flags.of()
    }

    pub fn resolve_pf(&mut self) -> (r: bool)
        requires
            old(self)@.wf(),
        ensures
            final(self)@ == (StateView { flags: old(self)@.lazy_op.resolved_pf(old(self)@.flags), ..old(self)@ }),
            r == has_bits(final(self)@.flags.dynamic_value.0, 0x4),
            final(self)@.wf(),
    {
        self.lazy_op.resolve_pf(&mut self.flags);
        proof {
            assert(self@.regs =~= old(self)@.regs);
            crate::ume86::lazy::lemma_or_bits(old(self)@.flags.valid_mask.0, 0x801);
            crate::ume86::lazy::lemma_or_bits(old(self)@.flags.valid_mask.0, 0x800);
            crate::ume86::lazy::lemma_or_bits(old(self)@.flags.valid_mask.0 | 0x801, 0x800);
            crate::ume86::lazy::lemma_or_bits(old(self)@.flags.valid_mask.0 | 1, 0x800);
        }
        self.flags.pf()
    }

    /// Adjusts the flags after logic operations (AND, OR, XOR, etc.).
    pub fn adjust_after_logic_op(&mut self, is_zero: bool)
        ensures
            final(self)@ == (StateView {
                flags: FlagsRegister {
                    dynamic_value: Flags((old(self)@.flags.dynamic_value.0 & !0x0851u32) | (if is_zero { 0x40u32 } else { 0u32 })),
                    valid_mask: Flags(0x0851),
                    ..old(self)@.flags
                },
                ..old(self)@
            }),
    {
        self.flags.adjust_after_logic_op(is_zero);
        proof {
            assert(self@.regs =~= old(self)@.regs);
        }
    }

    /// Adjusts the flags after generic arithmetic operations (ADD, SUB, etc.).
    pub fn adjust_after_arith_op(&mut self, is_zero: bool)
        ensures
            final(self)@ == (StateView {
                flags: FlagsRegister {
                    dynamic_value: Flags(if is_zero { 0x40 } else { 0 }),
                    valid_mask: Flags(0x40),
                    ..old(self)@.flags
                },
                ..old(self)@
            }),
    {
        self.flags.adjust_after_arith_op(is_zero);
        proof {
            assert(self@.regs =~= old(self)@.regs);
        }
    }

    /// Adjusts the flags after INC and DEC operations.
    pub fn adjust_after_inc_dec(&mut self, is_zero: bool)
        requires
            old(self)@.wf(),
        ensures
            final(self)@ == (StateView {
                flags: FlagsRegister {
                    dynamic_value: Flags(
                        (if old(self)@.lazy_op.current_cf(old(self)@.flags.dynamic_value.0, old(self)@.flags.valid_mask.0) {
                            1u32
                        } else {
                            0u32
                        }) | (if is_zero { 0x40u32 } else { 0u32 }),
                    ),
                    valid_mask: Flags(0x41),
                    ..old(self)@.flags
                },
                ..old(self)@
            }),
    {
        let lazy_op = self.lazy_op;
        self.flags.adjust_after_inc_dec(&lazy_op, is_zero);
        proof {
            assert(self@.regs =~= old(self)@.regs);
        }
    }

    /// Adjusts the flags after shift operations (SHL, SHR, SAR).
    pub fn adjust_after_shift(&mut self, is_zero: bool)
        ensures
            final(self)@ == (StateView {
                flags: FlagsRegister {
                    dynamic_value: Flags(if is_zero { 0x40 } else { 0 }),
                    valid_mask: Flags(0x40),
                    ..old(self)@.flags
                },
                ..old(self)@
            }),
    {
        self.flags.adjust_after_shift(is_zero);
        proof {
            assert(self@.regs =~= old(self)@.regs);
        }
    }

    /// Evaluates the condition code based on the current flags.
    pub fn eval_cc(&mut self, cc: CC) -> (r: bool)
        requires
            old(self)@.wf(),
        ensures
            final(self)@ == (StateView {
                flags: resolved_for_cc(old(self)@.lazy_op, old(self)@.flags, cc),
                ..old(self)@
            }),
            r == cc_holds(cc, final(self)@.flags),
            final(self)@.wf(),
    {
        let ghost f = self@.flags;
        let ghost op = self@.lazy_op;
        match cc {
            CC::O => self.resolve_of(),
            CC::NO => !self.resolve_of(),
            CC::C => self.resolve_cf(),
            CC::NC => !self.resolve_cf(),
            CC::Z => self.flags.zf(),
            CC::NZ => !self.flags.zf(),
            CC::BE => {
                proof {
                    lemma_flag_bits_independent(f.dynamic_value.0, op.spec_cf());
                }
                self.flags.zf() || self.resolve_cf()
            },
            CC::NBE => {
                proof {
                    lemma_flag_bits_independent(f.dynamic_value.0, op.spec_cf());
                }
                !(self.flags.zf() || self.resolve_cf())
            },
            CC::S => self.resolve_sf(),
            CC::NS => !self.resolve_sf(),
            CC::P => self.resolve_pf(),
            CC::NP => !self.resolve_pf(),
            CC::L => {
                let sf = self.resolve_sf();
                let of = self.resolve_of();
                proof { self.lemma_sf_kept(f); }
                sf != of
            },
            CC::NL => {
                let sf = self.resolve_sf();
                let of = self.resolve_of();
                proof { self.lemma_sf_kept(f); }
                sf == of
            },
            CC::LE => {
                let sf = self.resolve_sf();
                let of = self.resolve_of();
                proof { self.lemma_sf_kept(f); }
                self.flags.zf() || (sf != of)
            },
            CC::NLE => {
                let sf = self.resolve_sf();
                let of = self.resolve_of();
                proof { self.lemma_sf_kept(f); }
                !(self.flags.zf() || (sf != of))
            },
        }
    }

    /// Resolving SF and then OF keeps SF and ZF as they were after SF.
    proof fn lemma_sf_kept(&self, f: FlagsRegister)
        requires
            self@.flags == self@.lazy_op.resolved_of(self@.lazy_op.resolved_sf(f)),
        ensures
            has_bits(self@.flags.dynamic_value.0, 0x80) == has_bits(self@.lazy_op.resolved_sf(f).dynamic_value.0, 0x80),
            has_bits(self@.flags.dynamic_value.0, 0x40) == has_bits(f.dynamic_value.0, 0x40),
    {
        let op = self@.lazy_op;
        let g = op.resolved_sf(f);
        let h = op.resolved_cf(g);
        lemma_flag_bits_independent(f.dynamic_value.0, op.spec_sf() == Some(true));
        match op.spec_sf() {
            Some(v) => lemma_flag_bits_independent(f.dynamic_value.0, v),
            None => {},
        }
        lemma_flag_bits_independent(g.dynamic_value.0, op.spec_cf());
        lemma_flag_bits_independent(g.dynamic_value.0, op.spec_of());
        lemma_flag_bits_independent(h.dynamic_value.0, op.shift_negative() != has_bits(h.dynamic_value.0, 1));
    }
}

impl SegmentRegister {
    /// The register after `init_data_rm`.
    pub open spec fn spec_data_rm() -> SegmentRegister {
        SegmentRegister { sel: SegmentSelector(0), base: Linear32(0), limit: Limit(0xffff), ar: 0x92 }
    }

    /// The register after `init_code_rm`.
    pub open spec fn spec_code_rm() -> SegmentRegister {
        SegmentRegister { sel: SegmentSelector(0xf000), base: Linear32(0xffff_0000), limit: Limit(0xffff), ar: 0x9a }
    }
}

impl FlagsRegister {
    /// The register that `new` makes for a generation.
    pub open spec fn spec_new(generation: Generation) -> FlagsRegister {
        FlagsRegister {
            dynamic_value: Flags(0),
            static_value: Flags(0),
            valid_mask: Flags(0xffff_ffff),
            always_0_mask: Flags(crate::ume86::flags::spec_mask_0(generation)),
            always_1_mask: Flags(crate::ume86::flags::spec_mask_1(generation)),
        }
    }
}

} // verus!
