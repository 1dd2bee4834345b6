//! User Mode Emulation

use vstd::prelude::*;
use crate::ir86::fetch::{le16, le32};
use crate::ir86::ir::IrOp;
use crate::ir86::sib::{spec_to_sib, SibIndex};
use crate::ir86::types::Offset32;
use crate::ume86::alu::Alu;
use crate::ume86::cpu::Generation;
use crate::ume86::flags::{has_bits, Flags};
use crate::ume86::state::{cc_holds, resolved_for_cc, rt_of, ProcessorState, RtReg, RtReg8, StateView};
use crate::ume86::ume::semantics::{
    alu_group, alu_group_of, alu_step, compare_bytes, data_step, push_step, set32, load_step, reg_step, stack_step, store_step,
    uop_group, uop_group_of, div32, get32, get8, minor_step, movs_bytes, movs_dwords,
    scas_bytes, stos_bytes, stos_dwords, idiv32, imul32, inc_dec32, neg32, op16, op32, op8, rmw32, sh16, sh32, sh8, BinOp, ShiftOp,
};
use crate::ume86::ume::tracer::{control_flow, decodable, first_instruction, trailing_count, Next, TraceDecoder};
use crate::ume86::ume::uop::{AddrIndex, Uop, UopMinor};
use vstd::std_specs::iter::IteratorSpec;

pub mod semantics;
pub mod tracer;
pub mod uop;

verus! {

/// `mem` with the bytes from address `a` on replaced by `b`.
pub open spec fn write_bytes(mem: Seq<u8>, a: int, b: Seq<u8>) -> Seq<u8> {
    Seq::new(mem.len(), |i: int| if a <= i < a + b.len() { b[i - a] } else { mem[i] })
}

/// The little-endian bytes of a 16-bit value.
pub open spec fn bytes16(v: u16) -> Seq<u8> {
    seq![(v % 0x100) as u8, (v / 0x100) as u8]
}

/// The little-endian bytes of a 32-bit value.
pub open spec fn bytes32(v: u32) -> Seq<u8> {
    seq![
        (v % 0x100) as u8,
        ((v / 0x100) % 0x100) as u8,
        ((v / 0x1_0000) % 0x100) as u8,
        (v / 0x100_0000) as u8,
    ]
}

/// The little-endian 16-bit value at address `a`.
pub open spec fn read16_at(mem: Seq<u8>, a: int) -> u16 {
    le16(mem[a], mem[a + 1])
}

/// The little-endian 32-bit value at address `a`.
pub open spec fn read32_at(mem: Seq<u8>, a: int) -> u32 {
    le32(mem[a], mem[a + 1], mem[a + 2], mem[a + 3])
}

/// `a - b`, wrapping around at 32 bits.
pub open spec fn wrap_sub(a: u32, b: u32) -> u32 {
    ((a as int - b as int) % 0x1_0000_0000) as u32
}

/// `a + b`, wrapping around at 32 bits.
pub open spec fn wrap_add(a: u32, b: u32) -> u32 {
    ((a as int + b as int) % 0x1_0000_0000) as u32
}

/// A 16-bit read gives back what a 16-bit write at the same address wrote,
/// and a write leaves the bytes outside its range alone.
pub proof fn lemma_read_after_write16(mem: Seq<u8>, a: int, v: u16)
    requires
        0 <= a,
        a + 2 <= mem.len(),
    ensures
        write_bytes(mem, a, bytes16(v)).len() == mem.len(),
        read16_at(write_bytes(mem, a, bytes16(v)), a) == v,
        forall|i: int| 0 <= i < mem.len() && !(a <= i < a + 2)
            ==> #[trigger] write_bytes(mem, a, bytes16(v))[i] == mem[i],
{
    assert(v == (v % 0x100) + (v / 0x100) * 0x100) by (bit_vector);
}

/// A 32-bit read gives back what a 32-bit write at the same address wrote,
/// and a write leaves the bytes outside its range alone.
pub proof fn lemma_read_after_write32(mem: Seq<u8>, a: int, v: u32)
    requires
        0 <= a,
        a + 4 <= mem.len(),
    ensures
        write_bytes(mem, a, bytes32(v)).len() == mem.len(),
        read32_at(write_bytes(mem, a, bytes32(v)), a) == v,
        forall|i: int| 0 <= i < mem.len() && !(a <= i < a + 4)
            ==> #[trigger] write_bytes(mem, a, bytes32(v))[i] == mem[i],
{
    assert(v == (v % 0x100) + ((v / 0x100) % 0x100) * 0x100 + ((v / 0x1_0000) % 0x100) * 0x1_0000
        + (v / 0x100_0000) * 0x100_0000) by (bit_vector);
}

/// The bytes that PUSHAD stores, from the bottom up, for the register values
/// `regs` in the order in which they end up from the bottom.
pub open spec fn pushad_bytes(regs: Seq<u32>) -> Seq<u8> {
    Seq::new(32, |j: int| bytes32(regs[j / 4])[j % 4])
}

/// Popping right after a push gives back the pushed value and the stack
/// pointer from before the push.
pub proof fn lemma_pop_after_push(mem: Seq<u8>, esp: u32, v: u32)
    requires
        wrap_sub(esp, 4) + 4 <= mem.len(),
    ensures
        ({
            let e = wrap_sub(esp, 4);
            let m = write_bytes(mem, e as int, bytes32(v));
            &&& e + 4 <= m.len()
            &&& read32_at(m, e as int) == v
            &&& wrap_add(e, 4) == esp
        }),
{
    lemma_read_after_write32(mem, wrap_sub(esp, 4) as int, v);
}

/// Exception Code
#[derive(Debug, Clone, Copy, PartialEq, Eq, Structural)]
pub enum Exception {
    DivisionError,
    Unimplemented(Uop),
    StackFault,
    SegmentationViolation(Offset32),
    OutOfCode,
    RdTsc,
    Swi(u8),
}

/// The registers that CPUID fills.
#[derive(Debug, Clone, Copy, PartialEq, Eq, Structural)]
pub struct Cpuid {
    pub eax: u32,
    pub ebx: u32,
    pub ecx: u32,
    pub edx: u32,
}

/// The manufacturer identification string that CPUID reports, "GenuineNerry".
pub open spec fn manufacturer_id() -> Seq<u8> {
    seq![0x47u8, 0x65u8, 0x6eu8, 0x75u8, 0x69u8, 0x6eu8, 0x65u8, 0x4eu8, 0x65u8, 0x72u8, 0x72u8, 0x79u8]
}

/// The processor brand string that CPUID reports.
pub open spec fn brand_string() -> Seq<u8> {
    seq![0x41u8, 0x6eu8, 0x20u8, 0x78u8, 0x38u8, 0x36u8, 0x20u8, 0x55u8, 0x73u8, 0x65u8, 0x72u8, 0x20u8, 0x4du8, 0x6fu8, 0x64u8, 0x65u8, 0x20u8, 0x45u8, 0x6du8, 0x75u8, 0x6cu8, 0x61u8, 0x74u8, 0x6fu8, 0x72u8, 0x20u8, 0x40u8, 0x20u8, 0x31u8, 0x2eu8, 0x30u8, 0x30u8, 0x47u8, 0x48u8, 0x7au8, 0x20u8, 0x20u8, 0x20u8, 0x20u8, 0x20u8, 0x20u8, 0x20u8, 0x20u8, 0x20u8, 0x20u8, 0x20u8, 0x20u8, 0x20u8]
}

/// The little-endian 32-bit value of bytes `4 * k` to `4 * k + 3` of `s`.
pub open spec fn chunk32(s: Seq<u8>, k: int) -> u32 {
    read32_at(s, 4 * k)
}

/// The processor version CPUID reports: family 4, model 0, stepping 0.
pub open spec fn processor_version() -> u32 {
    0x400
}

/// What CPUID reports for leaf `eax`.
pub open spec fn spec_cpuid(eax: u32) -> Cpuid {
    if eax == 0 {
        Cpuid {
            eax: 1,
            ebx: chunk32(manufacturer_id(), 0),
            edx: chunk32(manufacturer_id(), 1),
            ecx: chunk32(manufacturer_id(), 2),
        }
    } else if eax == 1 || eax == 0x8000_0001 {
        Cpuid { eax: processor_version(), ebx: 0, ecx: 0, edx: 0 }
    } else if eax == 0x8000_0000 {
        Cpuid { eax: 0x8000_0004, ebx: 0, ecx: 0, edx: 0 }
    } else if 0x8000_0002 <= eax <= 0x8000_0004 {
        let k = 4 * (eax - 0x8000_0002);
        Cpuid {
            eax: chunk32(brand_string(), k),
            ebx: chunk32(brand_string(), k + 1),
            ecx: chunk32(brand_string(), k + 2),
            edx: chunk32(brand_string(), k + 3),
        }
    } else {
        Cpuid { eax: 0, ebx: 0, ecx: 0, edx: 0 }
    }
}

/// Identifies the emulated processor.
pub fn cpuid(eax: u32, _ecx: u32) -> (r: Cpuid)
    ensures
        r == spec_cpuid(eax),
{
    let mut cpuid = Cpuid { eax: 0, ebx: 0, ecx: 0, edx: 0 };
    let family: u32 = 4;
    let model: u32 = 0;
    let stepping: u32 = 0;
    let processor_version: u32 = family * 0x100 + model * 0x10 + stepping;
    match eax {
        0x0000_0000 => {
            cpuid.eax = 1;
            cpuid.ebx = 0x756e6547;
            cpuid.edx = 0x4e656e69;
            cpuid.ecx = 0x79727265;
        },
        0x0000_0001 => {
            cpuid.eax = processor_version;
        },
        0x8000_0000 => {
            cpuid.eax = 0x8000_0004;
        },
        0x8000_0001 => {
            cpuid.eax = processor_version;
        },
        0x8000_0002 => {
            cpuid.eax = 0x78206e41;
            cpuid.ebx = 0x55203638;
            cpuid.ecx = 0x20726573;
            cpuid.edx = 0x65646f4d;
        },
        0x8000_0003 => {
            cpuid.eax = 0x756d4520;
            cpuid.ebx = 0x6f74616c;
            cpuid.ecx = 0x20402072;
            cpuid.edx = 0x30302e31;
        },
        0x8000_0004 => {
            cpuid.eax = 0x207a4847;
            cpuid.ebx = 0x20202020;
            cpuid.ecx = 0x20202020;
            cpuid.edx = 0x20202020;
        },
        _ => {},
    }
    cpuid
}

/// How many micro operations `execute` runs before it pauses.
pub const STEP_LIMIT: u32 = 1_000_000;

/// User Mode Emulation
///
/// ## Limitation
/// * The code segment and data segment must not overlap.
/// * During execution, it is not possible to access the segment registers.
/// * Some 16bit features are not implemented.
pub struct UME {
    data: Vec<u8>,
    state: ProcessorState,
    tracer: TraceDecoder,
}

impl UME {
    /// The data segment.
    pub closed spec fn mem(&self) -> Seq<u8> {
        self.data@
    }

    /// The processor state.
    pub closed spec fn spec_state(&self) -> ProcessorState {
        self.state
    }

    /// The tracer.
    pub closed spec fn spec_tracer(&self) -> TraceDecoder {
        self.tracer
    }

    /// What the emulator keeps true between operations: the flags can be
    /// computed, and the tracer is consistent.
    pub open spec fn wf(&self) -> bool {
        &&& self.spec_state()@.wf()
        &&& self.spec_tracer().wf()
    }

    /// The value of a runtime register.
    pub open spec fn reg(&self, r: RtReg) -> u32 {
        self.spec_state()@.regs[r.index()]
    }

    /// Creates a new instance
    pub fn new(
        code: Vec<u8>,
        data: Vec<u8>,
        code_base: Offset32,
        entry: Offset32,
        stack_pointer: Offset32,
    ) -> (r: Self)
        ensures
            r.wf(),
            r.mem() == data@,
            r.spec_tracer().spec_code() == code@,
            r.reg(RtReg::ESP) == stack_pointer.0,
            r.spec_tracer().spec_code_base() == code_base.0,
            r.spec_tracer().spec_upc() == 0,
            r.spec_tracer().map_in_cache(),
            ({
                let fetch_size = code.len() - trailing_count(code@, 0) - trailing_count(code@, 0x90);
                (entry.0.wrapping_sub(code_base.0) as int) < fetch_size && decodable(code@, code_base.0, entry.0) ==> {
                    let t = r.spec_tracer();
                    &&& t.spec_address_map().contains_key(entry.0)
                    &&& t.spec_address_map()[entry.0] == 0
                    &&& exists|ir: IrOp, nx: Offset32, x: Next|
                        first_instruction(code@, code_base.0, entry.0, ir)
                            && control_flow(ir, t.spec_address_map(), nx, Seq::<Uop>::empty(), t.spec_cache(), x)
                }
            }),
    {
        let tracer = TraceDecoder::new(code, code_base, entry);
        let mut state = ProcessorState::new(Generation::P7);
        state.init_rm();
        state.write32(RtReg::ESP, stack_pointer.0);
        Self { data, state, tracer }
    }

    /// Stores `v` little-endian at `a`.
    fn store32(&mut self, a: usize, v: u32)
        requires
            a + 4 <= old(self).mem().len(),
        ensures
            final(self).mem() == write_bytes(old(self).mem(), a as int, bytes32(v)),
            final(self).spec_state() == old(self).spec_state(),
            final(self).spec_tracer() == old(self).spec_tracer(),
    {
        assert(a + 4 <= self.data.len());
        self.data[a] = (v % 0x100) as u8;
        self.data[a + 1] = ((v / 0x100) % 0x100) as u8;
        self.data[a + 2] = ((v / 0x1_0000) % 0x100) as u8;
        self.data[a + 3] = (v / 0x100_0000) as u8;
        assert(self.data@ =~= write_bytes(old(self).mem(), a as int, bytes32(v)));
    }

    /// Loads the little-endian value at `a`.
    fn load32(&self, a: usize) -> (r: u32)
        requires
            a + 4 <= self.mem().len(),
        ensures
            r == read32_at(self.mem(), a as int),
    {
        assert(a + 4 <= self.data.len());
        let b0 = self.data[a] as u32;
        let b1 = self.data[a + 1] as u32;
        let b2 = self.data[a + 2] as u32;
        let b3 = self.data[a + 3] as u32;
        b0 + b1 * 0x100 + b2 * 0x1_0000 + b3 * 0x100_0000
    }

    /// Pushes a value onto the stack
    pub fn push(&mut self, value: u32) -> (r: Option<()>)
        ensures
            ({
                let e = wrap_sub(old(self).reg(RtReg::ESP), 4);
                if e + 4 <= old(self).mem().len() {
                    &&& r is Some
                    &&& final(self).mem() == write_bytes(old(self).mem(), e as int, bytes32(value))
                    &&& final(self).spec_state()@ == old(self).spec_state()@.with_reg(4, e)
                } else {
                    &&& r is None
                    &&& *final(self) == *old(self)
                }
            }),
            final(self).spec_tracer() == old(self).spec_tracer(),
    {
        let new_esp = self.state.read32(RtReg::ESP).wrapping_sub(4);
        let a = new_esp as usize;
        if a < self.data.len() && self.data.len() - a >= 4 {
            self.store32(a, value);
            self.state.write32(RtReg::ESP, new_esp);
            Some(())
        } else {
            None
        }
    }

    /// Pushes all general-purpose registers onto the stack: EAX, ECX, EDX,
    /// EBX, the stack pointer from before, EBP, ESI and EDI, from the top down.
    pub fn pushad(&mut self) -> (r: Option<()>)
        ensures
            ({
                let esp = old(self).reg(RtReg::ESP);
                let bottom = wrap_sub(esp, 32);
                if bottom + 32 <= old(self).mem().len() {
                    &&& r is Some
                    &&& final(self).mem() == write_bytes(
                        old(self).mem(),
                        bottom as int,
                        pushad_bytes(
                            seq![
                                old(self).reg(RtReg::EDI),
                                old(self).reg(RtReg::ESI),
                                old(self).reg(RtReg::EBP),
                                esp,
                                old(self).reg(RtReg::EBX),
                                old(self).reg(RtReg::EDX),
                                old(self).reg(RtReg::ECX),
                                old(self).reg(RtReg::EAX),
                            ],
                        ),
                    )
                    &&& final(self).spec_state()@ == old(self).spec_state()@.with_reg(4, bottom)
                } else {
                    &&& r is None
                    &&& *final(self) == *old(self)
                }
            }),
            final(self).spec_tracer() == old(self).spec_tracer(),
    {
        let esp_temp = self.state.read32(RtReg::ESP);
        let esp_bottom = esp_temp.wrapping_sub(4 * 8);
        let a = esp_bottom as usize;
        if !(a < self.data.len() && self.data.len() - a >= 32) {
            return None;
        }
        let vals: [u32; 8] = [
            self.state.read32(RtReg::EDI),
            self.state.read32(RtReg::ESI),
            self.state.read32(RtReg::EBP),
            esp_temp,
            self.state.read32(RtReg::EBX),
            self.state.read32(RtReg::EDX),
            self.state.read32(RtReg::ECX),
            self.state.read32(RtReg::EAX),
        ];
        let ghost regs = vals@;
        let ghost m0 = self.data@;
        let ghost all = pushad_bytes(regs);
        for i in 0..32usize
            invariant
                a + 32 <= self.data.len(),
                self.data@.len() == m0.len(),
                vals@ == regs,
                regs.len() == 8,
                all == pushad_bytes(regs),
                forall|j: int| a <= j < a + i ==> #[trigger] self.data@[j] == all[j - a],
                forall|j: int| 0 <= j < m0.len() && !(a <= j < a + i) ==> #[trigger] self.data@[j] == m0[j],
                self.state == old(self).state,
                self.tracer == old(self).tracer,
        {
            let v = vals[i / 4];
            let k = i % 4;
            assert(v == regs[(i as int) / 4]);
            assert(k as int == (i as int) % 4);
            let byte: u8 = if k == 0 {
                (v % 0x100) as u8
            } else if k == 1 {
                ((v / 0x100) % 0x100) as u8
            } else if k == 2 {
                ((v / 0x1_0000) % 0x100) as u8
            } else {
                (v / 0x100_0000) as u8
            };
            assert(all[i as int] == bytes32(v)[(i as int) % 4]);
            assert(byte == bytes32(v)[k as int]);
            self.data[a + i] = byte;
        }
        assert(self.data@ =~= write_bytes(m0, a as int, all));
        self.state.write32(RtReg::ESP, esp_bottom);
        Some(())
    }

    /// Pops a value from the stack
    pub fn pop(&mut self) -> (r: Option<u32>)
        ensures
            ({
                let esp = old(self).reg(RtReg::ESP);
                if esp + 4 <= old(self).mem().len() {
                    &&& r == Some(read32_at(old(self).mem(), esp as int))
                    &&& final(self).spec_state()@ == old(self).spec_state()@.with_reg(4, wrap_add(esp, 4))
                } else {
                    &&& r is None
                    &&& final(self).spec_state() == old(self).spec_state()
                }
            }),
            final(self).mem() == old(self).mem(),
            final(self).spec_tracer() == old(self).spec_tracer(),
    {
        let esp = self.state.read32(RtReg::ESP);
        let new_esp = esp.wrapping_add(4);
        let a = esp as usize;
        if a < self.data.len() && self.data.len() - a >= 4 {
            let value = self.load32(a);
            self.state.write32(RtReg::ESP, new_esp);
            Some(value)
        } else {
            None
        }
    }

    /// Pops all general-purpose registers from the stack
    pub fn popad(&mut self) -> (r: Option<()>)
        ensures
            ({
                let esp = old(self).reg(RtReg::ESP);
                let m = old(self).mem();
                if esp + 32 <= m.len() {
                    &&& r is Some
                    &&& final(self).spec_state()@ == old(self).spec_state()@
                        .with_reg(7, read32_at(m, esp as int))
                        .with_reg(6, read32_at(m, esp + 4))
                        .with_reg(5, read32_at(m, esp + 8))
                        .with_reg(3, read32_at(m, esp + 16))
                        .with_reg(2, read32_at(m, esp + 20))
                        .with_reg(1, read32_at(m, esp + 24))
                        .with_reg(0, read32_at(m, esp + 28))
                        .with_reg(4, wrap_add(esp, 32))
                } else {
                    &&& r is None
                    &&& final(self).spec_state() == old(self).spec_state()
                }
            }),
            final(self).mem() == old(self).mem(),
            final(self).spec_tracer() == old(self).spec_tracer(),
    {
        let esp_temp = self.state.read32(RtReg::ESP);
        let a = esp_temp as usize;
        if !(a < self.data.len() && self.data.len() - a >= 32) {
            return None;
        }
        let edi = self.load32(a);
        let esi = self.load32(a + 4);
        let ebp = self.load32(a + 8);
        // Skip ESP
        let ebx = self.load32(a + 16);
        let edx = self.load32(a + 20);
        let ecx = self.load32(a + 24);
        let eax = self.load32(a + 28);
        self.state.write32(RtReg::EDI, edi);
        self.state.write32(RtReg::ESI, esi);
        self.state.write32(RtReg::EBP, ebp);
        self.state.write32(RtReg::EBX, ebx);
        self.state.write32(RtReg::EDX, edx);
        self.state.write32(RtReg::ECX, ecx);
        self.state.write32(RtReg::EAX, eax);
        self.state.write32(RtReg::ESP, esp_temp.wrapping_add(4 * 8));
        Some(())
    }

    /// The processor state.
    pub fn state(&self) -> (r: &ProcessorState)
        ensures
            *r == self.spec_state(),
    {
        &self.state
    }

    /// The processor state, to change.
    pub fn state_mut(&mut self) -> (r: &mut ProcessorState)
        ensures
            *r == old(self).spec_state(),
            final(self).spec_state() == *final(r),
            final(self).mem() == old(self).mem(),
            final(self).spec_tracer() == old(self).spec_tracer(),
    {
        &mut self.state
    }

    /// The tracer.
    pub fn tracer(&self) -> (r: &TraceDecoder)
        ensures
            *r == self.spec_tracer(),
    {
        &self.tracer
    }

    /// The data segment.
    pub fn data(&self) -> (r: &[u8])
        ensures
            r@ == self.mem(),
    {
        self.data.as_slice()
    }

    /// The data segment, as a vector.
    pub fn data_vec(&self) -> (r: &Vec<u8>)
        ensures
            r@ == self.mem(),
    {
        &self.data
    }

    /// The data segment, to change.
    pub fn data_mut(&mut self) -> (r: &mut Vec<u8>)
        ensures
            r@ == old(self).mem(),
            final(self).mem() == final(r)@,
            final(self).spec_state() == old(self).spec_state(),
            final(self).spec_tracer() == old(self).spec_tracer(),
    {
        &mut self.data
    }

    /// The code segment.
    pub fn code(&self) -> (r: &[u8])
        ensures
            r@ == self.spec_tracer().spec_code(),
    {
        self.tracer.code()
    }

    /// Updates the EIP register from the current instruction pointer: to the
    /// address whose translation starts at the current micro operation, or else
    /// to the address whose translation starts closest before it.
    ///
    /// # Note
    /// This function may take O(n) time in the worst case.
    pub fn reflect_eip(&mut self)
        ensures
            final(self).spec_state()@ == old(self).spec_state()@.with_reg(8, final(self).reg(RtReg::EIP)),
            final(self).mem() == old(self).mem(),
            final(self).spec_tracer() == old(self).spec_tracer(),
            reflects(
                old(self).spec_tracer().spec_address_map(),
                old(self).spec_tracer().spec_upc(),
                final(self).reg(RtReg::EIP),
            ),
    {
        broadcast use vstd::std_specs::btree::group_btree_axioms;
        proof {
            self.state.lemma_view_lens();
        }
        let current_upc = self.tracer.current_upc();
        let upc = current_upc.0;
        let mut candidates: (u32, u32) = (0, 0);
        let ghost state0 = self.state;
        let m = self.tracer.address_map();
        let ghost mm = m@;
        let iter = m.iter();
        let ghost s = iter.remaining();
        let ghost keys = s.map_values(|kv: (&u32, &u32)| *kv.0);
        for kv in it: iter
            invariant
                self.state == state0,
                state0 == old(self).state,
                state0@.regs.len() == 16,
                self.data@ == old(self).data@,
                self.tracer == old(self).tracer,
                mm == old(self).spec_tracer().spec_address_map(),
                upc == old(self).spec_tracer().spec_upc(),
                it.seq() == s,
                s == vstd::std_specs::btree::spec_btree_map_iter(m).remaining(),
                mm == m@,
                keys == s.map_values(|kv: (&u32, &u32)| *kv.0),
                vstd::std_specs::btree::increasing_seq(keys),
                forall|j: int| 0 <= j < it.index() ==> !hits(mm, upc, *(#[trigger] s[j]).0),
                candidates.1 == 0 ==> candidates.0 == 0
                    && forall|j: int| 0 <= j < it.index() ==> !below(mm, upc, *(#[trigger] s[j]).0),
                candidates.1 != 0 ==> {
                    &&& below(mm, upc, candidates.0)
                    &&& mm[candidates.0] == candidates.1
                    &&& exists|j: int| 0 <= j < it.index() && #[trigger] keys[j] == candidates.0
                    &&& forall|j: int| 0 <= j < it.index() && below(mm, upc, *(#[trigger] s[j]).0)
                        ==> mm[*s[j].0] <= candidates.1
                            && (mm[*s[j].0] == candidates.1 ==> candidates.0 <= *s[j].0)
                },
        {
            let ghost i = it.index();
            let (k, v) = kv;
            proof {
                assert(kv == s[i]);
                assert(keys[i] == *k);
                assert(mm.contains_key(*k) && mm[*k] == *v);
            }
            if *v == upc {
                self.state.write32(RtReg::EIP, *k);
                assert(self.state@ == old(self).state@.with_reg(8, *k));
                assert(self.state@.regs[8] == *k);
                proof {
                    assert forall|h: u32| h < *k implies !hits(mm, upc, h) by {
                        if hits(mm, upc, h) {
                            assert(s.contains((&h, &mm[h])));
                            let j = choose|j: int| 0 <= j < s.len() && s[j] == (&h, &mm[h]);
                            assert(keys[j] == h);
                            if i < j {
                                crate::bits::lemma_increasing_u32(keys, i, j);
                            }
                        }
                    }
                    assert(hits(mm, upc, *k));
                    assert(reflects(mm, upc, *k));
                }
                return;
            }
            if *v < upc && *v > candidates.1 {
                candidates = (*k, *v);
                proof {
                    assert(keys[i] == candidates.0);
                }
            } else {
                proof {
                    if candidates.1 != 0 && below(mm, upc, *k) && *v == candidates.1 {
                        let jc = choose|j: int| 0 <= j < i && #[trigger] keys[j] == candidates.0;
                        crate::bits::lemma_increasing_u32(keys, jc, i);
                    }
                }
            }
        }
        self.state.write32(RtReg::EIP, candidates.0);
        assert(self.state@ == old(self).state@.with_reg(8, candidates.0));
        assert(self.state@.regs[8] == candidates.0);
        proof {
            assert forall|h: u32| mm.contains_key(h) implies #[trigger] s.contains((&h, &mm[h])) by {}
            assert forall|h: u32| !hits(mm, upc, h) by {
                if hits(mm, upc, h) {
                    assert(s.contains((&h, &mm[h])));
                    let j = choose|j: int| 0 <= j < s.len() && s[j] == (&h, &mm[h]);
                    assert(!hits(mm, upc, *s[j].0));
                }
            }
            assert forall|h: u32| below(mm, upc, h) implies mm[h] <= candidates.1
                && (mm[h] == candidates.1 ==> candidates.0 <= h) by {
                assert(s.contains((&h, &mm[h])));
                let j = choose|j: int| 0 <= j < s.len() && s[j] == (&h, &mm[h]);
                assert(below(mm, upc, *s[j].0));
            }
        }
    }

    /// Whether `after` is `before` once an exception is taken: EIP set to the
    /// address that the current micro-op maps back to, and the lazily
    /// computed flags resolved.
    pub open spec fn adjusted(before: UME, after: UME) -> bool {
        let eip = after.reg(RtReg::EIP);
        let mid = before.spec_state()@.with_reg(8, eip);
        &&& reflects(before.spec_tracer().spec_address_map(), before.spec_tracer().spec_upc(), eip)
        &&& after.spec_state()@.regs == mid.regs
        &&& after.spec_state()@.srs == mid.srs
        &&& after.spec_state()@.lazy_op == mid.lazy_op
        &&& after.spec_state()@.generation == mid.generation
        &&& after.spec_state()@.flags.dynamic_value.0 == mid.lazy_op.resolved_all(mid.flags).dynamic_value.0 & 0x08d5
        &&& after.spec_state()@.flags.static_value.0 == mid.flags.static_value.0 & !0x08d5u32
        &&& after.mem() == before.mem()
        &&& after.spec_tracer() == before.spec_tracer()
    }

    /// Adjusts the state after an exception occurs
    pub fn adjust_after_exception(&mut self)
        requires
            old(self).wf(),
        ensures
            final(self).wf(),
            Self::adjusted(*old(self), *final(self)),
    {
        self.reflect_eip();
        self.state.compute_flags();
    }

    /// Resumes execution after a pause (e.g., after a syscall)
    pub fn resume_next(&mut self)
        ensures
            final(self).spec_tracer().spec_upc() == old(self).spec_tracer().spec_upc().wrapping_add(1),
            final(self).spec_tracer().spec_cache() == old(self).spec_tracer().spec_cache(),
            final(self).spec_tracer().spec_code() == old(self).spec_tracer().spec_code(),
            old(self).wf() ==> final(self).wf(),
            final(self).mem() == old(self).mem(),
            final(self).spec_state() == old(self).spec_state(),
    {
        self.tracer.advance_upc();
    }

    /// The arithmetic logic unit, working on the processor state.
    pub fn alu(&mut self) -> (r: Alu<'_>)
        ensures
            *r.0 == old(self).spec_state(),
            final(self).spec_state() == *final(r.0),
            final(self).mem() == old(self).mem(),
            final(self).spec_tracer() == old(self).spec_tracer(),
    {
        Alu::new(&mut self.state)
    }

    /// Resolves the effective address from a SIB index: the base register
    /// (if any) plus the index register scaled, wrapping around at 32 bits.
    pub fn resolve_sib(&self, sib: SibIndex) -> (r: u32)
        ensures
            ({
                let (base, index, scale) = spec_to_sib(sib.0);
                let b = match base {
                    Some(b) => self.reg(rt_of(b)),
                    None => 0,
                };
                r == wrap_add(b, self.reg(rt_of(index)) << (scale.value() as u32))
            }),
    {
        let (base, index, scale) = sib.to_sib();
        let base = match base {
            Some(b) => self.state.read32(RtReg::from(b)),
            None => 0,
        };
        let shift = scale.shift();
        let index = self.state.read32(RtReg::from(index)) << shift;
        base.wrapping_add(index)
    }

    /// Reads a byte of the data segment.
    pub fn read_memory8(&self, addr: u32) -> (r: Result<u8, Exception>)
        ensures
            r == (if addr < self.mem().len() {
                Ok(self.mem()[addr as int])
            } else {
                Err(Exception::SegmentationViolation(Offset32(addr)))
            }),
    {
        let a = addr as usize;
        if a < self.data.len() {
            Ok(self.data[a])
        } else {
            Err(Exception::SegmentationViolation(Offset32(addr)))
        }
    }

    /// Reads a little-endian 16-bit value of the data segment.
    pub fn read_memory16(&self, addr: u32) -> (r: Result<u16, Exception>)
        ensures
            r == (if addr + 2 <= self.mem().len() {
                Ok(read16_at(self.mem(), addr as int))
            } else {
                Err(Exception::SegmentationViolation(Offset32(addr)))
            }),
    {
        let a = addr as usize;
        if a < self.data.len() && self.data.len() - a >= 2 {
            let b0 = self.data[a] as u16;
            let b1 = self.data[a + 1] as u16;
            Ok(b0 + b1 * 0x100)
        } else {
            Err(Exception::SegmentationViolation(Offset32(addr)))
        }
    }

    /// Reads a little-endian 32-bit value of the data segment.
    pub fn read_memory32(&self, addr: u32) -> (r: Result<u32, Exception>)
        ensures
            r == (if addr + 4 <= self.mem().len() {
                Ok(read32_at(self.mem(), addr as int))
            } else {
                Err(Exception::SegmentationViolation(Offset32(addr)))
            }),
    {
        let a = addr as usize;
        if a < self.data.len() && self.data.len() - a >= 4 {
            Ok(self.load32(a))
        } else {
            Err(Exception::SegmentationViolation(Offset32(addr)))
        }
    }

    /// Reads a little-endian 32-bit value of the code segment.
    fn read_code32(&self, addr: u32) -> (r: Result<u32, Exception>)
        ensures
            ({
                let code = self.spec_tracer().spec_code();
                r == (if addr + 4 <= code.len() {
                    Ok(read32_at(code, addr as int))
                } else {
                    Err(Exception::SegmentationViolation(Offset32(addr)))
                })
            }),
    {
        let code = self.tracer.code();
        let a = addr as usize;
        if a < code.len() && code.len() - a >= 4 {
            let b0 = code[a] as u32;
            let b1 = code[a + 1] as u32;
            let b2 = code[a + 2] as u32;
            let b3 = code[a + 3] as u32;
            Ok(b0 + b1 * 0x100 + b2 * 0x1_0000 + b3 * 0x100_0000)
        } else {
            Err(Exception::SegmentationViolation(Offset32(addr)))
        }
    }

    /// Writes a byte of the data segment.
    pub fn write_memory8(&mut self, addr: u32, value: u8) -> (r: Result<(), Exception>)
        ensures
            addr < old(self).mem().len() ==> r is Ok && final(self).mem() == old(self).mem().update(
                addr as int,
                value,
            ),
            addr >= old(self).mem().len() ==> r == Err::<(), Exception>(
                Exception::SegmentationViolation(Offset32(addr)),
            ) && final(self).mem() == old(self).mem(),
            final(self).spec_state() == old(self).spec_state(),
            final(self).spec_tracer() == old(self).spec_tracer(),
    {
        let a = addr as usize;
        if a < self.data.len() {
            self.data[a] = value;
            Ok(())
        } else {
            Err(Exception::SegmentationViolation(Offset32(addr)))
        }
    }

    /// Writes a little-endian 16-bit value to the data segment.
    pub fn write_memory16(&mut self, addr: u32, value: u16) -> (r: Result<(), Exception>)
        ensures
            addr + 2 <= old(self).mem().len() ==> r is Ok && final(self).mem() == write_bytes(
                old(self).mem(),
                addr as int,
                bytes16(value),
            ),
            addr + 2 > old(self).mem().len() ==> r == Err::<(), Exception>(
                Exception::SegmentationViolation(Offset32(addr)),
            ) && final(self).mem() == old(self).mem(),
            final(self).spec_state() == old(self).spec_state(),
            final(self).spec_tracer() == old(self).spec_tracer(),
    {
        let a = addr as usize;
        if a < self.data.len() && self.data.len() - a >= 2 {
            self.data[a] = (value % 0x100) as u8;
            self.data[a + 1] = (value / 0x100) as u8;
            assert(self.data@ =~= write_bytes(old(self).mem(), a as int, bytes16(value)));
            Ok(())
        } else {
            Err(Exception::SegmentationViolation(Offset32(addr)))
        }
    }

    /// Writes a little-endian 32-bit value to the data segment.
    pub fn write_memory32(&mut self, addr: u32, value: u32) -> (r: Result<(), Exception>)
        ensures
            addr + 4 <= old(self).mem().len() ==> r is Ok && final(self).mem() == write_bytes(
                old(self).mem(),
                addr as int,
                bytes32(value),
            ),
            addr + 4 > old(self).mem().len() ==> r == Err::<(), Exception>(
                Exception::SegmentationViolation(Offset32(addr)),
            ) && final(self).mem() == old(self).mem(),
            final(self).spec_state() == old(self).spec_state(),
            final(self).spec_tracer() == old(self).spec_tracer(),
    {
        let a = addr as usize;
        if a < self.data.len() && self.data.len() - a >= 4 {
            self.store32(a, value);
            Ok(())
        } else {
            Err(Exception::SegmentationViolation(Offset32(addr)))
        }
    }

    /// Executes the emulation, for at most `STEP_LIMIT` micro operations.
    ///
    /// Returns `Ok` when the limit is reached, and the exception that stopped
    /// the emulation otherwise; then the EIP register and the flags are brought
    /// up to date.
    pub fn execute(&mut self) -> (r: Result<(), Exception>)
        requires
            old(self).wf(),
        ensures
            final(self).wf(),
            final(self).mem().len() == old(self).mem().len(),
            final(self).spec_tracer().spec_code() == old(self).spec_tracer().spec_code(),
            r is Ok ==> Self::reached(*old(self), *final(self), STEP_LIMIT as nat),
            r is Err ==> exists|k: nat, mid: UME, last: UME| {
                &&& k < STEP_LIMIT
                &&& #[trigger] Self::reached(*old(self), mid, k)
                &&& #[trigger] Self::step(mid, last, r)
                &&& Self::adjusted(last, *final(self))
            },
    {
        match self._execute(STEP_LIMIT) {
            Ok(()) => Ok(()),
            Err(err) => {
                let ghost last = *self;
                self.adjust_after_exception();
                assert(exists|k: nat, mid: UME| k < STEP_LIMIT && #[trigger] Self::reached(*old(self), mid, k)
                    && Self::step(mid, last, Err(err)));
                Err(err)
            },
        }
    }

    /// Executes the emulation, for at most `max_steps` micro operations.
    fn _execute(&mut self, max_steps: u32) -> (r: Result<(), Exception>)
        requires
            old(self).wf(),
        ensures
            final(self).wf(),
            final(self).mem().len() == old(self).mem().len(),
            final(self).spec_tracer().spec_code() == old(self).spec_tracer().spec_code(),
            r is Ok ==> Self::reached(*old(self), *final(self), max_steps as nat),
            r is Err ==> exists|k: nat, mid: UME| k < max_steps && #[trigger] Self::reached(*old(self), mid, k)
                && Self::step(mid, *final(self), r),
    {
        let mut steps = max_steps;
        let ghost mut trace: Seq<UME> = seq![*self];
        while steps > 0
            invariant
                self.wf(),
                steps <= max_steps,
                self.mem().len() == old(self).mem().len(),
                self.spec_tracer().spec_code() == old(self).spec_tracer().spec_code(),
                Self::is_run(trace),
                trace.len() == max_steps - steps + 1,
                trace[0] == *old(self),
                trace.last() == *self,
            decreases steps,
        {
            let ghost a = *self;
            let ghost k = (max_steps - steps) as nat;
            steps -= 1;
            let uop = match self.tracer.fetch_uop() {
                Some(uop) => uop,
                None => {
                    assert(Self::step(a, *self, Err(Exception::OutOfCode)));
                    assert(Self::is_run(trace) && trace.len() == k + 1 && trace[0] == *old(self) && trace.last() == a);
                    assert(Self::reached(*old(self), a, k));
                    return Err(Exception::OutOfCode);
                },
            };
            let ghost m = *self;
            let res = self.exec_uop(uop);
            let ghost n = *self;
            match res {
                Ok(advance) => {
                    if advance {
                        self.tracer.advance_upc();
                    }
                    assert(Self::step_via(a, m, n, *self, res, Ok(())));
                    assert(Self::step(a, *self, Ok(())));
                    proof {
                        let t2 = trace.push(*self);
                        assert forall|i: int| 0 <= i < t2.len() - 1 implies Self::step(#[trigger] t2[i], t2[i + 1], Ok(())) by {
                            if i < trace.len() - 1 {
                                assert(t2[i] == trace[i] && t2[i + 1] == trace[i + 1]);
                                assert(Self::step(trace[i], trace[i + 1], Ok(())));
                            }
                        }
                        trace = t2;
                    }
                },
                Err(e) => {
                    assert(Self::step_via(a, m, n, *self, res, Err(e)));
                    assert(Self::step(a, *self, Err(e)));
                    assert(Self::is_run(trace) && trace.len() == k + 1 && trace[0] == *old(self) && trace.last() == a);
                    assert(Self::reached(*old(self), a, k));
                    return Err(e);
                },
            }
        }
        assert(Self::is_run(trace) && trace.len() == max_steps + 1 && trace[0] == *old(self) && trace.last() == *self);
        Ok(())
    }

    /// Runs one micro operation; returns whether the micro operation after it
    /// Whether the micro operation `u` took the emulator from `m` to `n` with
    /// the outcome `res`: `Ok(true)` where the next one follows, `Ok(false)`
    /// where it jumped.
    pub open spec fn executed(m: UME, n: UME, u: Uop, res: Result<bool, Exception>) -> bool {
        if uop_group(u) == 0 {
            Self::control_done(m, n, u, res)
        } else {
            &&& n.spec_tracer() == m.spec_tracer()
            &&& Self::data_done(
                m.spec_state()@,
                m.mem(),
                m.spec_tracer().spec_code(),
                u,
                n.spec_state()@,
                n.mem(),
                res,
            )
        }
    }

    /// One step from `a` to `b` with outcome `r`, through `m` (the micro
    /// operation at the tracer's position fetched, translating what needs it,
    /// so that one is at hand; `a` itself where one already was) and `n` (the
    /// operation run, with outcome `res`), the position moved on past it
    /// where the next one follows.
    pub open spec fn step_via(a: UME, m: UME, n: UME, b: UME, res: Result<bool, Exception>, r: Result<(), Exception>) -> bool {
        let t = m.spec_tracer();
        &&& m.spec_state() == a.spec_state()
        &&& m.mem() == a.mem()
        &&& t.spec_code() == a.spec_tracer().spec_code()
        &&& Self::uop_ready(a.spec_tracer()) ==> t == a.spec_tracer()
        &&& Self::uop_ready(t)
        &&& Self::executed(m, n, t.spec_cache()[t.spec_upc() as int], res)
        &&& match res {
            Ok(true) => {
                &&& r == Ok::<(), Exception>(())
                &&& b.spec_state() == n.spec_state()
                &&& b.mem() == n.mem()
                &&& b.spec_tracer().spec_upc() == n.spec_tracer().spec_upc().wrapping_add(1)
                &&& b.spec_tracer().spec_cache() == n.spec_tracer().spec_cache()
                &&& b.spec_tracer().spec_address_map() == n.spec_tracer().spec_address_map()
                &&& b.spec_tracer().spec_code() == n.spec_tracer().spec_code()
            },
            Ok(false) => r == Ok::<(), Exception>(()) && b == n,
            Err(e) => r == Err::<(), Exception>(e) && b == n,
        }
    }

    /// One step of the emulator from `a` to `b` with outcome `r`: the micro
    /// operation at the tracer's position run (the one already there where it
    /// is at hand), or, where none is at hand and none can be had, an
    /// out-of-code exception that changes neither the state nor the data
    /// segment.
    pub open spec fn step(a: UME, b: UME, r: Result<(), Exception>) -> bool {
        ||| exists|m: UME, n: UME, res: Result<bool, Exception>| #[trigger] Self::step_via(a, m, n, b, res, r)
        ||| {
            &&& r == Err::<(), Exception>(Exception::OutOfCode)
            &&& !Self::uop_ready(a.spec_tracer())
            &&& b.spec_state() == a.spec_state()
            &&& b.mem() == a.mem()
        }
    }

    /// Whether the micro operation at the tracer's position is at hand:
    /// translated, and no mark that asks for more code to be fetched. Such a
    /// micro operation is the one that the next step runs.
    pub open spec fn uop_ready(t: TraceDecoder) -> bool {
        &&& 0 <= t.spec_upc() < t.spec_cache().len()
        &&& t.spec_cache()[t.spec_upc() as int] !is FetchNext
    }

    /// Whether the emulators in `t` follow one another, each one step without
    /// exception from the one before.
    pub open spec fn is_run(t: Seq<UME>) -> bool {
        &&& t.len() >= 1
        &&& forall|i: int| 0 <= i < t.len() - 1 ==> Self::step(#[trigger] t[i], t[i + 1], Ok(()))
    }

    /// Whether `k` steps, none of them raising an exception, take the
    /// emulator from `a` to `b`.
    pub open spec fn reached(a: UME, b: UME, k: nat) -> bool {
        exists|t: Seq<UME>| #[trigger] Self::is_run(t) && t.len() == k + 1 && t[0] == a && t.last() == b
    }

    /// Whether the tracer of `after` continues at the translation of `eip`,
    /// as a jump to `eip` that `r` reports done does.
    pub open spec fn jumped_to(after: UME, eip: u32, r: Result<bool, Exception>) -> bool {
        &&& (r is Ok || r == Err::<bool, Exception>(Exception::OutOfCode))
        &&& r is Ok ==> {
            &&& r == Ok::<bool, Exception>(false)
            &&& after.spec_tracer().spec_address_map().contains_key(eip)
            &&& after.spec_tracer().spec_upc() == after.spec_tracer().spec_address_map()[eip]
        }
    }

    /// What the jump or call `uop` does, from `before` to `after`, with the
    /// outcome `r`: the state and the data segment after it, and where the
    /// tracer continues.
    pub open spec fn control_done(before: UME, after: UME, uop: Uop, r: Result<bool, Exception>) -> bool {
        let s = before.spec_state()@;
        let mem = before.mem();
        let same_data = after.spec_state() == before.spec_state() && after.mem() == mem;
        match uop {
            Uop::Jump(t) => {
                &&& r == Ok::<bool, Exception>(false)
                &&& after.spec_tracer().spec_upc() == t.0
                &&& same_data
            },
            Uop::Jcc(cc, t) => {
                let flags = resolved_for_cc(s.lazy_op, s.flags, cc);
                &&& after.spec_state()@ == (StateView { flags, ..s })
                &&& after.mem() == mem
                &&& if cc_holds(cc, flags) {
                    r == Ok::<bool, Exception>(false) && after.spec_tracer().spec_upc() == t.0
                } else {
                    r == Ok::<bool, Exception>(true) && after.spec_tracer() == before.spec_tracer()
                }
            },
            Uop::JccU(cc, t) => {
                let flags = resolved_for_cc(s.lazy_op, s.flags, cc);
                &&& after.spec_state()@ == (StateView { flags, ..s })
                &&& after.mem() == mem
                &&& if cc_holds(cc, flags) {
                    Self::jumped_to(after, t.0, r)
                } else {
                    r == Ok::<bool, Exception>(true) && after.spec_tracer() == before.spec_tracer()
                }
            },
            Uop::Jz(t) => {
                &&& same_data
                &&& if has_bits(s.flags.dynamic_value.0, 0x40) {
                    r == Ok::<bool, Exception>(false) && after.spec_tracer().spec_upc() == t.0
                } else {
                    r == Ok::<bool, Exception>(true) && after.spec_tracer() == before.spec_tracer()
                }
            },
            Uop::Jnz(t) => {
                &&& same_data
                &&& if !has_bits(s.flags.dynamic_value.0, 0x40) {
                    r == Ok::<bool, Exception>(false) && after.spec_tracer().spec_upc() == t.0
                } else {
                    r == Ok::<bool, Exception>(true) && after.spec_tracer() == before.spec_tracer()
                }
            },
            Uop::JumpR(rs) => same_data && Self::jumped_to(after, s.regs[rs.index()], r),
            Uop::Call(f, ret) => match push_step(s, mem, ret.0) {
                Ok((t, m)) => {
                    &&& after.spec_state()@ == t
                    &&& after.mem() == m
                    &&& (r == Ok::<bool, Exception>(false) || r == Err::<bool, Exception>(Exception::OutOfCode))
                    &&& r is Ok ==> (f.0 as int) < before.spec_tracer().spec_functions().len()
                },
                Err(e) => r == Err::<bool, Exception>(e) && same_data,
            },
            Uop::CallR(rd, ret) => match push_step(s, mem, ret.0) {
                Ok((t, m)) => {
                    &&& after.spec_state()@ == t
                    &&& after.mem() == m
                    &&& Self::jumped_to(after, s.regs[rd.index()], r)
                },
                Err(e) => r == Err::<bool, Exception>(e) && same_data,
            },
            Uop::Ret(iw) => {
                let esp = s.regs[RtReg::ESP.index()];
                if esp + 4 <= mem.len() {
                    &&& after.spec_state()@ == set32(s, RtReg::ESP, wrap_add(esp, 4).wrapping_add(iw as u32))
                    &&& after.mem() == mem
                    &&& Self::jumped_to(after, read32_at(mem, esp as int), r)
                } else {
                    r == Err::<bool, Exception>(Exception::StackFault) && same_data
                }
            },
            _ => true,
        }
    }

    /// Whether the micro operation `uop`, not a jump or call, run on state
    /// `s`, data segment `mem` and code segment `code`, left state `s2`,
    /// segment `m2` and outcome `r`.
    pub open spec fn data_done(
        s: StateView,
        mem: Seq<u8>,
        code: Seq<u8>,
        uop: Uop,
        s2: StateView,
        m2: Seq<u8>,
        r: Result<bool, Exception>,
    ) -> bool {
        let (f, t, m) = data_step(s, mem, code, uop);
        &&& s2 == t
        &&& m2 == m
        &&& r == match f {
            Some(e) => Err::<bool, Exception>(e),
            None => Ok(true),
        }
    }

    /// Runs a register operation.
    fn exec_reg(&mut self, uop: Uop) -> (r: Result<bool, Exception>)
        requires
            old(self).wf(),
            uop_group(uop) == 1,
        ensures
            final(self).wf(),
            final(self).mem().len() == old(self).mem().len(),
            final(self).spec_tracer() == old(self).spec_tracer(),
            Self::data_done(
                old(self).spec_state()@,
                old(self).mem(),
                old(self).spec_tracer().spec_code(),
                uop,
                final(self).spec_state()@,
                final(self).mem(),
                r,
            ),
    {
        proof {
            reveal(reg_step);
        }
        match uop {
        Uop::SetCC(cc, rd) => {
            let value: u8 = if self.state.eval_cc(cc) { 1 } else { 0 };
            self.state.write8(rd, value);
        }
        Uop::LoadConst8(rd, ib) => {
            self.state.write8(rd, ib);
        }
        Uop::LoadConst16(rd, iw) => {
            self.state.write16(rd, iw);
        }
        Uop::LoadConst(rd, id) => {
            self.state.write32(rd, id);
        }
        Uop::Move(rd, rs) => {
            let value = self.state.read32(rs);
            self.state.write32(rd, value);
        }
        Uop::Move8(rd, rs) => {
            let value = self.state.read8(rs);
            self.state.write8(rd, value);
        }
        Uop::Move16(rd, rs) => {
            let value = self.state.read16(rs);
            self.state.write16(rd, value);
        }
        Uop::MovSx8(rd, rs) => {
            let value = self.state.read8(rs) as i8 as i32 as u32;
            self.state.write32(rd, value);
        }
        Uop::MovSx16(rd, rs) => {
            let value = self.state.read16(rs) as i16 as i32 as u32;
            self.state.write32(rd, value);
        }
        Uop::MovZx8(rd, rs) => {
            let value = self.state.read8(rs);
            self.state.write32(rd, value as u32);
        }
        Uop::MovZx16(rd, rs) => {
            let value = self.state.read16(rs);
            self.state.write32(rd, value as u32);
        }
        Uop::NotR(rd) => {
            let value = self.state.read32(rd);
            self.state.write32(rd, !value);
        }
        Uop::XchgR(rd, rs) => {
            let value_rd = self.state.read32(rd);
            let value_rs = self.state.read32(rs);
            self.state.write32(rd, value_rs);
            self.state.write32(rs, value_rd);
        }
        Uop::LeaBD(rd, rb, disp) => {
            let base = self.state.read32(rb);
            let addr = base.wrapping_add(disp.0);
            self.state.write32(rd, addr);
        }
        Uop::LeaSIB(rd, sib, disp) => {
            let addr = self.resolve_sib(sib).wrapping_add(disp.0);
            self.state.write32(rd, addr);
        }
        _ => {},
        }
        Ok(true)
    }

    /// Runs a load.
    fn exec_load(&mut self, uop: Uop) -> (r: Result<bool, Exception>)
        requires
            old(self).wf(),
            uop_group(uop) == 2,
        ensures
            final(self).wf(),
            final(self).mem().len() == old(self).mem().len(),
            final(self).spec_tracer() == old(self).spec_tracer(),
            Self::data_done(
                old(self).spec_state()@,
                old(self).mem(),
                old(self).spec_tracer().spec_code(),
                uop,
                final(self).spec_state()@,
                final(self).mem(),
                r,
            ),
    {
        proof {
            reveal(load_step);
        }
        match uop {
        Uop::LoadR8(rd, rb) => {
            let base = self.state.read32(rb);
            let value = match self.read_memory8(base) {
                Ok(v) => v,
                Err(e) => return Err(e),
            };
            self.state.write8(rd, value);
        }
        Uop::LoadR16(rd, rb) => {
            let base = self.state.read32(rb);
            let value = match self.read_memory16(base) {
                Ok(v) => v,
                Err(e) => return Err(e),
            };
            self.state.write16(rd, value);
        }
        Uop::LoadR32(rd, rb) => {
            let base = self.state.read32(rb);
            let value = match self.read_memory32(base) {
                Ok(v) => v,
                Err(e) => return Err(e),
            };
            self.state.write32(rd, value);
        }
        Uop::LoadBD32(rd, rb, disp) => {
            let base = self.state.read32(rb);
            let addr = base.wrapping_add(disp.0);
            let value = match self.read_memory32(addr) {
                Ok(v) => v,
                Err(e) => return Err(e),
            };
            self.state.write32(rd, value);
        }
        Uop::LoadSIB32(rd, sib, disp) => {
            let addr = self.resolve_sib(sib).wrapping_add(disp.0);
            let value = match self.read_memory32(addr) {
                Ok(v) => v,
                Err(e) => return Err(e),
            };
            self.state.write32(rd, value);
        }
        Uop::LoadR32CS(rd, rb) => {
            let addr = self.state.read32(rb);
            let value = match self.read_code32(addr) {
                Ok(v) => v,
                Err(e) => return Err(e),
            };
            self.state.write32(rd, value);
        }
        Uop::LoadBD32CS(rd, rb, disp) => {
            let base = self.state.read32(rb);
            let addr = base.wrapping_add(disp.0);
            let value = match self.read_code32(addr) {
                Ok(v) => v,
                Err(e) => return Err(e),
            };
            self.state.write32(rd, value);
        }
        Uop::LoadSIB32CS(rd, sib, disp) => {
            let addr = self.resolve_sib(sib).wrapping_add(disp.0);
            let value = match self.read_code32(addr) {
                Ok(v) => v,
                Err(e) => return Err(e),
            };
            self.state.write32(rd, value);
        }
        _ => {},
        }
        Ok(true)
    }

    /// Runs a store.
    fn exec_store(&mut self, uop: Uop) -> (r: Result<bool, Exception>)
        requires
            old(self).wf(),
            uop_group(uop) == 3,
        ensures
            final(self).wf(),
            final(self).mem().len() == old(self).mem().len(),
            final(self).spec_tracer() == old(self).spec_tracer(),
            Self::data_done(
                old(self).spec_state()@,
                old(self).mem(),
                old(self).spec_tracer().spec_code(),
                uop,
                final(self).spec_state()@,
                final(self).mem(),
                r,
            ),
    {
        proof {
            reveal(store_step);
        }
        match uop {
        Uop::StoreR8(rd, rb) => {
            let base = self.state.read32(rb);
            let value = self.state.read8(rd);
            if let Err(e) = self.write_memory8(base, value) {
                return Err(e);
            }
        }
        Uop::StoreR16(rd, rb) => {
            let base = self.state.read32(rb);
            let value = self.state.read16(rd);
            if let Err(e) = self.write_memory16(base, value) {
                return Err(e);
            }
        }
        Uop::StoreR32(rd, rb) => {
            let base = self.state.read32(rb);
            let value = self.state.read32(rd);
            if let Err(e) = self.write_memory32(base, value) {
                return Err(e);
            }
        }
        Uop::StoreBD32(rd, rb, disp) => {
            let base = self.state.read32(rb);
            let addr = base.wrapping_add(disp.0);
            let value = self.state.read32(rd);
            if let Err(e) = self.write_memory32(addr, value) {
                return Err(e);
            }
        }
        Uop::StoreSIB32(rd, sib, disp) => {
            let addr = self.resolve_sib(sib).wrapping_add(disp.0);
            let value = self.state.read32(rd);
            if let Err(e) = self.write_memory32(addr, value) {
                return Err(e);
            }
        }
        _ => {},
        }
        Ok(true)
    }

    /// Runs a stack operation.
    fn exec_stack(&mut self, uop: Uop) -> (r: Result<bool, Exception>)
        requires
            old(self).wf(),
            uop_group(uop) == 4,
        ensures
            final(self).wf(),
            final(self).mem().len() == old(self).mem().len(),
            final(self).spec_tracer() == old(self).spec_tracer(),
            Self::data_done(
                old(self).spec_state()@,
                old(self).mem(),
                old(self).spec_tracer().spec_code(),
                uop,
                final(self).spec_state()@,
                final(self).mem(),
                r,
            ),
    {
        proof {
            reveal(stack_step);
        }
        match uop {
        Uop::PushAd => {
            if self.pushad().is_none() {
                return Err(Exception::StackFault);
            }
        }
        Uop::PushI(id) => {
            if self.push(id).is_none() {
                return Err(Exception::StackFault);
            }
        }
        Uop::PushR(rd) => {
            let value = self.state.read32(rd);
            if self.push(value).is_none() {
                return Err(Exception::StackFault);
            }
        }
        Uop::PopAd => {
            if self.popad().is_none() {
                return Err(Exception::StackFault);
            }
        }
        Uop::PopR(rd) => {
            let value = match self.pop() {
                Some(v) => v,
                None => return Err(Exception::StackFault),
            };
            self.state.write32(rd, value);
        }
        _ => {},
        }
        Ok(true)
    }

    /// Runs an arithmetic, minor or interrupt micro operation.
    fn exec_rest(&mut self, uop: Uop) -> (r: Result<bool, Exception>)
        requires
            old(self).wf(),
            uop_group(uop) == 5,
        ensures
            final(self).wf(),
            final(self).mem().len() == old(self).mem().len(),
            final(self).spec_tracer() == old(self).spec_tracer(),
            Self::data_done(
                old(self).spec_state()@,
                old(self).mem(),
                old(self).spec_tracer().spec_code(),
                uop,
                final(self).spec_state()@,
                final(self).mem(),
                r,
            ),
    {
        match uop {
            Uop::Swi(ib) => Err(Exception::Swi(ib)),
            Uop::FetchNext(_) => Err(Exception::Unimplemented(uop)),
            Uop::Unsupported => Err(Exception::Unimplemented(uop)),
            Uop::Minor(mop) => self.exec_minor(mop),
            _ => self.exec_alu(uop),
        }
    }

    /// Runs one micro operation: `Ok(true)` where the next one follows it,
    /// `Ok(false)` where it jumped.
    fn exec_uop(&mut self, uop: Uop) -> (r: Result<bool, Exception>)
        requires
            old(self).wf(),
            (old(self).spec_tracer().spec_upc() as int) < old(self).spec_tracer().spec_cache().len(),
        ensures
            final(self).wf(),
            final(self).mem().len() == old(self).mem().len(),
            final(self).spec_tracer().spec_code() == old(self).spec_tracer().spec_code(),
            uop_group(uop) == 0 ==> Self::control_done(*old(self), *final(self), uop, r),
            uop_group(uop) != 0 ==> final(self).spec_tracer() == old(self).spec_tracer() && Self::data_done(
                old(self).spec_state()@,
                old(self).mem(),
                old(self).spec_tracer().spec_code(),
                uop,
                final(self).spec_state()@,
                final(self).mem(),
                r,
            ),
    {
        let group = uop_group_of(&uop);
        if group == 1 {
            return self.exec_reg(uop);
        } else if group == 2 {
            return self.exec_load(uop);
        } else if group == 3 {
            return self.exec_store(uop);
        } else if group == 4 {
            return self.exec_stack(uop);
        } else if group == 5 {
            return self.exec_rest(uop);
        }
        match uop {
        Uop::Jump(target) => {
            self.tracer.set_current_upc(target);
            return Ok(false);
        }
        Uop::JumpR(rs) => {
            let target = self.state.read32(rs);
            if !self.tracer.set_eip(Offset32(target)) {
                return Err(Exception::OutOfCode);
            }
            return Ok(false);
        }
        Uop::Call(func_index, return_addr) => {
            if self.push(return_addr.0).is_none() {
                return Err(Exception::StackFault);
            }
            if !self.tracer.resolve_and_invoke_function(func_index) {
                return Err(Exception::OutOfCode);
            }
            return Ok(false);
        }
        Uop::CallR(rd, return_addr) => {
            let target = self.state.read32(rd);
            if self.push(return_addr.0).is_none() {
                return Err(Exception::StackFault);
            }
            if !self.tracer.set_eip(Offset32(target)) {
                return Err(Exception::OutOfCode);
            }
            return Ok(false);
        }
        Uop::Ret(iw) => {
            let ghost s0 = self.spec_state()@;
            proof {
                self.state.lemma_view_lens();
            }
            let return_addr = match self.pop() {
                Some(v) => v,
                None => return Err(Exception::StackFault),
            };
            let esp = self.state.read32(RtReg::ESP);
            self.state.write32(RtReg::ESP, esp.wrapping_add(iw as u32));
            assert(self.spec_state()@ =~= set32(s0, RtReg::ESP, esp.wrapping_add(iw as u32)));
            if !self.tracer.set_eip(Offset32(return_addr)) {
                return Err(Exception::OutOfCode);
            }
            return Ok(false);
        }
        Uop::JccU(cc, target) => {
            if self.state.eval_cc(cc) {
                if let Some(addr_index) = self.tracer.resolve_target(target) {
                    self.tracer.replace(TraceDecoder::jcc_opt(cc, addr_index));
                    self.tracer.set_current_upc(addr_index);
                    return Ok(false);
                } else {
                    return Err(Exception::OutOfCode);
                }
            }
        }
        Uop::Jcc(cc, target) => {
            if self.state.eval_cc(cc) {
                self.tracer.set_current_upc(target);
                return Ok(false);
            }
        }
        Uop::Jz(target) => {
            if self.state.flags().zf() {
                self.tracer.set_current_upc(target);
                return Ok(false);
            }
        }
        Uop::Jnz(target) => {
            if !self.state.flags().zf() {
                self.tracer.set_current_upc(target);
                return Ok(false);
            }
        }
        _ => {},
        }
        Ok(true)
    }

    /// `op` on byte register `rd` and `src`, the result written back where `keep`.
    fn exec_bin8(&mut self, op: BinOp, rd: RtReg8, src: u8, keep: bool)
        requires
            old(self).wf(),
        ensures
            final(self).wf(),
            final(self).mem() == old(self).mem(),
            final(self).spec_tracer() == old(self).spec_tracer(),
            final(self).spec_state()@ == op8(old(self).spec_state()@, op, rd, src, keep),
    {
        proof {
            reveal(op8);
        }
        let dst = self.state.read8(rd);
        let result = match op {
            BinOp::Add => self.alu().add8(dst, src),
            BinOp::Sub => self.alu().sub8(dst, src),
            BinOp::And => self.alu().and8(dst, src),
            BinOp::Or => self.alu().or8(dst, src),
            BinOp::Xor => self.alu().xor8(dst, src),
        };
        if keep {
            self.state.write8(rd, result);
        }
    }

    /// `op` on the low word of register `rd` and `src`, the result written back where `keep`.
    fn exec_bin16(&mut self, op: BinOp, rd: RtReg, src: u16, keep: bool)
        requires
            old(self).wf(),
        ensures
            final(self).wf(),
            final(self).mem() == old(self).mem(),
            final(self).spec_tracer() == old(self).spec_tracer(),
            final(self).spec_state()@ == op16(old(self).spec_state()@, op, rd, src, keep),
    {
        proof {
            reveal(op16);
        }
        let dst = self.state.read16(rd);
        let result = match op {
            BinOp::Add => self.alu().add16(dst, src),
            BinOp::Sub => self.alu().sub16(dst, src),
            BinOp::And => self.alu().and16(dst, src),
            BinOp::Or => self.alu().or16(dst, src),
            BinOp::Xor => self.alu().xor16(dst, src),
        };
        if keep {
            self.state.write16(rd, result);
        }
    }

    /// `op` on register `rd` and `src`, the result written back where `keep`.
    fn exec_bin32(&mut self, op: BinOp, rd: RtReg, src: u32, keep: bool)
        requires
            old(self).wf(),
        ensures
            final(self).wf(),
            final(self).mem() == old(self).mem(),
            final(self).spec_tracer() == old(self).spec_tracer(),
            final(self).spec_state()@ == op32(old(self).spec_state()@, op, rd, src, keep),
    {
        proof {
            reveal(op32);
        }
        let dst = self.state.read32(rd);
        let result = match op {
            BinOp::Add => self.alu().add32(dst, src),
            BinOp::Sub => self.alu().sub32(dst, src),
            BinOp::And => self.alu().and32(dst, src),
            BinOp::Or => self.alu().or32(dst, src),
            BinOp::Xor => self.alu().xor32(dst, src),
        };
        if keep {
            self.state.write32(rd, result);
        }
    }

    /// Byte register `rd` shifted by `count`.
    fn exec_shift8(&mut self, op: ShiftOp, rd: RtReg8, count: u8)
        requires
            old(self).wf(),
        ensures
            final(self).wf(),
            final(self).mem() == old(self).mem(),
            final(self).spec_tracer() == old(self).spec_tracer(),
            final(self).spec_state()@ == sh8(old(self).spec_state()@, op, rd, count),
    {
        proof {
            reveal(sh8);
        }
        let dst = self.state.read8(rd);
        let result = match op {
            ShiftOp::Shl => self.alu().shl8(dst, count),
            ShiftOp::Shr => self.alu().shr8(dst, count),
            ShiftOp::Sar => self.alu().sar8(dst, count),
        };
        self.state.write8(rd, result);
    }

    /// The low word of register `rd` shifted by `count`.
    fn exec_shift16(&mut self, op: ShiftOp, rd: RtReg, count: u8)
        requires
            old(self).wf(),
        ensures
            final(self).wf(),
            final(self).mem() == old(self).mem(),
            final(self).spec_tracer() == old(self).spec_tracer(),
            final(self).spec_state()@ == sh16(old(self).spec_state()@, op, rd, count),
    {
        proof {
            reveal(sh16);
        }
        let dst = self.state.read16(rd);
        let result = match op {
            ShiftOp::Shl => self.alu().shl16(dst, count),
            ShiftOp::Shr => self.alu().shr16(dst, count),
            ShiftOp::Sar => self.alu().sar16(dst, count),
        };
        self.state.write16(rd, result);
    }

    /// Register `rd` shifted by `count`.
    fn exec_shift32(&mut self, op: ShiftOp, rd: RtReg, count: u8)
        requires
            old(self).wf(),
        ensures
            final(self).wf(),
            final(self).mem() == old(self).mem(),
            final(self).spec_tracer() == old(self).spec_tracer(),
            final(self).spec_state()@ == sh32(old(self).spec_state()@, op, rd, count),
    {
        proof {
            reveal(sh32);
        }
        let dst = self.state.read32(rd);
        let result = match op {
            ShiftOp::Shl => self.alu().shl32(dst, count),
            ShiftOp::Shr => self.alu().shr32(dst, count),
            ShiftOp::Sar => self.alu().sar32(dst, count),
        };
        self.state.write32(rd, result);
    }

    /// Register `rd` incremented, or decremented where not `inc`.
    fn exec_inc_dec32(&mut self, rd: RtReg, inc: bool)
        requires
            old(self).wf(),
        ensures
            final(self).wf(),
            final(self).mem() == old(self).mem(),
            final(self).spec_tracer() == old(self).spec_tracer(),
            final(self).spec_state()@ == inc_dec32(old(self).spec_state()@, rd, inc),
    {
        proof {
            reveal(inc_dec32);
        }
        let dst = self.state.read32(rd);
        let result = if inc {
            self.alu().inc32(dst)
        } else {
            self.alu().dec32(dst)
        };
        self.state.write32(rd, result);
    }

    /// Register `rd` negated.
    fn exec_neg32(&mut self, rd: RtReg)
        requires
            old(self).wf(),
        ensures
            final(self).wf(),
            final(self).mem() == old(self).mem(),
            final(self).spec_tracer() == old(self).spec_tracer(),
            final(self).spec_state()@ == neg32(old(self).spec_state()@, rd),
    {
        proof {
            reveal(neg32);
        }
        let dst = self.state.read32(rd);
        let result = self.alu().sub32(0, dst);
        self.state.write32(rd, result);
    }

    /// `rd` set to the signed product of `a` and `b`.
    fn exec_imul32(&mut self, rd: RtReg, a: i32, b: i32)
        requires
            old(self).wf(),
        ensures
            final(self).wf(),
            final(self).mem() == old(self).mem(),
            final(self).spec_tracer() == old(self).spec_tracer(),
            final(self).spec_state()@ == imul32(old(self).spec_state()@, rd, a, b),
    {
        proof {
            reveal(imul32);
        }
        let result = self.alu().imul32(a, b);
        self.state.write32(rd, result as u32);
    }

    /// `op` on the double word that `rd` points to and register `rs`, stored back.
    fn exec_rmw32(&mut self, op: BinOp, rd: RtReg, rs: RtReg) -> (r: Result<bool, Exception>)
        requires
            old(self).wf(),
        ensures
            final(self).wf(),
            final(self).mem().len() == old(self).mem().len(),
            final(self).spec_tracer() == old(self).spec_tracer(),
            match rmw32(old(self).spec_state()@, old(self).mem(), op, rd, rs) {
                Ok((s, m)) => r == Ok::<bool, Exception>(true) && final(self).spec_state()@ == s && final(self).mem() == m,
                Err(e) => r == Err::<bool, Exception>(e) && final(self).spec_state()@ == old(self).spec_state()@
                    && final(self).mem() == old(self).mem(),
            },
    {
        proof {
            reveal(rmw32);
        }
        let addr = self.state.read32(rd);
        let dst = match self.read_memory32(addr) {
            Ok(v) => v,
            Err(e) => return Err(e),
        };
        let src = self.state.read32(rs);
        let result = match op {
            BinOp::Add => self.alu().add32(dst, src),
            BinOp::Sub => self.alu().sub32(dst, src),
            BinOp::And => self.alu().and32(dst, src),
            BinOp::Or => self.alu().or32(dst, src),
            BinOp::Xor => self.alu().xor32(dst, src),
        };
        if let Err(e) = self.write_memory32(addr, result) {
            return Err(e);
        }
        Ok(true)
    }

    /// EDX:EAX divided by register `rs`, signed.
    fn exec_idiv32(&mut self, rs: RtReg) -> (r: Result<bool, Exception>)
        requires
            old(self).wf(),
        ensures
            final(self).wf(),
            final(self).spec_tracer() == old(self).spec_tracer(),
            final(self).mem() == old(self).mem(),
            match idiv32(old(self).spec_state()@, old(self).mem(), rs) {
                Ok((s, m)) => r == Ok::<bool, Exception>(true) && final(self).spec_state()@ == s && m == old(self).mem(),
                Err(e) => r == Err::<bool, Exception>(e) && final(self).spec_state()@ == old(self).spec_state()@,
            },
    {
        proof {
            reveal(idiv32);
        }
        let divisor = self.state.read32(rs) as i32;
        if divisor == 0 {
            return Err(Exception::DivisionError);
        }
        let eax = self.state.read32(RtReg::EAX);
        let edx = self.state.read32(RtReg::EDX);
        let (quotient, remainder) = match signed_div64(edx, eax, divisor) {
            Some(qr) => qr,
            None => return Err(Exception::DivisionError),
        };
        self.state.write32(RtReg::EAX, quotient as u32);
        self.state.write32(RtReg::EDX, remainder as u32);
        Ok(true)
    }

    /// EDX:EAX divided by register `rs`, unsigned.
    fn exec_div32(&mut self, rs: RtReg) -> (r: Result<bool, Exception>)
        requires
            old(self).wf(),
        ensures
            final(self).wf(),
            final(self).spec_tracer() == old(self).spec_tracer(),
            final(self).mem() == old(self).mem(),
            match div32(old(self).spec_state()@, old(self).mem(), rs) {
                Ok((s, m)) => r == Ok::<bool, Exception>(true) && final(self).spec_state()@ == s && m == old(self).mem(),
                Err(e) => r == Err::<bool, Exception>(e) && final(self).spec_state()@ == old(self).spec_state()@,
            },
    {
        proof {
            reveal(div32);
        }
        let divisor = self.state.read32(rs);
        if divisor == 0 {
            return Err(Exception::DivisionError);
        }
        let eax = self.state.read32(RtReg::EAX);
        let edx = self.state.read32(RtReg::EDX);
        let dividend = (edx as u64) * 0x1_0000_0000 + (eax as u64);
        let quotient = dividend / (divisor as u64);
        let remainder = dividend % (divisor as u64);
        if quotient > u32::MAX as u64 {
            return Err(Exception::DivisionError);
        }
        self.state.write32(RtReg::EAX, quotient as u32);
        self.state.write32(RtReg::EDX, remainder as u32);
        Ok(true)
    }

    /// Runs an addition or subtraction.
    fn exec_alu_arith(&mut self, uop: Uop) -> (r: Result<bool, Exception>)
        requires
            old(self).wf(),
            alu_group(uop) == 0,
        ensures
            final(self).wf(),
            final(self).mem().len() == old(self).mem().len(),
            final(self).spec_tracer() == old(self).spec_tracer(),
            match alu_step(old(self).spec_state()@, old(self).mem(), uop) {
                Ok((s, m)) => r == Ok::<bool, Exception>(true) && final(self).spec_state()@ == s && final(self).mem() == m,
                Err(e) => r == Err::<bool, Exception>(e) && final(self).spec_state()@ == old(self).spec_state()@
                    && final(self).mem() == old(self).mem(),
            },
    {
        match uop {
        Uop::AddI8(rd, ib) => self.exec_bin8(BinOp::Add, rd, ib, true),
        Uop::AddI16(rd, iw) => self.exec_bin16(BinOp::Add, rd, iw, true),
        Uop::AddI(rd, id) => self.exec_bin32(BinOp::Add, rd, id, true),
        Uop::AddR8(rd, rs) => {
            let src = self.state.read8(rs);
            self.exec_bin8(BinOp::Add, rd, src, true);
        }
        Uop::AddR16(rd, rs) => {
            let src = self.state.read16(rs);
            self.exec_bin16(BinOp::Add, rd, src, true);
        }
        Uop::AddR(rd, rs) => {
            let src = self.state.read32(rs);
            self.exec_bin32(BinOp::Add, rd, src, true);
        }
        Uop::AddRMW(rd, rs) => return self.exec_rmw32(BinOp::Add, rd, rs),
        Uop::IncR(rd) => self.exec_inc_dec32(rd, true),
        Uop::SubI8(rd, ib) => self.exec_bin8(BinOp::Sub, rd, ib, true),
        Uop::SubI16(rd, iw) => self.exec_bin16(BinOp::Sub, rd, iw, true),
        Uop::SubI(rd, id) => self.exec_bin32(BinOp::Sub, rd, id, true),
        Uop::SubR8(rd, rs) => {
            let src = self.state.read8(rs);
            self.exec_bin8(BinOp::Sub, rd, src, true);
        }
        Uop::SubR16(rd, rs) => {
            let src = self.state.read16(rs);
            self.exec_bin16(BinOp::Sub, rd, src, true);
        }
        Uop::SubR(rd, rs) => {
            let src = self.state.read32(rs);
            self.exec_bin32(BinOp::Sub, rd, src, true);
        }
        Uop::SubRMW(rd, rs) => return self.exec_rmw32(BinOp::Sub, rd, rs),
        Uop::DecR(rd) => self.exec_inc_dec32(rd, false),
        Uop::NegR(rd) => self.exec_neg32(rd),
        Uop::CmpI8(rd, ib) => self.exec_bin8(BinOp::Sub, rd, ib, false),
        Uop::CmpI16(rd, iw) => self.exec_bin16(BinOp::Sub, rd, iw, false),
        Uop::CmpI(rd, id) => self.exec_bin32(BinOp::Sub, rd, id, false),
        Uop::CmpR8(rd, rs) => {
            let src = self.state.read8(rs);
            self.exec_bin8(BinOp::Sub, rd, src, false);
        }
        Uop::CmpR16(rd, rs) => {
            let src = self.state.read16(rs);
            self.exec_bin16(BinOp::Sub, rd, src, false);
        }
        Uop::CmpR(rd, rs) => {
            let src = self.state.read32(rs);
            self.exec_bin32(BinOp::Sub, rd, src, false);
        }
        _ => {},
        }
        Ok(true)
    }

    /// Runs a logic operation.
    fn exec_alu_logic(&mut self, uop: Uop) -> (r: Result<bool, Exception>)
        requires
            old(self).wf(),
            alu_group(uop) == 1,
        ensures
            final(self).wf(),
            final(self).mem().len() == old(self).mem().len(),
            final(self).spec_tracer() == old(self).spec_tracer(),
            match alu_step(old(self).spec_state()@, old(self).mem(), uop) {
                Ok((s, m)) => r == Ok::<bool, Exception>(true) && final(self).spec_state()@ == s && final(self).mem() == m,
                Err(e) => r == Err::<bool, Exception>(e) && final(self).spec_state()@ == old(self).spec_state()@
                    && final(self).mem() == old(self).mem(),
            },
    {
        match uop {
        Uop::AndI8(rd, ib) => self.exec_bin8(BinOp::And, rd, ib, true),
        Uop::AndI16(rd, iw) => self.exec_bin16(BinOp::And, rd, iw, true),
        Uop::AndI(rd, id) => self.exec_bin32(BinOp::And, rd, id, true),
        Uop::AndR8(rd, rs) => {
            let src = self.state.read8(rs);
            self.exec_bin8(BinOp::And, rd, src, true);
        }
        Uop::AndR16(rd, rs) => {
            let src = self.state.read16(rs);
            self.exec_bin16(BinOp::And, rd, src, true);
        }
        Uop::AndR(rd, rs) => {
            let src = self.state.read32(rs);
            self.exec_bin32(BinOp::And, rd, src, true);
        }
        Uop::OrI8(rd, ib) => self.exec_bin8(BinOp::Or, rd, ib, true),
        Uop::OrI16(rd, iw) => self.exec_bin16(BinOp::Or, rd, iw, true),
        Uop::OrI(rd, id) => self.exec_bin32(BinOp::Or, rd, id, true),
        Uop::OrR8(rd, rs) => {
            let src = self.state.read8(rs);
            self.exec_bin8(BinOp::Or, rd, src, true);
        }
        Uop::OrR16(rd, rs) => {
            let src = self.state.read16(rs);
            self.exec_bin16(BinOp::Or, rd, src, true);
        }
        Uop::OrR(rd, rs) => {
            let src = self.state.read32(rs);
            self.exec_bin32(BinOp::Or, rd, src, true);
        }
        Uop::XorI8(rd, ib) => self.exec_bin8(BinOp::Xor, rd, ib, true),
        Uop::XorI16(rd, iw) => self.exec_bin16(BinOp::Xor, rd, iw, true),
        Uop::XorI(rd, id) => self.exec_bin32(BinOp::Xor, rd, id, true),
        Uop::XorR8(rd, rs) => {
            let src = self.state.read8(rs);
            self.exec_bin8(BinOp::Xor, rd, src, true);
        }
        Uop::XorR16(rd, rs) => {
            let src = self.state.read16(rs);
            self.exec_bin16(BinOp::Xor, rd, src, true);
        }
        Uop::XorR(rd, rs) => {
            let src = self.state.read32(rs);
            self.exec_bin32(BinOp::Xor, rd, src, true);
        }
        Uop::TestI8(rd, ib) => self.exec_bin8(BinOp::And, rd, ib, false),
        Uop::TestI16(rd, iw) => self.exec_bin16(BinOp::And, rd, iw, false),
        Uop::TestI(rd, id) => self.exec_bin32(BinOp::And, rd, id, false),
        Uop::TestR8(rd, rs) => {
            let src = self.state.read8(rs);
            self.exec_bin8(BinOp::And, rd, src, false);
        }
        Uop::TestR16(rd, rs) => {
            let src = self.state.read16(rs);
            self.exec_bin16(BinOp::And, rd, src, false);
        }
        Uop::TestR(rd, rs) => {
            let src = self.state.read32(rs);
            self.exec_bin32(BinOp::And, rd, src, false);
        }
        _ => {},
        }
        Ok(true)
    }

    /// Runs a multiplication, division or shift.
    fn exec_alu_rest(&mut self, uop: Uop) -> (r: Result<bool, Exception>)
        requires
            old(self).wf(),
            alu_group(uop) == 2,
        ensures
            final(self).wf(),
            final(self).mem().len() == old(self).mem().len(),
            final(self).spec_tracer() == old(self).spec_tracer(),
            match alu_step(old(self).spec_state()@, old(self).mem(), uop) {
                Ok((s, m)) => r == Ok::<bool, Exception>(true) && final(self).spec_state()@ == s && final(self).mem() == m,
                Err(e) => r == Err::<bool, Exception>(e) && final(self).spec_state()@ == old(self).spec_state()@
                    && final(self).mem() == old(self).mem(),
            },
    {
        match uop {
        Uop::IMulR(rd, rs) => {
            let a = self.state.read32(rd) as i32;
            let b = self.state.read32(rs) as i32;
            self.exec_imul32(rd, a, b);
        }
        Uop::IMulRI(rd, rs, id) => {
            let a = self.state.read32(rs) as i32;
            self.exec_imul32(rd, a, id);
        }
        Uop::IDivR(rs) => return self.exec_idiv32(rs),
        Uop::DivR(rs) => return self.exec_div32(rs),
        Uop::SarI8(rd, ib) => self.exec_shift8(ShiftOp::Sar, rd, ib),
        Uop::SarRCl8(rd) => {
            let cl = self.state.read8(RtReg8::CL);
            self.exec_shift8(ShiftOp::Sar, rd, cl);
        }
        Uop::SarI16(rd, ib) => self.exec_shift16(ShiftOp::Sar, rd, ib),
        Uop::SarRCl16(rd) => {
            let cl = self.state.read8(RtReg8::CL);
            self.exec_shift16(ShiftOp::Sar, rd, cl);
        }
        Uop::SarI(rd, ib) => self.exec_shift32(ShiftOp::Sar, rd, ib),
        Uop::SarRCl(rd) => {
            let cl = self.state.read8(RtReg8::CL);
            self.exec_shift32(ShiftOp::Sar, rd, cl);
        }
        Uop::ShlI8(rd, ib) => self.exec_shift8(ShiftOp::Shl, rd, ib),
        Uop::ShlI16(rd, iw) => self.exec_shift16(ShiftOp::Shl, rd, iw),
        Uop::ShlI(rd, ib) => self.exec_shift32(ShiftOp::Shl, rd, ib),
        Uop::ShlRCl8(rd) => {
            let cl = self.state.read8(RtReg8::CL);
            self.exec_shift8(ShiftOp::Shl, rd, cl);
        }
        Uop::ShlRCl16(rd) => {
            let cl = self.state.read8(RtReg8::CL);
            self.exec_shift16(ShiftOp::Shl, rd, cl);
        }
        Uop::ShlRCl(rd) => {
            let cl = self.state.read8(RtReg8::CL);
            self.exec_shift32(ShiftOp::Shl, rd, cl);
        }
        Uop::ShrI8(rd, ib) => self.exec_shift8(ShiftOp::Shr, rd, ib),
        Uop::ShrRCl8(rd) => {
            let cl = self.state.read8(RtReg8::CL);
            self.exec_shift8(ShiftOp::Shr, rd, cl);
        }
        Uop::ShrI16(rd, ib) => self.exec_shift16(ShiftOp::Shr, rd, ib),
        Uop::ShrRCl16(rd) => {
            let cl = self.state.read8(RtReg8::CL);
            self.exec_shift16(ShiftOp::Shr, rd, cl);
        }
        Uop::ShrI(rd, ib) => self.exec_shift32(ShiftOp::Shr, rd, ib),
        Uop::ShrRCl(rd) => {
            let cl = self.state.read8(RtReg8::CL);
            self.exec_shift32(ShiftOp::Shr, rd, cl);
        }
        _ => {},
        }
        Ok(true)
    }

    /// Runs one arithmetic or logic micro operation.
    fn exec_alu(&mut self, uop: Uop) -> (r: Result<bool, Exception>)
        requires
            old(self).wf(),
        ensures
            final(self).wf(),
            final(self).mem().len() == old(self).mem().len(),
            final(self).spec_tracer() == old(self).spec_tracer(),
            match alu_step(old(self).spec_state()@, old(self).mem(), uop) {
                Ok((s, m)) => r == Ok::<bool, Exception>(true) && final(self).spec_state()@ == s && final(self).mem() == m,
                Err(e) => r == Err::<bool, Exception>(e) && final(self).spec_state()@ == old(self).spec_state()@
                    && final(self).mem() == old(self).mem(),
            },
    {
        let group = alu_group_of(&uop);
        if group == 0 {
            self.exec_alu_arith(uop)
        } else if group == 1 {
            self.exec_alu_logic(uop)
        } else {
            self.exec_alu_rest(uop)
        }
    }

    /// Whether the minor micro operation `mop`, run on state `s` and data
    /// segment `mem`, left state `s2`, segment `m2` and outcome `r`.
    pub open spec fn minor_done(s: StateView, mem: Seq<u8>, mop: UopMinor, s2: StateView, m2: Seq<u8>, r: Result<bool, Exception>) -> bool {
        let (f, t, m) = minor_step(s, mem, mop);
        &&& s2 == t
        &&& m2 == m
        &&& r == match f {
            Some(e) => Err::<bool, Exception>(e),
            None => Ok(true),
        }
    }

    /// Converts EAX to the quadword EDX:EAX, with its sign.
    fn exec_cdq(&mut self) -> (r: Result<bool, Exception>)
        requires
            old(self).wf(),
        ensures
            final(self).wf(),
            final(self).mem().len() == old(self).mem().len(),
            final(self).spec_tracer() == old(self).spec_tracer(),
            Self::minor_done(old(self).spec_state()@, old(self).mem(), UopMinor::Cdq, final(self).spec_state()@, final(self).mem(), r),
    {
        proof {
            reveal(minor_step);
        }
        let eax = self.state.read32(RtReg::EAX) as i32;
        self.state.write32(RtReg::EDX, if eax < 0 { u32::MAX } else { 0 });
        Ok(true)
    }

    /// Clears the direction flag.
    fn exec_cld(&mut self) -> (r: Result<bool, Exception>)
        requires
            old(self).wf(),
        ensures
            final(self).wf(),
            final(self).mem().len() == old(self).mem().len(),
            final(self).spec_tracer() == old(self).spec_tracer(),
            Self::minor_done(old(self).spec_state()@, old(self).mem(), UopMinor::Cld, final(self).spec_state()@, final(self).mem(), r),
    {
        proof {
            reveal(minor_step);
        }
        self.state.flags_mut().set_static(Flags(0x400), false);
        Ok(true)
    }

    /// Identifies the processor in EAX, EBX, ECX and EDX.
    fn exec_cpuid(&mut self) -> (r: Result<bool, Exception>)
        requires
            old(self).wf(),
        ensures
            final(self).wf(),
            final(self).mem().len() == old(self).mem().len(),
            final(self).spec_tracer() == old(self).spec_tracer(),
            Self::minor_done(old(self).spec_state()@, old(self).mem(), UopMinor::Cpuid, final(self).spec_state()@, final(self).mem(), r),
    {
        proof {
            reveal(minor_step);
        }
        let eax = self.state.read32(RtReg::EAX);
        let ecx = self.state.read32(RtReg::ECX);
        let cpuid_result = cpuid(eax, ecx);
        self.state.write32(RtReg::EAX, cpuid_result.eax);
        self.state.write32(RtReg::EBX, cpuid_result.ebx);
        self.state.write32(RtReg::ECX, cpuid_result.ecx);
        self.state.write32(RtReg::EDX, cpuid_result.edx);
        Ok(true)
    }

    /// EDX:EAX gets the unsigned product of EAX and register `rd`.
    fn exec_mul(&mut self, rd: RtReg) -> (r: Result<bool, Exception>)
        requires
            old(self).wf(),
        ensures
            final(self).wf(),
            final(self).mem().len() == old(self).mem().len(),
            final(self).spec_tracer() == old(self).spec_tracer(),
            Self::minor_done(old(self).spec_state()@, old(self).mem(), UopMinor::MulR(rd), final(self).spec_state()@, final(self).mem(), r),
    {
        proof {
            reveal(minor_step);
        }
        let dst = self.state.read32(rd);
        let eax = self.state.read32(RtReg::EAX);
        let result = self.alu().mul32(eax, dst);
        self.state.write32(RtReg::EAX, result as u32);
        self.state.write32(RtReg::EDX, (result >> 32) as u32);
        Ok(true)
    }

    /// Copies ECX bytes from ESI on to EDI on.
    fn exec_rep_movsb(&mut self) -> (r: Result<bool, Exception>)
        requires
            old(self).wf(),
        ensures
            final(self).wf(),
            final(self).mem().len() == old(self).mem().len(),
            final(self).spec_tracer() == old(self).spec_tracer(),
            Self::minor_done(old(self).spec_state()@, old(self).mem(), UopMinor::RepMovsb, final(self).spec_state()@, final(self).mem(), r),
    {
        proof {
            reveal(minor_step);
        }
        let mut ecx = self.state.read32(RtReg::ECX);
        if ecx > 0 {
            let mut esi = self.state.read32(RtReg::ESI);
            let mut edi = self.state.read32(RtReg::EDI);
            let ghost s0 = self.spec_state()@;
            let ghost m0 = self.mem();
            while ecx > 0
                invariant
                    self.wf(),
                    self.mem().len() == m0.len(),
                    self.spec_tracer() == old(self).spec_tracer(),
                    self.spec_state()@ == s0,
                    s0 == old(self).spec_state()@,
                    get32(s0, RtReg::ECX) > 0,
                    m0 == old(self).mem(),
                    movs_bytes(m0, get32(s0, RtReg::ESI), get32(s0, RtReg::EDI), get32(s0, RtReg::ECX))
                        == movs_bytes(self.mem(), esi, edi, ecx),
                decreases ecx,
            {
                proof {
                    reveal(minor_step);
                }
                let value = match self.read_memory8(esi) {
                    Ok(v) => v,
                    Err(e) => {
                        return Err(e);
                    },
                };
                if let Err(e) = self.write_memory8(edi, value) {
                    return Err(e);
                }
                esi = esi.wrapping_add(1);
                edi = edi.wrapping_add(1);
                ecx = ecx.wrapping_sub(1);
            }
            self.state.write32(RtReg::ESI, esi);
            self.state.write32(RtReg::EDI, edi);
            self.state.write32(RtReg::ECX, ecx);
        }
        Ok(true)
    }

    /// Copies ECX double words from ESI on to EDI on.
    fn exec_rep_movsd(&mut self) -> (r: Result<bool, Exception>)
        requires
            old(self).wf(),
        ensures
            final(self).wf(),
            final(self).mem().len() == old(self).mem().len(),
            final(self).spec_tracer() == old(self).spec_tracer(),
            Self::minor_done(old(self).spec_state()@, old(self).mem(), UopMinor::RepMovsd, final(self).spec_state()@, final(self).mem(), r),
    {
        proof {
            reveal(minor_step);
        }
        let mut ecx = self.state.read32(RtReg::ECX);
        if ecx > 0 {
            let mut esi = self.state.read32(RtReg::ESI);
            let mut edi = self.state.read32(RtReg::EDI);
            let ghost s0 = self.spec_state()@;
            let ghost m0 = self.mem();
            while ecx > 0
                invariant
                    self.wf(),
                    self.mem().len() == m0.len(),
                    self.spec_tracer() == old(self).spec_tracer(),
                    self.spec_state()@ == s0,
                    s0 == old(self).spec_state()@,
                    get32(s0, RtReg::ECX) > 0,
                    m0 == old(self).mem(),
                    movs_dwords(m0, get32(s0, RtReg::ESI), get32(s0, RtReg::EDI), get32(s0, RtReg::ECX))
                        == movs_dwords(self.mem(), esi, edi, ecx),
                decreases ecx,
            {
                proof {
                    reveal(minor_step);
                }
                let value = match self.read_memory32(esi) {
                    Ok(v) => v,
                    Err(e) => return Err(e),
                };
                if let Err(e) = self.write_memory32(edi, value) {
                    return Err(e);
                }
                esi = esi.wrapping_add(4);
                edi = edi.wrapping_add(4);
                ecx = ecx.wrapping_sub(1);
            }
            self.state.write32(RtReg::ESI, esi);
            self.state.write32(RtReg::EDI, edi);
            self.state.write32(RtReg::ECX, ecx);
        }
        Ok(true)
    }

    /// Stores EAX ECX times from EDI on.
    fn exec_rep_stosd(&mut self) -> (r: Result<bool, Exception>)
        requires
            old(self).wf(),
        ensures
            final(self).wf(),
            final(self).mem().len() == old(self).mem().len(),
            final(self).spec_tracer() == old(self).spec_tracer(),
            Self::minor_done(old(self).spec_state()@, old(self).mem(), UopMinor::RepStosd, final(self).spec_state()@, final(self).mem(), r),
    {
        proof {
            reveal(minor_step);
        }
        let mut ecx = self.state.read32(RtReg::ECX);
        if ecx > 0 {
            let mut edi = self.state.read32(RtReg::EDI);
            let eax = self.state.read32(RtReg::EAX);
            let ghost s0 = self.spec_state()@;
            let ghost m0 = self.mem();
            while ecx > 0
                invariant
                    self.wf(),
                    self.mem().len() == m0.len(),
                    self.spec_tracer() == old(self).spec_tracer(),
                    self.spec_state()@ == s0,
                    s0 == old(self).spec_state()@,
                    get32(s0, RtReg::ECX) > 0,
                    m0 == old(self).mem(),
                    eax == get32(s0, RtReg::EAX),
                    stos_dwords(m0, get32(s0, RtReg::EDI), get32(s0, RtReg::ECX), eax)
                        == stos_dwords(self.mem(), edi, ecx, eax),
                decreases ecx,
            {
                proof {
                    reveal(minor_step);
                }
                if let Err(e) = self.write_memory32(edi, eax) {
                    return Err(e);
                }
                edi = edi.wrapping_add(4);
                ecx = ecx.wrapping_sub(1);
            }
            self.state.write32(RtReg::EDI, edi);
            self.state.write32(RtReg::ECX, ecx);
        }
        Ok(true)
    }

    /// Stores AL ECX times from EDI on.
    fn exec_rep_stosb(&mut self) -> (r: Result<bool, Exception>)
        requires
            old(self).wf(),
        ensures
            final(self).wf(),
            final(self).mem().len() == old(self).mem().len(),
            final(self).spec_tracer() == old(self).spec_tracer(),
            Self::minor_done(old(self).spec_state()@, old(self).mem(), UopMinor::RepStosb, final(self).spec_state()@, final(self).mem(), r),
    {
        proof {
            reveal(minor_step);
        }
        let mut ecx = self.state.read32(RtReg::ECX);
        if ecx > 0 {
            let mut edi = self.state.read32(RtReg::EDI);
            let al = self.state.read8(RtReg8::AL);
            let ghost s0 = self.spec_state()@;
            let ghost m0 = self.mem();
            while ecx > 0
                invariant
                    self.wf(),
                    self.mem().len() == m0.len(),
                    self.spec_tracer() == old(self).spec_tracer(),
                    self.spec_state()@ == s0,
                    s0 == old(self).spec_state()@,
                    get32(s0, RtReg::ECX) > 0,
                    m0 == old(self).mem(),
                    al == get8(s0, RtReg8::AL),
                    stos_bytes(m0, get32(s0, RtReg::EDI), get32(s0, RtReg::ECX), al)
                        == stos_bytes(self.mem(), edi, ecx, al),
                decreases ecx,
            {
                proof {
                    reveal(minor_step);
                }
                if let Err(e) = self.write_memory8(edi, al) {
                    return Err(e);
                }
                edi = edi.wrapping_add(1);
                ecx = ecx.wrapping_sub(1);
            }
            self.state.write32(RtReg::EDI, edi);
            self.state.write32(RtReg::ECX, ecx);
        }
        Ok(true)
    }

    /// Compares bytes from ESI and EDI on, up to ECX pairs, while they are equal.
    fn exec_repz_compare(&mut self) -> (r: Result<bool, Exception>)
        requires
            old(self).wf(),
        ensures
            final(self).wf(),
            final(self).mem().len() == old(self).mem().len(),
            final(self).spec_tracer() == old(self).spec_tracer(),
            Self::minor_done(old(self).spec_state()@, old(self).mem(), UopMinor::RepZCmpsb, final(self).spec_state()@, final(self).mem(), r),
    {
        proof {
            reveal(minor_step);
        }
        let mut ecx = self.state.read32(RtReg::ECX);
        if ecx > 0 {
            let mut esi = self.state.read32(RtReg::ESI);
            let mut edi = self.state.read32(RtReg::EDI);
            let mut value1 = match self.read_memory8(esi) {
                Ok(v) => v,
                Err(e) => return Err(e),
            };
            let mut value2 = match self.read_memory8(edi) {
                Ok(v) => v,
                Err(e) => return Err(e),
            };
            let ghost s0 = self.spec_state()@;
            let ghost m0 = self.mem();
            let ghost run = compare_bytes(m0, esi, edi, ecx, value1, value2);
            while ecx > 0
                invariant_except_break
                    run == compare_bytes(m0, esi, edi, ecx, value1, value2),
                invariant
                    self.wf(),
                    self.mem() == m0,
                    self.spec_tracer() == old(self).spec_tracer(),
                    self.spec_state()@ == s0,
                    s0 == old(self).spec_state()@,
                    get32(s0, RtReg::ESI) < m0.len(),
                    get32(s0, RtReg::EDI) < m0.len(),
                    get32(s0, RtReg::ECX) > 0,
                    m0 == old(self).mem(),
                    run == compare_bytes(m0, get32(s0, RtReg::ESI), get32(s0, RtReg::EDI), get32(s0, RtReg::ECX), m0[get32(s0, RtReg::ESI) as int], m0[get32(s0, RtReg::EDI) as int]),
                ensures
                    run == (esi, edi, ecx, value1, value2, None::<Exception>),
                decreases ecx,
            {
                proof {
                    reveal(minor_step);
                }
                value1 = match self.read_memory8(esi) {
                    Ok(v) => v,
                    Err(e) => {
                        self.state.write32(RtReg::ESI, esi);
                        self.state.write32(RtReg::EDI, edi);
                        self.state.write32(RtReg::ECX, ecx);
                        return Err(e);
                    },
                };
                value2 = match self.read_memory8(edi) {
                    Ok(v) => v,
                    Err(e) => {
                        self.state.write32(RtReg::ESI, esi);
                        self.state.write32(RtReg::EDI, edi);
                        self.state.write32(RtReg::ECX, ecx);
                        return Err(e);
                    },
                };
                esi = esi.wrapping_add(1);
                edi = edi.wrapping_add(1);
                ecx = ecx.wrapping_sub(1);
                if value1 != value2 {
                    break;
                }
            }
            self.alu().sub8(value1, value2);
            self.state.write32(RtReg::ESI, esi);
            self.state.write32(RtReg::EDI, edi);
            self.state.write32(RtReg::ECX, ecx);
        }
        Ok(true)
    }

    /// Scans bytes from EDI on, up to ECX of them, until one equals AL.
    fn exec_repnz_scasb(&mut self) -> (r: Result<bool, Exception>)
        requires
            old(self).wf(),
        ensures
            final(self).wf(),
            final(self).mem().len() == old(self).mem().len(),
            final(self).spec_tracer() == old(self).spec_tracer(),
            Self::minor_done(old(self).spec_state()@, old(self).mem(), UopMinor::RepNzScasb, final(self).spec_state()@, final(self).mem(), r),
    {
        proof {
            reveal(minor_step);
        }
        let mut ecx = self.state.read32(RtReg::ECX);
        if ecx > 0 {
            let mut edi = self.state.read32(RtReg::EDI);
            let al = self.state.read8(RtReg8::AL);
            let mut value = match self.read_memory8(edi) {
                Ok(v) => v,
                Err(e) => return Err(e),
            };
            let ghost s0 = self.spec_state()@;
            let ghost m0 = self.mem();
            let ghost run = scas_bytes(m0, edi, ecx, al, value);
            while ecx > 0
                invariant_except_break
                    run == scas_bytes(m0, edi, ecx, al, value),
                invariant
                    self.wf(),
                    self.mem() == m0,
                    self.spec_tracer() == old(self).spec_tracer(),
                    self.spec_state()@ == s0,
                    s0 == old(self).spec_state()@,
                    get32(s0, RtReg::EDI) < m0.len(),
                    get32(s0, RtReg::ECX) > 0,
                    m0 == old(self).mem(),
                    al == get8(s0, RtReg8::AL),
                    run == scas_bytes(m0, get32(s0, RtReg::EDI), get32(s0, RtReg::ECX), al, m0[get32(s0, RtReg::EDI) as int]),
                ensures
                    run == (edi, ecx, value, None::<Exception>),
                decreases ecx,
            {
                proof {
                    reveal(minor_step);
                }
                value = match self.read_memory8(edi) {
                    Ok(v) => v,
                    Err(e) => {
                        self.state.write32(RtReg::EDI, edi);
                        self.state.write32(RtReg::ECX, ecx);
                        return Err(e);
                    },
                };
                edi = edi.wrapping_add(1);
                ecx = ecx.wrapping_sub(1);
                if value == al {
                    break;
                }
            }
            self.alu().sub8(al, value);
            self.state.write32(RtReg::EDI, edi);
            self.state.write32(RtReg::ECX, ecx);
        }
        Ok(true)
    }

    /// Runs one minor micro operation.
    fn exec_minor(&mut self, mop: UopMinor) -> (r: Result<bool, Exception>)
        requires
            old(self).wf(),
        ensures
            final(self).wf(),
            final(self).mem().len() == old(self).mem().len(),
            final(self).spec_tracer() == old(self).spec_tracer(),
            Self::minor_done(old(self).spec_state()@, old(self).mem(), mop, final(self).spec_state()@, final(self).mem(), r),
    {
        match mop {
            UopMinor::Cdq => self.exec_cdq(),
            UopMinor::Cld => self.exec_cld(),
            UopMinor::Cpuid => self.exec_cpuid(),
            UopMinor::MulR(rd) => self.exec_mul(rd),
            UopMinor::RdTsc => {
                proof {
                    reveal(minor_step);
                }
                Err(Exception::RdTsc)
            },
            UopMinor::RepMovsb => self.exec_rep_movsb(),
            UopMinor::RepMovsd => self.exec_rep_movsd(),
            UopMinor::RepStosd => self.exec_rep_stosd(),
            UopMinor::RepStosb => self.exec_rep_stosb(),
            UopMinor::RepZCmpsb => self.exec_repz_compare(),
            UopMinor::RepNzScasb => self.exec_repnz_scasb(),
        }
    }
}


/// The absolute value of `x`.
pub open spec fn abs(x: int) -> int {
    if x < 0 { -x } else { x }
}

/// The quotient and remainder of `n` divided by `d`, truncated toward zero as
/// IDIV does: the remainder takes the sign of `n`.
pub open spec fn idiv(n: int, d: int) -> (int, int) {
    let q = abs(n) / abs(d);
    let m = abs(n) % abs(d);
    (if (n < 0) != (d < 0) { -q } else { q }, if n < 0 { -m } else { m })
}

/// The signed 64-bit value of `edx:eax`.
pub open spec fn edx_eax(edx: u32, eax: u32) -> int {
    let u = edx * 0x1_0000_0000 + eax;
    if u >= 0x8000_0000_0000_0000 { u - 0x1_0000_0000_0000_0000 } else { u }
}

/// The quotient and remainder of the signed 64-bit value `edx:eax` divided by
/// `divisor`, as IDIV computes them; `None` where the quotient does not fit
/// in 32 bits.
pub fn signed_div64(edx: u32, eax: u32, divisor: i32) -> (r: Option<(i32, i32)>)
    requires
        divisor != 0,
    ensures
        ({
            let (q, m) = idiv(edx_eax(edx, eax), divisor as int);
            &&& (i32::MIN <= q <= i32::MAX) ==> r == Some((q as i32, m as i32))
            &&& !(i32::MIN <= q <= i32::MAX) ==> r is None
        }),
{
    let u: u64 = (edx as u64) * 0x1_0000_0000 + (eax as u64);
    let negative_n = u >= 0x8000_0000_0000_0000;
    let n_abs: u64 = if negative_n { (0xffff_ffff_ffff_ffffu64 - u) + 1 } else { u };
    let negative_d = divisor < 0;
    let d_abs: u64 = if negative_d { (0 - (divisor as i64)) as u64 } else { divisor as u64 };
    let q_abs = n_abs / d_abs;
    let m_abs = n_abs % d_abs;
    proof {
        assert(m_abs < d_abs);
        assert(d_abs <= 0x8000_0000);
    }
    let negative_q = negative_n != negative_d;
    if negative_q {
        if q_abs > 0x8000_0000 {
            return None;
        }
    } else if q_abs > 0x7fff_ffff {
        return None;
    }
    let q: i32 = if negative_q { (0 - (q_abs as i64)) as i32 } else { q_abs as i32 };
    let m: i32 = if negative_n { (0 - (m_abs as i64)) as i32 } else { m_abs as i32 };
    Some((q, m))
}

/// Whether the instruction at `k` starts the micro-op at `upc`.
pub open spec fn hits(m: Map<u32, u32>, upc: u32, k: u32) -> bool {
    m.contains_key(k) && m[k] == upc
}

/// Whether the instruction at `k` starts a micro-op past the first and before
/// the one at `upc`.
pub open spec fn below(m: Map<u32, u32>, upc: u32, k: u32) -> bool {
    m.contains_key(k) && 0 < m[k] < upc
}

/// Whether `eip` is the address that the micro-op at `upc` maps back to: the
/// lowest address whose translation starts there; else the lowest of those
/// whose translation starts nearest before it; else 0.
pub open spec fn reflects(m: Map<u32, u32>, upc: u32, eip: u32) -> bool {
    if exists|k: u32| hits(m, upc, k) {
        hits(m, upc, eip) && forall|k: u32| k < eip ==> !hits(m, upc, k)
    } else if exists|k: u32| below(m, upc, k) {
        &&& below(m, upc, eip)
        &&& forall|k: u32| below(m, upc, k) ==> m[k] <= m[eip]
        &&& forall|k: u32| k < eip && below(m, upc, k) ==> m[k] < m[eip]
    } else {
        eip == 0
    }
}

} // verus!
