use rust_task::ir86::types::Offset32;
use rust_task::ume86::gpr::{GeneralPurposeRegister, PartialRegister};
use rust_task::ir86::encoding::CC;
use rust_task::ume86::cpu::Generation;
use rust_task::ume86::state::{ProcessorState, RtReg};
use rust_task::ume86::ume::tracer::TraceDecoder;
use rust_task::ume86::ume::uop::{AddrIndex, Uop};
use rust_task::ume86::ume::{cpuid, signed_div64, Exception, UME};

#[test]
fn gpr() {
    let mut ax = GeneralPurposeRegister::new(0x12345678);

    assert_eq!(ax.e().read(), 0x12345678);
    assert_eq!(ax.x().read(), 0x5678);
    assert_eq!(ax.l().read(), 0x78);
    assert_eq!(ax.h().read(), 0x56);
    assert_eq!(ax.clone().e().read(), 0x12345678);

    ax.x().write(0x9abc);
    assert_eq!(ax.e().read(), 0x12349abc);
    assert_eq!(ax.x().read(), 0x9abc);
    assert_eq!(ax.l().read(), 0xbc);
    assert_eq!(ax.h().read(), 0x9a);
    assert_eq!(ax.clone().e().read(), 0x12349abc);

    ax.l().write(0xef);
    assert_eq!(ax.e().read(), 0x12349aef);
    assert_eq!(ax.x().read(), 0x9aef);
    assert_eq!(ax.l().read(), 0xef);
    assert_eq!(ax.h().read(), 0x9a);
    assert_eq!(ax.clone().e().read(), 0x12349aef);

    ax.h().write(0xcd);
    assert_eq!(ax.e().read(), 0x1234cdef);
    assert_eq!(ax.x().read(), 0xcdef);
    assert_eq!(ax.l().read(), 0xef);
    assert_eq!(ax.h().read(), 0xcd);
    assert_eq!(ax.clone().e().read(), 0x1234cdef);
}

fn emulator(code: Vec<u8>, stack: u32) -> UME {
    UME::new(code, vec![0u8; 64], Offset32(0), Offset32(0), Offset32(stack))
}

#[test]
fn pop_gives_back_what_push_pushed() {
    let mut ume = emulator(vec![0x90], 64);
    assert_eq!(ume.push(0xdeadbeef), Some(()));
    assert_eq!(ume.state().read32(RtReg::ESP), 60);
    assert_eq!(&ume.data()[60..64], &[0xef, 0xbe, 0xad, 0xde]);
    assert_eq!(ume.pop(), Some(0xdeadbeef));
    assert_eq!(ume.state().read32(RtReg::ESP), 64);
}

#[test]
fn push_outside_the_stack_fails() {
    let mut ume = emulator(vec![0x90], 2);
    assert_eq!(ume.push(1), None);
    assert_eq!(ume.state().read32(RtReg::ESP), 2);
}

#[test]
fn memory_reads_back_what_was_written() {
    let mut ume = emulator(vec![0x90], 64);
    assert_eq!(ume.write_memory32(8, 0x01020304), Ok(()));
    assert_eq!(ume.read_memory32(8), Ok(0x01020304));
    assert_eq!(ume.read_memory16(8), Ok(0x0304));
    assert_eq!(ume.read_memory8(11), Ok(0x01));
    assert_eq!(ume.write_memory16(62, 0xabcd), Ok(()));
    assert_eq!(ume.read_memory16(62), Ok(0xabcd));
    assert_eq!(ume.read_memory32(62), Err(Exception::SegmentationViolation(Offset32(62))));
}

#[test]
fn cpuid_identifies_the_processor() {
    let id = cpuid(0, 0);
    assert_eq!(id.eax, 1);
    let mut vendor = Vec::new();
    vendor.extend_from_slice(&id.ebx.to_le_bytes());
    vendor.extend_from_slice(&id.edx.to_le_bytes());
    vendor.extend_from_slice(&id.ecx.to_le_bytes());
    assert_eq!(&vendor, b"GenuineNerry");
    assert_eq!(cpuid(1, 0).eax, 0x400);
    assert_eq!(cpuid(0x8000_0000, 0).eax, 0x8000_0004);
    assert_eq!(cpuid(5, 0).eax, 0);
}

#[test]
fn signed_division_truncates_toward_zero() {
    // -7 / 2
    assert_eq!(signed_div64(0xffff_ffff, 0xffff_fff9, 2), Some((-3, -1)));
    // 7 / -2
    assert_eq!(signed_div64(0, 7, -2), Some((-3, 1)));
    // 2^32 / 1 does not fit in 32 bits
    assert_eq!(signed_div64(1, 0, 1), None);
}

#[test]
fn execute_stops_at_a_software_interrupt() {
    // MOV EAX, 5; INT 0x40
    let mut ume = emulator(vec![0xb8, 0x05, 0x00, 0x00, 0x00, 0xcd, 0x40], 64);
    assert_eq!(ume.execute(), Err(Exception::Swi(0x40)));
    assert_eq!(ume.state().read32(RtReg::EAX), 5);
}

#[test]
fn execute_reports_the_interrupt_at_its_instruction() {
    let mut ume = emulator(vec![0xcd, 0x40], 64);
    assert_eq!(ume.execute(), Err(Exception::Swi(0x40)));
    assert_eq!(ume.state().read32(RtReg::EIP), 0);
    assert_eq!(ume.state().read32(RtReg::ESP), 64);
    assert!(ume.data().iter().all(|&b| b == 0));
}

#[test]
fn tracer_translates_the_entry_instruction() {
    let t = TraceDecoder::new(vec![0xcd, 0x40], Offset32(0), Offset32(0));
    assert_eq!(t.uop_cache(), &[Uop::Swi(0x40)][..]);
    assert_eq!(t.address_map().len(), 1);
    assert_eq!(t.address_map().get(&0), Some(&0));
    assert_eq!(t.current_upc(), AddrIndex(0));
    assert!(t.functions().is_empty());
    assert_eq!(t.code(), &[0xcd, 0x40][..]);
}

#[test]
fn tracer_translates_an_arithmetic_entry_instruction() {
    // ADD EAX, 5: one micro operation, and the trace goes on after it
    let t = TraceDecoder::new(vec![0x05, 0x05, 0x00, 0x00, 0x00], Offset32(0x100), Offset32(0x100));
    assert_eq!(t.uop_cache(), &[Uop::AddI(RtReg::EAX, 5)][..]);
    assert_eq!(t.address_map().get(&0x100), Some(&0));
}

#[test]
fn tracer_translates_a_read_modify_write() {
    // ADD [EAX], ECX
    let t = TraceDecoder::new(vec![0x01, 0x08], Offset32(0), Offset32(0));
    assert_eq!(
        t.uop_cache(),
        &[
            Uop::Move(RtReg::MemAddr, RtReg::EAX),
            Uop::LoadR32(RtReg::MemData, RtReg::MemAddr),
            Uop::AddR(RtReg::MemData, RtReg::ECX),
            Uop::StoreR32(RtReg::MemData, RtReg::MemAddr),
        ][..]
    );
}

#[test]
fn odd_condition_codes_negate_even_ones() {
    let pairs = [
        (CC::O, CC::NO),
        (CC::C, CC::NC),
        (CC::Z, CC::NZ),
        (CC::BE, CC::NBE),
        (CC::S, CC::NS),
        (CC::P, CC::NP),
        (CC::L, CC::NL),
        (CC::LE, CC::NLE),
    ];
    for (even, odd) in pairs {
        let mut s = ProcessorState::new(Generation::P7);
        let a = s.eval_cc(even);
        let b = s.eval_cc(odd);
        assert_eq!(b, !a);
        let mut s = ProcessorState::new(Generation::P7);
        let b = s.eval_cc(odd);
        let a = s.eval_cc(even);
        assert_eq!(b, !a);
    }
}
