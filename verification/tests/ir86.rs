use rust_task::ir86::decoder::Decoder;
use rust_task::ir86::encoding::{GprIndex16, GprIndex32, GprIndex8, Scale, SrIndex, CC};
use rust_task::ir86::fetch::SimpleFetcher;
use rust_task::ir86::ir::IrOp;
use rust_task::ir86::sib::SibIndex;
use rust_task::ir86::types::Offset32;

#[test]
fn test_sib_index() {
    for base in [
        Some(GprIndex32::EAX),
        Some(GprIndex32::ECX),
        Some(GprIndex32::EDX),
        Some(GprIndex32::EBX),
        Some(GprIndex32::ESP),
        Some(GprIndex32::EBP),
        Some(GprIndex32::ESI),
        Some(GprIndex32::EDI),
        None,
    ] {
        for index in [
            GprIndex32::EAX,
            GprIndex32::ECX,
            GprIndex32::EDX,
            GprIndex32::EBX,
            GprIndex32::EBP,
            GprIndex32::ESI,
            GprIndex32::EDI,
        ] {
            for scale in [Scale::Byte, Scale::Word, Scale::DWord, Scale::QWord] {
                let sib_index = SibIndex::from_sib(base, index, scale);
                let (base2, index2, scale2) = sib_index.to_sib();
                assert_eq!(base, base2);
                assert_eq!(index, index2);
                assert_eq!(scale, scale2);
            }
        }
    }
}

fn decode32(bytes: &[u8]) -> Result<IrOp, ()> {
    let mut decoder = Decoder::with_use32();
    let mut fetcher = SimpleFetcher::new(bytes, Offset32(0));
    decoder.decode(&mut fetcher)
}

#[test]
fn decode_nop() {
    assert_eq!(decode32(&[0x90]), Ok(IrOp::NOP));
}

#[test]
fn decode_add_register_to_register() {
    // ADD EAX, ECX
    assert_eq!(decode32(&[0x01, 0xc8]), Ok(IrOp::ADD_Rd_Rd(GprIndex32::EAX, GprIndex32::ECX)));
}

#[test]
fn decode_software_interrupt() {
    assert_eq!(decode32(&[0xcd, 0x40]), Ok(IrOp::INT_Ib(0x40)));
}

#[test]
fn decode_consumes_the_instruction() {
    let bytes = [0xcd, 0x40, 0x90];
    let mut decoder = Decoder::with_use32();
    let mut fetcher = SimpleFetcher::new(&bytes, Offset32(0));
    assert_eq!(decoder.decode(&mut fetcher), Ok(IrOp::INT_Ib(0x40)));
    assert_eq!(fetcher.pos(), 2);
    assert_eq!(decoder.decode(&mut fetcher), Ok(IrOp::NOP));
    assert_eq!(fetcher.pos(), 3);
}

#[test]
fn decode_past_the_end_fails() {
    assert_eq!(decode32(&[]), Err(()));
    // an immediate cut short
    assert_eq!(decode32(&[0xcd]), Err(()));
}

#[test]
fn decode_prefixes_then_an_operandless_opcode() {
    // operand-size override: INC AX in 32-bit mode
    assert_eq!(decode32(&[0x66, 0x40]), Ok(IrOp::INC_Rw(GprIndex16::AX)));
    // REP MOVSD with a segment override, 32-bit addressing
    assert_eq!(decode32(&[0xf3, 0x2e, 0xa5]), Ok(IrOp::REP_MOVSD(SrIndex::CS, true)));
    // two-byte opcodes
    assert_eq!(decode32(&[0x0f, 0xa2]), Ok(IrOp::CPUID));
    assert_eq!(decode32(&[0x0f, 0xc9]), Ok(IrOp::BSWAP_Rd(GprIndex32::ECX)));
    // near conditional jump, 32-bit displacement from the next instruction
    assert!(matches!(decode32(&[0x0f, 0x84, 0x10, 0x00, 0x00, 0x00]), Ok(IrOp::JCC_Jv(_, Offset32(0x16)))));
}

fn decode16(bytes: &[u8]) -> (Result<IrOp, ()>, usize) {
    let mut decoder = Decoder::with_use16();
    let mut fetcher = SimpleFetcher::new(bytes, Offset32(0));
    let r = decoder.decode(&mut fetcher);
    (r, fetcher.pos())
}

fn decode32_pos(bytes: &[u8]) -> (Result<IrOp, ()>, usize) {
    let mut decoder = Decoder::with_use32();
    let mut fetcher = SimpleFetcher::new(bytes, Offset32(0));
    let r = decoder.decode(&mut fetcher);
    (r, fetcher.pos())
}

#[test]
fn decode_short_conditional_jump_wraps_in_16_bits() {
    // JZ rel8 = -128 from the next instruction at 2, truncated to 16 bits
    assert_eq!(decode16(&[0x74, 0x80]), (Ok(IrOp::JCC_Jv(CC::Z, Offset32(0xFF82))), 2));
    // the same in 32-bit mode keeps all 32 bits
    assert_eq!(decode32_pos(&[0x74, 0x80]), (Ok(IrOp::JCC_Jv(CC::Z, Offset32(0xFFFF_FF82))), 2));
}

#[test]
fn decode_operand_size_prefix_shortens_the_immediate() {
    assert_eq!(decode32_pos(&[0x66, 0x05, 0x34, 0x12]), (Ok(IrOp::ADD_Rw_Iw(GprIndex16::AX, 0x1234)), 4));
    assert_eq!(decode32_pos(&[0x05, 0x34, 0x12, 0x00, 0x00]), (Ok(IrOp::ADD_Rd_Id(GprIndex32::EAX, 0x1234)), 5));
}

#[test]
fn decode_byte_arithmetic_direction() {
    // 0x02: reg field is the destination
    assert_eq!(decode16(&[0x02, 0xc8]), (Ok(IrOp::ADD_Rb_Rb(GprIndex8::CL, GprIndex8::AL)), 2));
    // 0x00: r/m field is the destination
    assert_eq!(decode16(&[0x00, 0xc8]), (Ok(IrOp::ADD_Rb_Rb(GprIndex8::AL, GprIndex8::CL)), 2));
}

#[test]
fn decode_sign_extended_immediate_byte() {
    assert_eq!(decode32_pos(&[0x83, 0xc0, 0xff]), (Ok(IrOp::ADD_Rd_Id(GprIndex32::EAX, 0xFFFF_FFFF)), 3));
    assert_eq!(decode16(&[0x83, 0xe9, 0x80]), (Ok(IrOp::SUB_Rw_Iw(GprIndex16::CX, 0xFF80)), 3));
    // the immediate byte is missing
    assert_eq!(decode32_pos(&[0x83, 0xc0]).0, Err(()));
}

#[test]
fn decode_immediate_cut_short_fails() {
    assert_eq!(decode32_pos(&[0xb8, 0x01, 0x02]), (Err(()), 3));
}

#[test]
fn decode_word_and_dword_arithmetic_direction() {
    // 0x01: r/m destination; 0x03: reg destination
    assert_eq!(decode32_pos(&[0x01, 0xc8]), (Ok(IrOp::ADD_Rd_Rd(GprIndex32::EAX, GprIndex32::ECX)), 2));
    assert_eq!(decode32_pos(&[0x03, 0xc8]), (Ok(IrOp::ADD_Rd_Rd(GprIndex32::ECX, GprIndex32::EAX)), 2));
    assert_eq!(decode16(&[0x2b, 0xd3]), (Ok(IrOp::SUB_Rw_Rw(GprIndex16::DX, GprIndex16::BX)), 2));
}

#[test]
fn decode_register_moves() {
    assert_eq!(decode32_pos(&[0x89, 0xc8]), (Ok(IrOp::MOV_Rd_Rd(GprIndex32::EAX, GprIndex32::ECX)), 2));
    assert_eq!(decode32_pos(&[0x8b, 0xc8]), (Ok(IrOp::MOV_Rd_Rd(GprIndex32::ECX, GprIndex32::EAX)), 2));
    assert_eq!(decode16(&[0x85, 0xc0]), (Ok(IrOp::TEST_Rw_Rw(GprIndex16::AX, GprIndex16::AX)), 2));
}

#[test]
fn decode_group1_immediates() {
    // ADD CL, 0x7f
    assert_eq!(decode32_pos(&[0x80, 0xc1, 0x7f]), (Ok(IrOp::ADD_Rb_Ib(GprIndex8::CL, 0x7f)), 3));
    // CMP EDX, 0x12345678
    assert_eq!(
        decode32_pos(&[0x81, 0xfa, 0x78, 0x56, 0x34, 0x12]),
        (Ok(IrOp::CMP_Rd_Id(GprIndex32::EDX, 0x1234_5678)), 6)
    );
    // the 16-bit form reads two bytes only
    assert_eq!(decode16(&[0x81, 0xfa, 0x78, 0x56, 0x34, 0x12]), (Ok(IrOp::CMP_Rw_Iw(GprIndex16::DX, 0x5678)), 4));
    // a 32-bit immediate cut short
    assert_eq!(decode32_pos(&[0x81, 0xfa, 0x78, 0x56]).0, Err(()));
}

#[test]
fn decode_moves_of_an_immediate() {
    // MOV ECX, 0x11223344
    assert_eq!(
        decode32_pos(&[0xc7, 0xc1, 0x44, 0x33, 0x22, 0x11]),
        (Ok(IrOp::MOV_Rd_Id(GprIndex32::ECX, 0x1122_3344)), 6)
    );
    // MOV BL, 7
    assert_eq!(decode16(&[0xc6, 0xc3, 0x07]), (Ok(IrOp::MOV_Rb_Ib(GprIndex8::BL, 7)), 3));
    // a reg field other than 0 is undefined, and no immediate is read
    assert_eq!(decode16(&[0xc6, 0xcb, 0x07]), (Ok(IrOp::UD), 2));
}

#[test]
fn decode_group3_operations() {
    // F6 /2 is NOT, F6 /3 is NEG
    assert_eq!(decode16(&[0xf6, 0xd0]), (Ok(IrOp::NOT_Rb(GprIndex8::AL)), 2));
    assert_eq!(decode16(&[0xf6, 0xd8]), (Ok(IrOp::NEG_Rb(GprIndex8::AL)), 2));
    // TEST BL, 5 reads its immediate
    assert_eq!(decode16(&[0xf6, 0xc3, 0x05]), (Ok(IrOp::TEST_Rb_Ib(GprIndex8::BL, 5)), 3));
}

#[test]
fn decode_shifts_and_rotations() {
    assert_eq!(decode32_pos(&[0xc1, 0xe0, 0x04]), (Ok(IrOp::SHL_Rd_Ib(GprIndex32::EAX, 4)), 3));
    assert_eq!(decode32_pos(&[0xd2, 0xf8]), (Ok(IrOp::SAR_Rb_Cl(GprIndex8::AL)), 2));
    assert_eq!(decode16(&[0xd1, 0xc1]), (Ok(IrOp::ROL_Rw_Ib(GprIndex16::CX, 1)), 2));
}

#[test]
fn decode_groups_4_and_5() {
    assert_eq!(decode32_pos(&[0xff, 0xd0]), (Ok(IrOp::CALL_Rd(GprIndex32::EAX)), 2));
    assert_eq!(decode32_pos(&[0xff, 0xf1]), (Ok(IrOp::PUSH_Rd(GprIndex32::ECX)), 2));
    assert_eq!(decode32_pos(&[0xfe, 0xc8]), (Ok(IrOp::DEC_Rb(GprIndex8::AL)), 2));
    // a far call has no register form
    assert_eq!(decode32_pos(&[0xff, 0xd8]), (Ok(IrOp::UD), 2));
}

#[test]
fn decode_two_byte_extensions() {
    assert_eq!(decode32_pos(&[0x0f, 0xb6, 0xc1]), (Ok(IrOp::MOVZX_Rd_Rb(GprIndex32::EAX, GprIndex8::CL)), 3));
    assert_eq!(decode32_pos(&[0x0f, 0xaf, 0xc1]), (Ok(IrOp::IMUL_Rd_Rd(GprIndex32::EAX, GprIndex32::ECX)), 3));
    // from 16 bits to 16 bits the extension is a move
    assert_eq!(decode16(&[0x0f, 0xbf, 0xc1]), (Ok(IrOp::MOV_Rw_Rw(GprIndex16::AX, GprIndex16::CX)), 3));
}

#[test]
fn decode_pop_lea_and_imul_immediate() {
    assert_eq!(decode32_pos(&[0x8f, 0xc0]), (Ok(IrOp::POP_Rd(GprIndex32::EAX)), 2));
    assert_eq!(
        decode32_pos(&[0x69, 0xc1, 0x10, 0x00, 0x00, 0x00]),
        (Ok(IrOp::IMUL_Rd_Rd_Id(GprIndex32::EAX, GprIndex32::ECX, 16)), 6)
    );
    // LEA of a register operand is undefined
    assert_eq!(decode32_pos(&[0x8d, 0xc0]), (Ok(IrOp::UD), 2));
    assert!(matches!(decode16(&[0x8d, 0x46, 0x02]), (Ok(IrOp::LEA_Rw_MwA16(GprIndex16::AX, _)), 3)));
}

#[test]
fn decode_loops_enter_far_return_and_ports() {
    // LOOP to itself: rel8 = -2 from the next instruction at 2
    assert_eq!(decode32_pos(&[0xe2, 0xfe]), (Ok(IrOp::LOOP_Jv(Offset32(0))), 2));
    assert_eq!(decode32_pos(&[0xc8, 0x10, 0x00, 0x01]), (Ok(IrOp::ENTER_Iw_Ib(0x10, 1)), 4));
    assert_eq!(decode32_pos(&[0xca, 0x08, 0x00]), (Ok(IrOp::RETF_D32(8)), 3));
    assert_eq!(decode16(&[0xe4, 0x60]), (Ok(IrOp::IN_Al_Ib(0x60)), 2));
    // ENTER cut short
    assert_eq!(decode32_pos(&[0xc8, 0x10, 0x00]), (Err(()), 3));
}
