//! Encoding rules for x86 instructions: register numbers, opcode extensions,
//! the ModR/M and SIB bytes and the memory operands they describe.

use vstd::prelude::*;
use crate::ir86::fetch::{read_on, Fetch};
use crate::ir86::sib::SibIndex;
use crate::ir86::types::{Offset16, Offset32};

verus! {

/// 3-bit index used in ModR/M and SIB bytes
#[derive(Debug, Clone, Copy, PartialEq, Eq, Structural)]
pub enum Index3 {
    I000,
    I001,
    I010,
    I011,
    I100,
    I101,
    I110,
    I111,
}

impl Index3 {
    /// The number (0 to 7) that the index encodes.
    pub open spec fn value(self) -> u8 {
        match self {
            Index3::I000 => 0,
            Index3::I001 => 1,
            Index3::I010 => 2,
            Index3::I011 => 3,
            Index3::I100 => 4,
            Index3::I101 => 5,
            Index3::I110 => 6,
            Index3::I111 => 7,
        }
    }

    /// Builds the index whose number is `v` (taken modulo 8).
    pub open spec fn spec_from(v: u8) -> Index3 {
        let v = v % 8;
        if v == 0 {
            Index3::I000
        } else if v == 1 {
            Index3::I001
        } else if v == 2 {
            Index3::I010
        } else if v == 3 {
            Index3::I011
        } else if v == 4 {
            Index3::I100
        } else if v == 5 {
            Index3::I101
        } else if v == 6 {
            Index3::I110
        } else {
            Index3::I111
        }
    }

    /// The number (0 to 7) that the index encodes.
    pub fn to_u8(&self) -> (r: u8)
        ensures
            r == self.value(),
    {
        match self {
            Index3::I000 => 0,
            Index3::I001 => 1,
            Index3::I010 => 2,
            Index3::I011 => 3,
            Index3::I100 => 4,
            Index3::I101 => 5,
            Index3::I110 => 6,
            Index3::I111 => 7,
        }
    }

    /// Decodes the low three bits of `value`.
    pub fn from_u8(value: u8) -> (r: Self)
        ensures
            r.value() == value % 8,
            r == Index3::spec_from(value),
    {
        let v = value & 0b111;
        proof { crate::bits::lemma_u8_fields(value); }
        if v == 0 {
            Index3::I000
        } else if v == 1 {
            Index3::I001
        } else if v == 2 {
            Index3::I010
        } else if v == 3 {
            Index3::I011
        } else if v == 4 {
            Index3::I100
        } else if v == 5 {
            Index3::I101
        } else if v == 6 {
            Index3::I110
        } else {
            Index3::I111
        }
    }
}

/// General Purpose Register index for 32bit registers (EAX, ECX, EDX, EBX, ESP, EBP, ESI, EDI)
#[derive(Debug, Clone, Copy, PartialEq, Eq, Structural)]
pub enum GprIndex32 {
    EAX,
    ECX,
    EDX,
    EBX,
    ESP,
    EBP,
    ESI,
    EDI,
}

impl GprIndex32 {
    /// The register number used in the instruction encoding.
    pub open spec fn index(self) -> u8 {
        match self {
            GprIndex32::EAX => 0,
            GprIndex32::ECX => 1,
            GprIndex32::EDX => 2,
            GprIndex32::EBX => 3,
            GprIndex32::ESP => 4,
            GprIndex32::EBP => 5,
            GprIndex32::ESI => 6,
            GprIndex32::EDI => 7,
        }
    }

    /// The register whose number is `v`.
    pub open spec fn spec_from(v: u8) -> GprIndex32 {
        let v = v % 8;
        if v == 0 {
            GprIndex32::EAX
        } else if v == 1 {
            GprIndex32::ECX
        } else if v == 2 {
            GprIndex32::EDX
        } else if v == 3 {
            GprIndex32::EBX
        } else if v == 4 {
            GprIndex32::ESP
        } else if v == 5 {
            GprIndex32::EBP
        } else if v == 6 {
            GprIndex32::ESI
        } else {
            GprIndex32::EDI
        }
    }

    /// The register number as an executable value.
    pub fn to_u8(&self) -> (r: u8)
        ensures
            r == self.index(),
    {
        match self {
            GprIndex32::EAX => 0,
            GprIndex32::ECX => 1,
            GprIndex32::EDX => 2,
            GprIndex32::EBX => 3,
            GprIndex32::ESP => 4,
            GprIndex32::EBP => 5,
            GprIndex32::ESI => 6,
            GprIndex32::EDI => 7,
        }
    }

    pub fn from_u8(value: u8) -> (r: Self)
        ensures
            r.index() == value % 8,
            r == GprIndex32::spec_from(value),
    {
        Self::from_idx3(Index3::from_u8(value))
    }

    pub fn from_idx3(index: Index3) -> (r: Self)
        ensures
            r.index() == index.value(),
            r == GprIndex32::spec_from(index.value()),
    {
        match index {
            Index3::I000 => GprIndex32::EAX,
            Index3::I001 => GprIndex32::ECX,
            Index3::I010 => GprIndex32::EDX,
            Index3::I011 => GprIndex32::EBX,
            Index3::I100 => GprIndex32::ESP,
            Index3::I101 => GprIndex32::EBP,
            Index3::I110 => GprIndex32::ESI,
            Index3::I111 => GprIndex32::EDI,
        }
    }

    /// Downgrades a 32-bit GPR index to its corresponding 16-bit GPR index.
    pub fn downgrade(&self) -> (r: GprIndex16)
        ensures
            r.index() == self.index(),
    {
        match self {
            GprIndex32::EAX => GprIndex16::AX,
            GprIndex32::ECX => GprIndex16::CX,
            GprIndex32::EDX => GprIndex16::DX,
            GprIndex32::EBX => GprIndex16::BX,
            GprIndex32::ESP => GprIndex16::SP,
            GprIndex32::EBP => GprIndex16::BP,
            GprIndex32::ESI => GprIndex16::SI,
            GprIndex32::EDI => GprIndex16::DI,
        }
    }
}

/// General Purpose Register index for 16bit registers (AX, CX, DX, BX, SP, BP, SI, DI)
#[derive(Debug, Clone, Copy, PartialEq, Eq, Structural)]
pub enum GprIndex16 {
    AX,
    CX,
    DX,
    BX,
    SP,
    BP,
    SI,
    DI,
}

impl GprIndex16 {
    /// The register number used in the instruction encoding.
    pub fn to_u8(&self) -> (r: u8)
        ensures
            r == self.index(),
    {
        match self {
            GprIndex16::AX => 0,
            GprIndex16::CX => 1,
            GprIndex16::DX => 2,
            GprIndex16::BX => 3,
            GprIndex16::SP => 4,
            GprIndex16::BP => 5,
            GprIndex16::SI => 6,
            GprIndex16::DI => 7,
        }
    }

    /// The register number used in the instruction encoding.
    pub open spec fn index(self) -> u8 {
        match self {
            GprIndex16::AX => 0,
            GprIndex16::CX => 1,
            GprIndex16::DX => 2,
            GprIndex16::BX => 3,
            GprIndex16::SP => 4,
            GprIndex16::BP => 5,
            GprIndex16::SI => 6,
            GprIndex16::DI => 7,
        }
    }

    pub fn from_u8(value: u8) -> (r: Self)
        ensures
            r.index() == value % 8,
    {
        Self::from_idx3(Index3::from_u8(value))
    }

    pub fn from_idx3(index: Index3) -> (r: Self)
        ensures
            r.index() == index.value(),
    {
        match index {
            Index3::I000 => GprIndex16::AX,
            Index3::I001 => GprIndex16::CX,
            Index3::I010 => GprIndex16::DX,
            Index3::I011 => GprIndex16::BX,
            Index3::I100 => GprIndex16::SP,
            Index3::I101 => GprIndex16::BP,
            Index3::I110 => GprIndex16::SI,
            Index3::I111 => GprIndex16::DI,
        }
    }

    /// Upgrades a 16-bit GPR index to its corresponding 32-bit GPR index.
    pub fn upgrade(&self) -> (r: GprIndex32)
        ensures
            r.index() == self.index(),
            r == GprIndex32::spec_from(self.index()),
    {
        match self {
            GprIndex16::AX => GprIndex32::EAX,
            GprIndex16::CX => GprIndex32::ECX,
            GprIndex16::DX => GprIndex32::EDX,
            GprIndex16::BX => GprIndex32::EBX,
            GprIndex16::SP => GprIndex32::ESP,
            GprIndex16::BP => GprIndex32::EBP,
            GprIndex16::SI => GprIndex32::ESI,
            GprIndex16::DI => GprIndex32::EDI,
        }
    }
}

/// General Purpose Register index for 8-bit partial registers (AL, CL, DL, BL, AH, CH, DH, BH)
#[derive(Debug, Clone, Copy, PartialEq, Eq, Structural)]
pub enum GprIndex8 {
    AL,
    CL,
    DL,
    BL,
    AH,
    CH,
    DH,
    BH,
}

impl GprIndex8 {
    /// The register number used in the instruction encoding.
    pub fn to_u8(&self) -> (r: u8)
        ensures
            r == self.index(),
    {
        match self {
            GprIndex8::AL => 0,
            GprIndex8::CL => 1,
            GprIndex8::DL => 2,
            GprIndex8::BL => 3,
            GprIndex8::AH => 4,
            GprIndex8::CH => 5,
            GprIndex8::DH => 6,
            GprIndex8::BH => 7,
        }
    }

    /// The register number used in the instruction encoding.
    pub open spec fn index(self) -> u8 {
        match self {
            GprIndex8::AL => 0,
            GprIndex8::CL => 1,
            GprIndex8::DL => 2,
            GprIndex8::BL => 3,
            GprIndex8::AH => 4,
            GprIndex8::CH => 5,
            GprIndex8::DH => 6,
            GprIndex8::BH => 7,
        }
    }

    pub fn from_u8(value: u8) -> (r: Self)
        ensures
            r.index() == value % 8,
    {
        Self::from_idx3(Index3::from_u8(value))
    }

    pub fn from_idx3(index: Index3) -> (r: Self)
        ensures
            r.index() == index.value(),
    {
        match index {
            Index3::I000 => GprIndex8::AL,
            Index3::I001 => GprIndex8::CL,
            Index3::I010 => GprIndex8::DL,
            Index3::I011 => GprIndex8::BL,
            Index3::I100 => GprIndex8::AH,
            Index3::I101 => GprIndex8::CH,
            Index3::I110 => GprIndex8::DH,
            Index3::I111 => GprIndex8::BH,
        }
    }
}

/// Segment Register index (ES, CS, SS, DS, FS, GS)
#[derive(Debug, Clone, Copy, PartialEq, Eq, Structural)]
pub enum SrIndex {
    ES,
    CS,
    SS,
    DS,
    FS,
    GS,
}

impl SrIndex {
    /// The register number used in the instruction encoding.
    pub open spec fn index(self) -> u8 {
        match self {
            SrIndex::ES => 0,
            SrIndex::CS => 1,
            SrIndex::SS => 2,
            SrIndex::DS => 3,
            SrIndex::FS => 4,
            SrIndex::GS => 5,
        }
    }

    /// The register number as an executable value.
    pub fn to_usize(&self) -> (r: usize)
        ensures
            r == self.index(),
    {
        match self {
            SrIndex::ES => 0,
            SrIndex::CS => 1,
            SrIndex::SS => 2,
            SrIndex::DS => 3,
            SrIndex::FS => 4,
            SrIndex::GS => 5,
        }
    }

    pub fn from_u8(value: u8) -> (r: Option<Self>)
        ensures
            r is Some <==> value % 8 < 6,
            r matches Some(s) ==> s.index() == value % 8,
    {
        Self::from_idx3(Index3::from_u8(value))
    }

    pub fn from_idx3(index: Index3) -> (r: Option<Self>)
        ensures
            r is Some <==> index.value() < 6,
            r matches Some(s) ==> s.index() == index.value(),
    {
        match index {
            Index3::I000 => Some(SrIndex::ES),
            Index3::I001 => Some(SrIndex::CS),
            Index3::I010 => Some(SrIndex::SS),
            Index3::I011 => Some(SrIndex::DS),
            Index3::I100 => Some(SrIndex::FS),
            Index3::I101 => Some(SrIndex::GS),
            _ => None,
        }
    }
}

/// Control Register
#[derive(Debug, Clone, Copy, PartialEq, Eq, Structural)]
pub enum CrIndex {
    CR0,
    CR2,
    CR3,
    CR4,
}

impl CrIndex {
    /// The register number used in the instruction encoding.
    pub open spec fn index(self) -> u8 {
        match self {
            CrIndex::CR0 => 0,
            CrIndex::CR2 => 2,
            CrIndex::CR3 => 3,
            CrIndex::CR4 => 4,
        }
    }

    pub fn from_idx3(index: Index3) -> (r: Option<Self>)
        ensures
            r is Some <==> (index.value() == 0 || index.value() == 2 || index.value() == 3
                || index.value() == 4),
            r matches Some(c) ==> c.index() == index.value(),
    {
        match index {
            Index3::I000 => Some(CrIndex::CR0),
            Index3::I010 => Some(CrIndex::CR2),
            Index3::I011 => Some(CrIndex::CR3),
            Index3::I100 => Some(CrIndex::CR4),
            _ => None,
        }
    }
}

/// Debug Register
#[derive(Debug, Clone, Copy, PartialEq, Eq, Structural)]
pub enum DrIndex {
    DR0,
    DR1,
    DR2,
    DR3,
    DR4,
    DR5,
    DR6,
    DR7,
}

impl DrIndex {
    /// The register number used in the instruction encoding.
    pub open spec fn index(self) -> u8 {
        match self {
            DrIndex::DR0 => 0,
            DrIndex::DR1 => 1,
            DrIndex::DR2 => 2,
            DrIndex::DR3 => 3,
            DrIndex::DR4 => 4,
            DrIndex::DR5 => 5,
            DrIndex::DR6 => 6,
            DrIndex::DR7 => 7,
        }
    }

    pub fn from_idx3(index: Index3) -> (r: Self)
        ensures
            r.index() == index.value(),
    {
        match index {
            Index3::I000 => DrIndex::DR0,
            Index3::I001 => DrIndex::DR1,
            Index3::I010 => DrIndex::DR2,
            Index3::I011 => DrIndex::DR3,
            Index3::I100 => DrIndex::DR4,
            Index3::I101 => DrIndex::DR5,
            Index3::I110 => DrIndex::DR6,
            Index3::I111 => DrIndex::DR7,
        }
    }
}

/// 3bit opcode extension for grp1 instructions (0x80, 0x81, 0x83)
#[derive(Debug, Clone, Copy, PartialEq, Eq, Structural)]
pub enum OpGrp1 {
    ADD,
    OR,
    ADC,
    SBB,
    AND,
    SUB,
    XOR,
    CMP,
}

impl OpGrp1 {
    /// The opcode extension number.
    pub open spec fn code(self) -> u8 {
        match self {
            OpGrp1::ADD => 0,
            OpGrp1::OR => 1,
            OpGrp1::ADC => 2,
            OpGrp1::SBB => 3,
            OpGrp1::AND => 4,
            OpGrp1::SUB => 5,
            OpGrp1::XOR => 6,
            OpGrp1::CMP => 7,
        }
    }

    pub fn from_idx3(index: Index3) -> (r: Self)
        ensures
            r.code() == index.value(),
    {
        match index {
            Index3::I000 => OpGrp1::ADD,
            Index3::I001 => OpGrp1::OR,
            Index3::I010 => OpGrp1::ADC,
            Index3::I011 => OpGrp1::SBB,
            Index3::I100 => OpGrp1::AND,
            Index3::I101 => OpGrp1::SUB,
            Index3::I110 => OpGrp1::XOR,
            Index3::I111 => OpGrp1::CMP,
        }
    }
}

/// 3bit opcode extension for shift/rotate instructions
#[derive(Debug, Clone, Copy, PartialEq, Eq, Structural)]
pub enum OpShift {
    ROL,
    ROR,
    RCL,
    RCR,
    SHL,
    SHR,
    /// Officially undefined, but commonly alias of SHL
    _SAL,
    SAR,
}

impl OpShift {
    /// The opcode extension number.
    pub open spec fn code(self) -> u8 {
        match self {
            OpShift::ROL => 0,
            OpShift::ROR => 1,
            OpShift::RCL => 2,
            OpShift::RCR => 3,
            OpShift::SHL => 4,
            OpShift::SHR => 5,
            OpShift::_SAL => 6,
            OpShift::SAR => 7,
        }
    }

    pub fn from_idx3(index: Index3) -> (r: Self)
        ensures
            r.code() == index.value(),
    {
        match index {
            Index3::I000 => OpShift::ROL,
            Index3::I001 => OpShift::ROR,
            Index3::I010 => OpShift::RCL,
            Index3::I011 => OpShift::RCR,
            Index3::I100 => OpShift::SHL,
            Index3::I101 => OpShift::SHR,
            Index3::I110 => OpShift::_SAL,
            Index3::I111 => OpShift::SAR,
        }
    }
}

/// 3bit opcode extension for grp3 instructions (0xf6, 0xf7)
#[derive(Debug, Clone, Copy, PartialEq, Eq, Structural)]
pub enum OpGrp3 {
    TEST,
    /// Officially undefined, but commonly alias of TEST
    _TEST1,
    NOT,
    NEG,
    MUL,
    IMUL,
    DIV,
    IDIV,
}

impl OpGrp3 {
    /// The opcode extension number.
    pub open spec fn code(self) -> u8 {
        match self {
            OpGrp3::TEST => 0,
            OpGrp3::_TEST1 => 1,
            OpGrp3::NOT => 2,
            OpGrp3::NEG => 3,
            OpGrp3::MUL => 4,
            OpGrp3::IMUL => 5,
            OpGrp3::DIV => 6,
            OpGrp3::IDIV => 7,
        }
    }

    pub fn from_idx3(index: Index3) -> (r: Self)
        ensures
            r.code() == index.value(),
    {
        match index {
            Index3::I000 => OpGrp3::TEST,
            Index3::I001 => OpGrp3::_TEST1,
            Index3::I010 => OpGrp3::NOT,
            Index3::I011 => OpGrp3::NEG,
            Index3::I100 => OpGrp3::MUL,
            Index3::I101 => OpGrp3::IMUL,
            Index3::I110 => OpGrp3::DIV,
            Index3::I111 => OpGrp3::IDIV,
        }
    }
}

/// 3bit opcode extension for grp4 instructions (0xfe)
#[derive(Debug, Clone, Copy, PartialEq, Eq, Structural)]
pub enum OpGrp4 {
    INC,
    DEC,
    /// Undefined
    _UD,
}

impl OpGrp4 {
    pub fn from_idx3(index: Index3) -> (r: Self)
        ensures
            r == (if index.value() == 0 {
                OpGrp4::INC
            } else if index.value() == 1 {
                OpGrp4::DEC
            } else {
                OpGrp4::_UD
            }),
    {
        match index {
            Index3::I000 => OpGrp4::INC,
            Index3::I001 => OpGrp4::DEC,
            _ => OpGrp4::_UD,
        }
    }
}

/// 3bit opcode extension for grp5 instructions (0xff)
#[derive(Debug, Clone, Copy, PartialEq, Eq, Structural)]
pub enum OpGrp5 {
    INC,
    DEC,
    CALL,
    CALLF,
    JMP,
    JMPF,
    PUSH,
    /// undefined
    _UD7,
}

impl OpGrp5 {
    /// The opcode extension number.
    pub open spec fn code(self) -> u8 {
        match self {
            OpGrp5::INC => 0,
            OpGrp5::DEC => 1,
            OpGrp5::CALL => 2,
            OpGrp5::CALLF => 3,
            OpGrp5::JMP => 4,
            OpGrp5::JMPF => 5,
            OpGrp5::PUSH => 6,
            OpGrp5::_UD7 => 7,
        }
    }

    pub fn from_idx3(index: Index3) -> (r: Self)
        ensures
            r.code() == index.value(),
    {
        match index {
            Index3::I000 => OpGrp5::INC,
            Index3::I001 => OpGrp5::DEC,
            Index3::I010 => OpGrp5::CALL,
            Index3::I011 => OpGrp5::CALLF,
            Index3::I100 => OpGrp5::JMP,
            Index3::I101 => OpGrp5::JMPF,
            Index3::I110 => OpGrp5::PUSH,
            _ => OpGrp5::_UD7,
        }
    }
}

/// 3bit opcode extension for grp6 instructions (0x0f 0x00)
#[derive(Debug, Clone, Copy, PartialEq, Eq, Structural)]
pub enum OpGrp6 {
    SLDT,
    STR,
    LLDT,
    LTR,
    VERR,
    VERW,
    /// Undefined
    _UD,
}

impl OpGrp6 {
    /// The opcode extension number; 6 stands for every undefined extension.
    pub open spec fn code(self) -> u8 {
        match self {
            OpGrp6::SLDT => 0,
            OpGrp6::STR => 1,
            OpGrp6::LLDT => 2,
            OpGrp6::LTR => 3,
            OpGrp6::VERR => 4,
            OpGrp6::VERW => 5,
            OpGrp6::_UD => 6,
        }
    }

    pub fn from_idx3(index: Index3) -> (r: Self)
        ensures
            index.value() < 6 ==> r.code() == index.value(),
            index.value() >= 6 ==> r == OpGrp6::_UD,
    {
        match index {
            Index3::I000 => OpGrp6::SLDT,
            Index3::I001 => OpGrp6::STR,
            Index3::I010 => OpGrp6::LLDT,
            Index3::I011 => OpGrp6::LTR,
            Index3::I100 => OpGrp6::VERR,
            Index3::I101 => OpGrp6::VERW,
            _ => OpGrp6::_UD,
        }
    }
}

/// 3bit opcode extension for grp7 instructions (0x0f 0x01)
#[derive(Debug, Clone, Copy, PartialEq, Eq, Structural)]
pub enum OpGrp7 {
    SGDT,
    SIDT,
    LGDT,
    LIDT,
    SMSW,
    _UD5,
    LMSW,
    INVLPG,
}

impl OpGrp7 {
    /// The opcode extension number.
    pub open spec fn code(self) -> u8 {
        match self {
            OpGrp7::SGDT => 0,
            OpGrp7::SIDT => 1,
            OpGrp7::LGDT => 2,
            OpGrp7::LIDT => 3,
            OpGrp7::SMSW => 4,
            OpGrp7::_UD5 => 5,
            OpGrp7::LMSW => 6,
            OpGrp7::INVLPG => 7,
        }
    }

    pub fn from_idx3(index: Index3) -> (r: Self)
        ensures
            r.code() == index.value(),
    {
        match index {
            Index3::I000 => OpGrp7::SGDT,
            Index3::I001 => OpGrp7::SIDT,
            Index3::I010 => OpGrp7::LGDT,
            Index3::I011 => OpGrp7::LIDT,
            Index3::I100 => OpGrp7::SMSW,
            Index3::I101 => OpGrp7::_UD5,
            Index3::I110 => OpGrp7::LMSW,
            Index3::I111 => OpGrp7::INVLPG,
        }
    }
}

/// 3bit opcode extension for grp8 (0x0f 0xba)
#[derive(Debug, Clone, Copy, PartialEq, Eq, Structural)]
pub enum OpGrp8 {
    _UD,
    BT,
    BTS,
    BTR,
    BTC,
}

impl OpGrp8 {
    pub fn from_idx3(index: Index3) -> (r: Self)
        ensures
            r == (if index.value() == 4 {
                OpGrp8::BT
            } else if index.value() == 5 {
                OpGrp8::BTS
            } else if index.value() == 6 {
                OpGrp8::BTR
            } else if index.value() == 7 {
                OpGrp8::BTC
            } else {
                OpGrp8::_UD
            }),
    {
        match index {
            Index3::I100 => OpGrp8::BT,
            Index3::I101 => OpGrp8::BTS,
            Index3::I110 => OpGrp8::BTR,
            Index3::I111 => OpGrp8::BTC,
            _ => OpGrp8::_UD,
        }
    }
}

/// Mod bits in ModR/M byte
#[derive(Debug, Clone, Copy, PartialEq, Eq, Structural)]
pub enum ModBits {
    /// Mod bits 00: no displacement or displacement only if special case
    Zero,
    /// Mod bits 01: 8-bit displacement follows
    DispByte,
    /// Mod bits 10: 16-bit or 32-bit displacement follows depending on the address size
    DispVar,
    /// Mod bits 11: register-direct addressing mode
    Reg,
}

impl ModBits {
    /// The two-bit value of the field.
    pub open spec fn value(self) -> u8 {
        match self {
            ModBits::Zero => 0,
            ModBits::DispByte => 1,
            ModBits::DispVar => 2,
            ModBits::Reg => 3,
        }
    }
}

/// ModR/M byte
#[derive(Debug, Clone, Copy, PartialEq, Eq, Structural)]
pub struct ModRM(pub u8);

impl ModRM {
    /// The mod field (bits 7..6).
    pub open spec fn spec_mod(self) -> u8 {
        self.0 / 64
    }

    /// The reg field (bits 5..3).
    pub open spec fn spec_reg(self) -> u8 {
        (self.0 / 8) % 8
    }

    /// The r/m field (bits 2..0).
    pub open spec fn spec_rm(self) -> u8 {
        self.0 % 8
    }

    pub fn new(value: u8) -> (r: Self)
        ensures
            r.0 == value,
    {
        ModRM(value)
    }

    pub fn raw(&self) -> (r: u8)
        ensures
            r == self.0,
    {
        self.0
    }

    pub fn reg_index(&self) -> (r: Index3)
        ensures
            r.value() == self.spec_reg(),
    {
        let v = self.0 >> 3;
        proof { crate::bits::lemma_u8_fields(self.0); }
        Index3::from_u8(v)
    }

    pub fn rm_index(&self) -> (r: Index3)
        ensures
            r.value() == self.spec_rm(),
    {
        Index3::from_u8(self.0)
    }

    pub fn mod_bits(&self) -> (r: ModBits)
        ensures
            r.value() == self.spec_mod(),
    {
        let v = self.0 >> 6;
        proof { crate::bits::lemma_u8_fields(self.0); }
        if v == 0 {
            ModBits::Zero
        } else if v == 1 {
            ModBits::DispByte
        } else if v == 2 {
            ModBits::DispVar
        } else {
            ModBits::Reg
        }
    }
}

/// Scale-Index-Base byte
#[derive(Debug, Clone, Copy, PartialEq, Eq, Structural)]
pub struct SIB(pub u8);

impl SIB {
    pub fn scale(&self) -> (r: Scale)
        ensures
            r.value() == self.0 / 64,
    {
        Scale::from_sib(*self)
    }

    pub fn index(&self) -> (r: Index3)
        ensures
            r.value() == (self.0 / 8) % 8,
    {
        let v = (self.0 >> 3) & 0b111;
        proof { crate::bits::lemma_u8_fields(self.0); }
        Index3::from_u8(v)
    }

    pub fn base(&self) -> (r: Index3)
        ensures
            r.value() == self.0 % 8,
    {
        proof { crate::bits::lemma_u8_fields(self.0); }
        Index3::from_u8(self.0 & 0b111)
    }
}

/// Scale factor for SIB byte
#[derive(Debug, Clone, Copy, PartialEq, Eq, Structural)]
pub enum Scale {
    /// 00: No scaling (scale factor = 1)
    Byte,
    /// 01: Scale factor = 2
    Word,
    /// 10: Scale factor = 4
    DWord,
    /// 11: Scale factor = 8
    QWord,
}

impl Scale {
    /// The two-bit scale field.
    pub open spec fn value(self) -> u8 {
        match self {
            Scale::Byte => 0,
            Scale::Word => 1,
            Scale::DWord => 2,
            Scale::QWord => 3,
        }
    }

    /// The scale field as an executable value.
    pub fn to_u8(&self) -> (r: u8)
        ensures
            r == self.value(),
    {
        match self {
            Scale::Byte => 0,
            Scale::Word => 1,
            Scale::DWord => 2,
            Scale::QWord => 3,
        }
    }

    /// Returns the scale factor corresponding to the SIB byte.
    pub fn scale_factor(&self) -> (r: u32)
        ensures
            r == vstd::arithmetic::power2::pow2(self.value() as nat),
    {
        proof {
            vstd::arithmetic::power2::lemma2_to64();
        }
        match self {
            Scale::Byte => 1,
            Scale::Word => 2,
            Scale::DWord => 4,
            Scale::QWord => 8,
        }
    }

    /// Returns the shift amount corresponding to the SIB byte.
    pub fn shift(&self) -> (r: u32)
        ensures
            r == self.value(),
    {
        match self {
            Scale::Byte => 0,
            Scale::Word => 1,
            Scale::DWord => 2,
            Scale::QWord => 3,
        }
    }

    /// Decodes the scale from the SIB byte.
    pub fn from_sib(sib: SIB) -> (r: Self)
        ensures
            r.value() == sib.0 / 64,
    {
        let v = sib.0 >> 6;
        proof { crate::bits::lemma_u8_fields(sib.0); }
        if v == 0 {
            Scale::Byte
        } else if v == 1 {
            Scale::Word
        } else if v == 2 {
            Scale::DWord
        } else {
            Scale::QWord
        }
    }
}


/// Combination of base and index registers for 16-bit addressing mode
#[derive(Debug, Clone, Copy, PartialEq, Eq, Structural)]
pub enum BaseIndex16 {
    /// `BX + SI`
    BxSi,
    /// `BX + DI`
    BxDi,
    /// `BP + SI`
    BpSi,
    /// `BP + DI`
    BpDi,
    /// `SI`
    Si,
    /// `DI`
    Di,
    /// `BP`
    Bp,
    /// `BX`
    Bx,
}

impl BaseIndex16 {
    /// The base/index combination of a ModR/M byte in 16-bit addressing; `None`
    /// for a displacement alone (mod 00, r/m 110).
    pub open spec fn spec_from_modrm(modrm: ModRM) -> Option<BaseIndex16> {
        let rm = modrm.spec_rm();
        if rm == 0 {
            Some(BaseIndex16::BxSi)
        } else if rm == 1 {
            Some(BaseIndex16::BxDi)
        } else if rm == 2 {
            Some(BaseIndex16::BpSi)
        } else if rm == 3 {
            Some(BaseIndex16::BpDi)
        } else if rm == 4 {
            Some(BaseIndex16::Si)
        } else if rm == 5 {
            Some(BaseIndex16::Di)
        } else if rm == 6 {
            if modrm.spec_mod() == 0 {
                None
            } else {
                Some(BaseIndex16::Bp)
            }
        } else {
            Some(BaseIndex16::Bx)
        }
    }

    /// Whether the combination uses BP, whose default segment is SS.
    pub open spec fn uses_bp(self) -> bool {
        self == BaseIndex16::Bp || self == BaseIndex16::BpSi || self == BaseIndex16::BpDi
    }

    /// Decodes the ModR/M
    pub fn from_modrm(modrm: ModRM) -> (r: Option<Self>)
        ensures
            r == BaseIndex16::spec_from_modrm(modrm),
    {
        let mod_bits = modrm.mod_bits();
        let rm = modrm.rm_index();
        match rm {
            Index3::I000 => Some(BaseIndex16::BxSi),
            Index3::I001 => Some(BaseIndex16::BxDi),
            Index3::I010 => Some(BaseIndex16::BpSi),
            Index3::I011 => Some(BaseIndex16::BpDi),
            Index3::I100 => Some(BaseIndex16::Si),
            Index3::I101 => Some(BaseIndex16::Di),
            Index3::I110 => {
                if mod_bits == ModBits::Zero {
                    None
                } else {
                    Some(BaseIndex16::Bp)
                }
            },
            Index3::I111 => Some(BaseIndex16::Bx),
        }
    }

    /// Returns the default segment register for the given base/index combination.
    pub fn default_segment(&self) -> (r: SrIndex)
        ensures
            r == (if self.uses_bp() { SrIndex::SS } else { SrIndex::DS }),
    {
        match self {
            BaseIndex16::Bp | BaseIndex16::BpSi | BaseIndex16::BpDi => SrIndex::SS,
            _ => SrIndex::DS,
        }
    }

    /// Returns the base register for the given base/index combination.
    pub fn base(&self) -> (r: GprIndex16)
        ensures
            r == (match self {
                BaseIndex16::BxSi | BaseIndex16::BxDi | BaseIndex16::Bx => GprIndex16::BX,
                BaseIndex16::BpSi | BaseIndex16::BpDi | BaseIndex16::Bp => GprIndex16::BP,
                BaseIndex16::Si => GprIndex16::SI,
                BaseIndex16::Di => GprIndex16::DI,
            }),
    {
        match self {
            BaseIndex16::BxSi | BaseIndex16::BxDi | BaseIndex16::Bx => GprIndex16::BX,
            BaseIndex16::BpSi | BaseIndex16::BpDi | BaseIndex16::Bp => GprIndex16::BP,
            BaseIndex16::Si => GprIndex16::SI,
            BaseIndex16::Di => GprIndex16::DI,
        }
    }

    /// Returns the index register for the given base/index combination, if any.
    pub fn index(&self) -> (r: Option<GprIndex16>)
        ensures
            r == (match self {
                BaseIndex16::BxSi | BaseIndex16::BpSi => Some(GprIndex16::SI),
                BaseIndex16::BxDi | BaseIndex16::BpDi => Some(GprIndex16::DI),
                _ => None,
            }),
    {
        match self {
            BaseIndex16::BxSi | BaseIndex16::BpSi => Some(GprIndex16::SI),
            BaseIndex16::BxDi | BaseIndex16::BpDi => Some(GprIndex16::DI),
            _ => None,
        }
    }
}

/// The default segment of an optional 16-bit base/index combination.
pub open spec fn default_segment16(bi: Option<BaseIndex16>) -> SrIndex {
    match bi {
        Some(b) => if b.uses_bp() { SrIndex::SS } else { SrIndex::DS },
        None => SrIndex::DS,
    }
}

/// Combination of base and index registers for memory addressing
#[derive(Debug, Clone, Copy, PartialEq, Eq, Structural)]
pub enum BaseIndex<IDX> {
    /// Displacement only, no base or index register
    DispOnly,
    /// Base register only
    Base(IDX),
    /// Index register only
    Index(IDX),
    /// Both base and index registers
    BaseIndex(IDX, IDX),
}

/// The addressing of a ModR/M byte in 32-bit mode; `None` when a SIB byte follows.
pub open spec fn spec_from_modrm32(modrm: ModRM) -> Option<BaseIndex<GprIndex32>> {
    if modrm.spec_mod() == 0 && modrm.spec_rm() == 5 {
        Some(BaseIndex::DispOnly)
    } else if modrm.spec_rm() == 4 {
        None
    } else {
        Some(BaseIndex::Base(GprIndex32::spec_from(modrm.spec_rm())))
    }
}

/// The addressing of a ModR/M byte followed by a SIB byte.
pub open spec fn spec_from_modrm_sib(modrm: ModRM, sib: SIB) -> BaseIndex<GprIndex32> {
    let base = sib.0 % 8;
    let index = (sib.0 / 8) % 8;
    if modrm.spec_mod() == 0 && base == 5 && index == 4 {
        BaseIndex::DispOnly
    } else if modrm.spec_mod() == 0 && base == 5 {
        BaseIndex::Index(GprIndex32::spec_from(index))
    } else if index == 4 {
        BaseIndex::Base(GprIndex32::spec_from(base))
    } else {
        BaseIndex::BaseIndex(GprIndex32::spec_from(base), GprIndex32::spec_from(index))
    }
}

impl BaseIndex<GprIndex32> {
    /// Decodes the ModR/M type for 32-bit addressing mode.
    ///
    /// Returns `None` if the ModR/M byte indicates that a SIB byte follows
    pub fn from_modrm32(modrm: ModRM) -> (r: Option<Self>)
        ensures
            r == spec_from_modrm32(modrm),
    {
        let mod_bits = modrm.mod_bits();
        let rm = modrm.rm_index();
        if mod_bits == ModBits::Zero && rm == Index3::I101 {
            Some(BaseIndex::DispOnly)
        } else if rm == Index3::I100 {
            None
        } else {
            Some(BaseIndex::Base(GprIndex32::from_idx3(rm)))
        }
    }

    /// Decodes the SIB type from the ModR/M and SIB bytes.
    pub fn from_modrm_sib(modrm: ModRM, sib: SIB) -> (r: Self)
        ensures
            r == spec_from_modrm_sib(modrm, sib),
    {
        let mod_bits = modrm.mod_bits();
        let base = sib.base();
        let index = sib.index();
        if mod_bits == ModBits::Zero && base == Index3::I101 && index == Index3::I100 {
            BaseIndex::DispOnly
        } else if mod_bits == ModBits::Zero && base == Index3::I101 {
            BaseIndex::Index(GprIndex32::from_idx3(index))
        } else if index == Index3::I100 {
            BaseIndex::Base(GprIndex32::from_idx3(base))
        } else {
            BaseIndex::BaseIndex(GprIndex32::from_idx3(base), GprIndex32::from_idx3(index))
        }
    }
}

/// Base, index and scale of 32-bit addressing.
#[derive(Debug, Clone, Copy, PartialEq, Eq, Structural)]
pub enum BaseIndex32 {
    /// Displacement only, no base or index register
    DispOnly,
    /// Base register only
    Base(GprIndex32),
    /// Scale-Index-Base addressing with base and index registers
    Sib(SibIndex),
}

/// The 32-bit addressing of a base/index combination and a scale.
pub open spec fn spec_from_base_index(value: BaseIndex<GprIndex32>, scale: Scale) -> BaseIndex32 {
    match value {
        BaseIndex::DispOnly => BaseIndex32::DispOnly,
        BaseIndex::Base(base) => BaseIndex32::Base(base),
        BaseIndex::Index(index) => BaseIndex32::Sib(
            SibIndex(crate::ir86::sib::spec_from_sib(None, index, scale)),
        ),
        BaseIndex::BaseIndex(base, index) => BaseIndex32::Sib(
            SibIndex(crate::ir86::sib::spec_from_sib(Some(base), index, scale)),
        ),
    }
}

impl BaseIndex32 {
    /// The base register of the addressing, if any.
    pub open spec fn spec_base(self) -> Option<GprIndex32> {
        match self {
            BaseIndex32::DispOnly => None,
            BaseIndex32::Base(base) => Some(base),
            BaseIndex32::Sib(sib) => crate::ir86::sib::spec_to_sib(sib.0).0,
        }
    }

    /// The default segment: SS when the base is EBP or ESP, DS otherwise.
    pub open spec fn spec_default_segment(self) -> SrIndex {
        match self.spec_base() {
            Some(GprIndex32::EBP) | Some(GprIndex32::ESP) => SrIndex::SS,
            _ => SrIndex::DS,
        }
    }

    pub fn from_base_index(value: BaseIndex<GprIndex32>, scale: Scale) -> (r: Self)
        requires
            !(value matches BaseIndex::Index(i) && i == GprIndex32::ESP),
            !(value matches BaseIndex::BaseIndex(_, i) && i == GprIndex32::ESP),
        ensures
            r == spec_from_base_index(value, scale),
    {
        match value {
            BaseIndex::DispOnly => BaseIndex32::DispOnly,
            BaseIndex::Base(base) => BaseIndex32::Base(base),
            BaseIndex::Index(index) => BaseIndex32::Sib(SibIndex::from_sib(None, index, scale)),
            BaseIndex::BaseIndex(base, index) => {
                BaseIndex32::Sib(SibIndex::from_sib(Some(base), index, scale))
            },
        }
    }

    pub fn scale(&self) -> (r: Option<Scale>)
        ensures
            r == (match self {
                BaseIndex32::Sib(sib) => Some(crate::ir86::sib::spec_to_sib(sib.0).2),
                _ => None,
            }),
    {
        match self {
            BaseIndex32::DispOnly | BaseIndex32::Base(_) => None,
            BaseIndex32::Sib(sib) => Some(sib.to_sib().2),
        }
    }

    pub fn base(&self) -> (r: Option<GprIndex32>)
        ensures
            r == self.spec_base(),
    {
        match self {
            BaseIndex32::DispOnly => None,
            BaseIndex32::Base(base) => Some(*base),
            BaseIndex32::Sib(sib) => sib.to_sib().0,
        }
    }

    pub fn index(&self) -> (r: Option<GprIndex32>)
        ensures
            r == (match self {
                BaseIndex32::Sib(sib) => Some(crate::ir86::sib::spec_to_sib(sib.0).1),
                _ => None,
            }),
    {
        match self {
            BaseIndex32::DispOnly | BaseIndex32::Base(_) => None,
            BaseIndex32::Sib(sib) => Some(sib.to_sib().1),
        }
    }

    /// Returns the default segment register for the given base/index combination.
    pub fn default_segment(&self) -> (r: SrIndex)
        ensures
            r == self.spec_default_segment(),
    {
        match self.base() {
            Some(GprIndex32::EBP) | Some(GprIndex32::ESP) => SrIndex::SS,
            _ => SrIndex::DS,
        }
    }
}

/// Memory operand in 16-bit addressing mode
#[derive(Debug, Clone, Copy, PartialEq, Eq, Structural)]
pub struct MemOpr16 {
    pub segment: SrIndex,
    pub base_index: Option<BaseIndex16>,
    pub disp: Offset16,
}

impl MemOpr16 {
    /// A dummy memory operand used when the ModR/M byte indicates a register operand.
    pub open spec fn spec_dummy() -> Self {
        MemOpr16 { segment: SrIndex::ES, base_index: None, disp: Offset16(0) }
    }

    /// A dummy memory operand used when the ModR/M byte indicates a register operand.
    pub fn dummy() -> (r: Self)
        ensures
            r == MemOpr16::spec_dummy(),
    {
        MemOpr16 { segment: SrIndex::ES, base_index: None, disp: Offset16(0) }
    }

    pub fn from_sel_off(segment: SrIndex, offset: Offset16) -> (r: Self)
        ensures
            r == (MemOpr16 { segment, base_index: None, disp: offset }),
    {
        Self { segment, base_index: None, disp: offset }
    }

    pub fn for_xlat(segment: SrIndex) -> (r: Self)
        ensures
            r == (MemOpr16 { segment, base_index: Some(BaseIndex16::Bx), disp: Offset16(0) }),
    {
        Self { segment, base_index: Some(BaseIndex16::Bx), disp: Offset16(0) }
    }
}

/// Memory operand in 32-bit addressing mode
#[derive(Debug, Clone, Copy, PartialEq, Eq, Structural)]
pub struct MemOpr32 {
    pub segment: SrIndex,
    pub base_index: BaseIndex32,
    pub disp: Offset32,
}

impl MemOpr32 {
    /// A dummy memory operand used when the ModR/M byte indicates a register operand.
    pub open spec fn spec_dummy() -> Self {
        MemOpr32 { segment: SrIndex::ES, base_index: BaseIndex32::DispOnly, disp: Offset32(0) }
    }

    /// A dummy memory operand used when the ModR/M byte indicates a register operand.
    pub fn dummy() -> (r: Self)
        ensures
            r == MemOpr32::spec_dummy(),
    {
        MemOpr32 { segment: SrIndex::ES, base_index: BaseIndex32::DispOnly, disp: Offset32(0) }
    }

    pub fn from_sel_off(segment: SrIndex, offset: Offset32) -> (r: Self)
        ensures
            r == (MemOpr32 { segment, base_index: BaseIndex32::DispOnly, disp: offset }),
    {
        Self { segment, base_index: BaseIndex32::DispOnly, disp: offset }
    }

    pub fn for_xlat(segment: SrIndex) -> (r: Self)
        ensures
            r == (MemOpr32 {
                segment,
                base_index: BaseIndex32::Base(GprIndex32::EBX),
                disp: Offset32(0),
            }),
    {
        Self { segment, base_index: BaseIndex32::Base(GprIndex32::EBX), disp: Offset32(0) }
    }
}

/// Register or Memory operand based on ModR/M byte
#[derive(Debug, Clone, Copy, PartialEq, Eq, Structural)]
pub enum RegOrMem<R, M> {
    /// The operand is a register
    Reg(R),
    /// The operand is a memory address
    Mem(M),
}

/// Parsed ModR/M for 16-bit addressing mode
#[derive(Debug, Clone, Copy, PartialEq, Eq, Structural)]
pub struct ModRm16 {
    pub modrm: ModRM,
    pub mem: MemOpr16,
}

/// A sign-extended 8-bit displacement.
pub open spec fn disp8_16(b: u8) -> u16 {
    ((b as i8) as i16) as u16
}

/// A sign-extended 8-bit displacement.
pub open spec fn disp8_32(b: u8) -> u32 {
    ((b as i8) as i32) as u32
}

/// What a ModR/M byte and its displacement at the start of `s` stand for in
/// 16-bit addressing, and how many bytes they take; `None` when `s` is too short.
pub open spec fn spec_modrm16(s: Seq<u8>, segment: Option<SrIndex>) -> Option<(ModRm16, nat)> {
    if s.len() == 0 {
        None
    } else {
        let modrm = ModRM(s[0]);
        if modrm.spec_mod() == 3 {
            Some((ModRm16 { modrm, mem: MemOpr16::spec_dummy() }, 1))
        } else {
            let bi = BaseIndex16::spec_from_modrm(modrm);
            let seg = match segment {
                Some(sr) => sr,
                None => default_segment16(bi),
            };
            if modrm.spec_mod() == 1 {
                if s.len() < 2 {
                    None
                } else {
                    Some((ModRm16 { modrm, mem: MemOpr16 { segment: seg, base_index: bi, disp: Offset16(disp8_16(s[1])) } }, 2))
                }
            } else if modrm.spec_mod() == 2 || bi is None {
                if s.len() < 3 {
                    None
                } else {
                    Some((ModRm16 { modrm, mem: MemOpr16 { segment: seg, base_index: bi, disp: Offset16(crate::ir86::fetch::le16(s[1], s[2])) } }, 3))
                }
            } else {
                Some((ModRm16 { modrm, mem: MemOpr16 { segment: seg, base_index: bi, disp: Offset16(0) } }, 1))
            }
        }
    }
}

impl ModRm16 {
    /// Fetches and parses a ModR/M byte and any associated displacement from the instruction stream.
    pub fn fetch<FETCH: Fetch>(is: &mut FETCH, segment: Option<SrIndex>) -> (r: Result<Self, FETCH::E>)
        ensures
            read_on(*old(is), *final(is), r is Err),
            final(is).reliable() == old(is).reliable(),
            old(is).reliable() ==> (r is Ok <==> spec_modrm16(old(is).stream(), segment) is Some),
            r is Ok ==> {
                let (m, n) = spec_modrm16(old(is).stream(), segment)->0;
                &&& spec_modrm16(old(is).stream(), segment) is Some
                &&& r->Ok_0 == m
                &&& final(is).stream() == old(is).stream().skip(n as int)
                &&& final(is).eip() == (old(is).eip() + n) % 0x1_0000_0000
                &&& final(is).stream().len() < old(is).stream().len()
            },
    {
        let b = is.fetch_u8()?;
        let modrm = ModRM(b);
        let mod_bits = modrm.mod_bits();
        proof {
            assert(old(is).stream().skip(1) == old(is).stream().drop_first());
        }
        if mod_bits == ModBits::Reg {
            Ok(Self { modrm, mem: MemOpr16::dummy() })
        } else {
            let base_index = BaseIndex16::from_modrm(modrm);
            let segment = match segment {
                Some(sr) => sr,
                None => match base_index {
                    Some(v) => v.default_segment(),
                    None => SrIndex::DS,
                },
            };
            if mod_bits == ModBits::DispByte {
                let d = is.fetch_i8()?;
                let disp = Offset16(d as i16 as u16);
                proof {
                    assert(old(is).stream().drop_first().drop_first() == old(is).stream().skip(2));
                }
                Ok(Self { modrm, mem: MemOpr16 { segment, base_index, disp } })
            } else if mod_bits == ModBits::DispVar || base_index.is_none() {
                let w = is.fetch_u16()?;
                let disp = Offset16(w);
                proof {
                    assert(old(is).stream().drop_first().skip(2) == old(is).stream().skip(3));
                }
                Ok(Self { modrm, mem: MemOpr16 { segment, base_index, disp } })
            } else {
                Ok(Self { modrm, mem: MemOpr16 { segment, base_index, disp: Offset16(0) } })
            }
        }
    }

    /// Returns the raw ModR/M byte.
    pub fn raw_modrm(&self) -> (r: ModRM)
        ensures
            r == self.modrm,
    {
        self.modrm
    }

    /// Returns the index of reg field in the ModR/M byte.
    pub fn reg_index(&self) -> (r: Index3)
        ensures
            r.value() == self.modrm.spec_reg(),
    {
        self.modrm.reg_index()
    }

    /// Returns either the register or memory operand based on the ModR/M byte.
    pub fn reg_or_mem(&self) -> (r: RegOrMem<Index3, MemOpr16>)
        ensures
            self.modrm.spec_mod() == 3 ==> (r matches RegOrMem::Reg(i)
                && i.value() == self.modrm.spec_rm()),
            self.modrm.spec_mod() != 3 ==> r == RegOrMem::<Index3, MemOpr16>::Mem(self.mem),
    {
        if self.modrm.mod_bits() == ModBits::Reg {
            RegOrMem::Reg(self.modrm.rm_index())
        } else {
            RegOrMem::Mem(self.mem)
        }
    }

    /// Force override the segment register for memory operand.
    ///
    /// Note: this function always safe to call even if the ModR/M byte indicates a register operand, since it will not be used in that case.
    pub fn force_override(&mut self, segment: SrIndex)
        ensures
            final(self).modrm == old(self).modrm,
            final(self).mem == (MemOpr16 { segment, ..old(self).mem }),
    {
        self.mem.segment = segment;
    }
}

/// Parsed ModR/M for 32-bit addressing mode
#[derive(Debug, Clone, Copy, PartialEq, Eq, Structural)]
pub struct ModRm32 {
    pub modrm: ModRM,
    pub sib: Option<SIB>,
    pub mem: MemOpr32,
}

/// The parse of a 32-bit memory operand once its addressing and SIB byte are
/// known: the displacement starts at `s[d]`.
pub open spec fn spec_modrm32_disp(
    s: Seq<u8>,
    segment: Option<SrIndex>,
    modrm: ModRM,
    sib: Option<SIB>,
    bi: BaseIndex<GprIndex32>,
    scale: Scale,
    d: nat,
) -> Option<(ModRm32, nat)> {
    let index_only = bi is Index;
    let bi32 = spec_from_base_index(bi, scale);
    let seg = match segment {
        Some(sr) => sr,
        None => bi32.spec_default_segment(),
    };
    if modrm.spec_mod() == 1 {
        if s.len() < d + 1 {
            None
        } else {
            Some((ModRm32 { modrm, sib, mem: MemOpr32 { segment: seg, base_index: bi32, disp: Offset32(disp8_32(s[d as int])) } }, d + 1))
        }
    } else if modrm.spec_mod() == 2 || bi32 == BaseIndex32::DispOnly || index_only {
        if s.len() < d + 4 {
            None
        } else {
            Some((ModRm32 { modrm, sib, mem: MemOpr32 { segment: seg, base_index: bi32, disp: Offset32(crate::ir86::fetch::le32(s[d as int], s[d + 1int], s[d + 2int], s[d + 3int])) } }, d + 4))
        }
    } else {
        Some((ModRm32 { modrm, sib, mem: MemOpr32 { segment: seg, base_index: bi32, disp: Offset32(0) } }, d))
    }
}

/// What a ModR/M byte, its SIB byte and its displacement at the start of `s`
/// stand for in 32-bit addressing, and how many bytes they take; `None` when `s`
/// is too short.
pub open spec fn spec_modrm32(s: Seq<u8>, segment: Option<SrIndex>) -> Option<(ModRm32, nat)> {
    if s.len() == 0 {
        None
    } else {
        let modrm = ModRM(s[0]);
        if modrm.spec_mod() == 3 {
            Some((ModRm32 { modrm, sib: None, mem: MemOpr32::spec_dummy() }, 1))
        } else {
            match spec_from_modrm32(modrm) {
                Some(bi) => spec_modrm32_disp(s, segment, modrm, None, bi, Scale::Byte, 1),
                None => if s.len() < 2 {
                    None
                } else {
                    let sib = SIB(s[1]);
                    spec_modrm32_disp(
                        s,
                        segment,
                        modrm,
                        Some(sib),
                        spec_from_modrm_sib(modrm, sib),
                        crate::ir86::sib::scale_of(sib.0 / 64),
                        2,
                    )
                },
            }
        }
    }
}

impl ModRm32 {
    /// Fetches and parses a ModR/M byte and any associated displacement from the instruction stream.
    pub fn fetch<FETCH: Fetch>(is: &mut FETCH, segment: Option<SrIndex>) -> (r: Result<Self, FETCH::E>)
        ensures
            read_on(*old(is), *final(is), r is Err),
            final(is).reliable() == old(is).reliable(),
            old(is).reliable() ==> (r is Ok <==> spec_modrm32(old(is).stream(), segment) is Some),
            r is Ok ==> {
                let (m, n) = spec_modrm32(old(is).stream(), segment)->0;
                &&& spec_modrm32(old(is).stream(), segment) is Some
                &&& r->Ok_0 == m
                &&& final(is).stream() == old(is).stream().skip(n as int)
                &&& final(is).eip() == (old(is).eip() + n) % 0x1_0000_0000
                &&& final(is).stream().len() < old(is).stream().len()
            },
    {
        let ghost s0 = is.stream();
        let b = is.fetch_u8()?;
        let modrm = ModRM(b);
        let mod_bits = modrm.mod_bits();
        proof {
            assert(s0.skip(1) == s0.drop_first());
        }
        if mod_bits == ModBits::Reg {
            return Ok(Self { modrm, sib: None, mem: MemOpr32::dummy() });
        }
        let ghost d: nat = 1;
        let (base_index, scale, sib) = match BaseIndex::from_modrm32(modrm) {
            Some(base_index) => (base_index, Scale::Byte, None),
            None => {
                let sb = is.fetch_u8()?;
                let sib = SIB(sb);
                let scale = sib.scale();
                proof {
                    d = 2;
                    assert(s0.drop_first().drop_first() == s0.skip(2));
                    assert(scale == crate::ir86::sib::scale_of(sib.0 / 64));
                }
                (BaseIndex::from_modrm_sib(modrm, sib), scale, Some(sib))
            },
        };
        assert(is.stream() == s0.skip(d as int));
        let no_base_index_only = match base_index {
            BaseIndex::Index(_) => true,
            _ => false,
        };
        let base_index = BaseIndex32::from_base_index(base_index, scale);
        let segment = match segment {
            Some(sr) => sr,
            None => base_index.default_segment(),
        };
        if mod_bits == ModBits::DispByte {
            let d8 = is.fetch_i8()?;
            let disp = Offset32(d8 as i32 as u32);
            proof {
                assert(s0.skip(d as int).drop_first() == s0.skip(d + 1int));
            }
            Ok(Self { modrm, sib, mem: MemOpr32 { segment, base_index, disp } })
        } else if mod_bits == ModBits::DispVar || base_index == BaseIndex32::DispOnly
            || no_base_index_only {
            let d32 = is.fetch_u32()?;
            let disp = Offset32(d32);
            proof {
                assert(s0.skip(d as int).skip(4) == s0.skip(d + 4int));
            }
            Ok(Self { modrm, sib, mem: MemOpr32 { segment, base_index, disp } })
        } else {
            Ok(Self { modrm, sib, mem: MemOpr32 { segment, base_index, disp: Offset32(0) } })
        }
    }

    /// Returns the raw ModR/M byte.
    pub fn raw_modrm(&self) -> (r: ModRM)
        ensures
            r == self.modrm,
    {
        self.modrm
    }

    /// Returns the raw SIB byte if present.
    pub fn raw_sib(&self) -> (r: Option<SIB>)
        ensures
            r == self.sib,
    {
        self.sib
    }

    /// Returns the index of reg field in the ModR/M byte.
    pub fn reg_index(&self) -> (r: Index3)
        ensures
            r.value() == self.modrm.spec_reg(),
    {
        self.modrm.reg_index()
    }

    /// Returns either the register or memory operand based on the ModR/M byte.
    pub fn reg_or_mem(&self) -> (r: RegOrMem<Index3, MemOpr32>)
        ensures
            self.modrm.spec_mod() == 3 ==> (r matches RegOrMem::Reg(i)
                && i.value() == self.modrm.spec_rm()),
            self.modrm.spec_mod() != 3 ==> r == RegOrMem::<Index3, MemOpr32>::Mem(self.mem),
    {
        if self.modrm.mod_bits() == ModBits::Reg {
            RegOrMem::Reg(self.modrm.rm_index())
        } else {
            RegOrMem::Mem(self.mem)
        }
    }

    /// Force override the segment register for memory operand.
    ///
    /// Note: this function always safe to call even if the ModR/M byte indicates a register operand, since it will not be used in that case.
    pub fn force_override(&mut self, segment: SrIndex)
        ensures
            final(self).modrm == old(self).modrm,
            final(self).sib == old(self).sib,
            final(self).mem == (MemOpr32 { segment, ..old(self).mem }),
    {
        self.mem.segment = segment;
    }
}

/// Condition Codes
#[derive(Debug, Clone, Copy, PartialEq, Eq, Structural)]
pub enum CC {
    /// Overflow
    O,
    /// Not Overflow
    NO,
    /// Carry
    C,
    /// Not Carry
    NC,
    /// Zero
    Z,
    /// Not Zero
    NZ,
    /// Below or Equal
    BE,
    /// Not Below or Equal
    NBE,
    /// Sign
    S,
    /// Not Sign
    NS,
    /// Parity
    P,
    /// Not Parity
    NP,
    /// Less
    L,
    /// Not Less
    NL,
    /// Less or Equal
    LE,
    /// Not Less or Equal
    NLE,
}

impl CC {
    /// Below
    pub const B: CC = CC::C;
    /// Not Above or Equal
    pub const NAE: CC = CC::C;
    /// Not Below
    pub const NB: CC = CC::NC;
    /// Above or Equal
    pub const AE: CC = CC::NC;
    /// Equal
    pub const E: CC = CC::Z;
    /// Not Equal
    pub const NE: CC = CC::NZ;
    /// Not Above
    pub const NA: CC = CC::BE;
    /// Above
    pub const A: CC = CC::NBE;
    /// Parity Even
    pub const PE: CC = CC::P;
    /// Parity Odd
    pub const PO: CC = CC::NP;
    /// Not Greater or Equal
    pub const NGE: CC = CC::L;
    /// Greater or Equal
    pub const GE: CC = CC::NL;
    /// Not Greater
    pub const NG: CC = CC::LE;
    /// Greater
    pub const G: CC = CC::NLE;

    /// The four-bit condition field of the opcode.
    pub open spec fn code(self) -> u8 {
        match self {
            CC::O => 0,
            CC::NO => 1,
            CC::C => 2,
            CC::NC => 3,
            CC::Z => 4,
            CC::NZ => 5,
            CC::BE => 6,
            CC::NBE => 7,
            CC::S => 8,
            CC::NS => 9,
            CC::P => 10,
            CC::NP => 11,
            CC::L => 12,
            CC::NL => 13,
            CC::LE => 14,
            CC::NLE => 15,
        }
    }

    pub fn from_u8(value: u8) -> (r: Self)
        ensures
            r.code() == value % 16,
    {
        let v = value & 0b1111;
        proof { crate::bits::lemma_u8_fields(value); }
        if v == 0 {
            CC::O
        } else if v == 1 {
            CC::NO
        } else if v == 2 {
            CC::C
        } else if v == 3 {
            CC::NC
        } else if v == 4 {
            CC::Z
        } else if v == 5 {
            CC::NZ
        } else if v == 6 {
            CC::BE
        } else if v == 7 {
            CC::NBE
        } else if v == 8 {
            CC::S
        } else if v == 9 {
            CC::NS
        } else if v == 10 {
            CC::P
        } else if v == 11 {
            CC::NP
        } else if v == 12 {
            CC::L
        } else if v == 13 {
            CC::NL
        } else if v == 14 {
            CC::LE
        } else {
            CC::NLE
        }
    }
}

/// Lock and Repeat Prefixes
#[allow(non_camel_case_types)]
#[derive(Debug, Clone, Copy, PartialEq, Eq, Structural)]
pub enum PrefixFx {
    /// No prefix
    NP,
    /// F0: LOCK prefix
    F0_LOCK,
    /// F2: REPNE/REPNZ prefix
    F2_REPNZ,
    /// F3: REP/REPE/REPZ prefix
    F3_REPZ,
}

impl Default for PrefixFx {
    fn default() -> (r: Self)
        ensures
            r == PrefixFx::NP,
    {
        PrefixFx::NP
    }
}

} // verus!
