//! Compact SIB: a base, an index and a scale packed in one byte.
//!
//! The byte holds the scale in its top two bits and `index * 9 + base` in the
//! low six, where `base` is 0..=7 for a register and 8 for none, and `index`
//! counts the registers that can be an index (ESP cannot) in the order EAX,
//! ECX, EDX, EBX, EBP, ESI, EDI.

use vstd::prelude::*;
use crate::ir86::encoding::{GprIndex32, Scale};

verus! {

/// Compact SIB Index
#[derive(Debug, Clone, Copy, PartialEq, Eq, Structural)]
pub struct SibIndex(pub u8);

/// The code of an index register in the compact encoding.
pub open spec fn index_code(index: GprIndex32) -> u8 {
    match index {
        GprIndex32::EAX => 0,
        GprIndex32::ECX => 1,
        GprIndex32::EDX => 2,
        GprIndex32::EBX => 3,
        GprIndex32::EBP => 4,
        GprIndex32::ESI => 5,
        GprIndex32::EDI => 6,
        GprIndex32::ESP => 7,
    }
}

/// The index register of a code; codes above 6 name no register and read as EAX.
pub open spec fn index_of_code(code: u8) -> GprIndex32 {
    if code == 0 {
        GprIndex32::EAX
    } else if code == 1 {
        GprIndex32::ECX
    } else if code == 2 {
        GprIndex32::EDX
    } else if code == 3 {
        GprIndex32::EBX
    } else if code == 4 {
        GprIndex32::EBP
    } else if code == 5 {
        GprIndex32::ESI
    } else if code == 6 {
        GprIndex32::EDI
    } else {
        GprIndex32::EAX
    }
}

/// The code of an optional base register: its number, or 8 for none.
pub open spec fn base_code(base: Option<GprIndex32>) -> u8 {
    match base {
        Some(reg) => reg.index(),
        None => 8,
    }
}

/// The scale of a two-bit field.
pub open spec fn scale_of(v: u8) -> Scale {
    if v == 0 {
        Scale::Byte
    } else if v == 1 {
        Scale::Word
    } else if v == 2 {
        Scale::DWord
    } else {
        Scale::QWord
    }
}

/// What a compact SIB byte stands for: (base, index, scale).
pub open spec fn spec_to_sib(byte: u8) -> (Option<GprIndex32>, GprIndex32, Scale) {
    let low = byte % 64;
    let b = low % 9;
    let base = if b < 8 { Some(GprIndex32::spec_from(b)) } else { None };
    (base, index_of_code(low / 9), scale_of(byte / 64))
}

/// The compact byte of (base, index, scale), for an index other than ESP.
pub open spec fn spec_from_sib(base: Option<GprIndex32>, index: GprIndex32, scale: Scale) -> u8 {
    (scale.value() * 64 + index_code(index) * 9 + base_code(base)) as u8
}

impl SibIndex {
    /// Creates a new `SibIndex` from the given base, index, and scale.
    ///
    /// ESP cannot be an index register; for it the low six bits overflow into
    /// the scale, as the encoding has no room for it.
    pub fn from_sib(base: Option<GprIndex32>, index: GprIndex32, scale: Scale) -> (r: Self)
        ensures
            index != GprIndex32::ESP ==> r.0 == spec_from_sib(base, index, scale),
    {
        let base_bits: u8 = match base {
            Some(reg) => reg.to_u8(),
            None => 8,
        };
        let index_bits: u8 = match index {
            GprIndex32::EAX => 0,
            GprIndex32::ECX => 1,
            GprIndex32::EDX => 2,
            GprIndex32::EBX => 3,
            GprIndex32::EBP => 4,
            GprIndex32::ESI => 5,
            GprIndex32::EDI => 6,
            GprIndex32::ESP => 7,
        };
        let scale_bits = scale.to_u8();
        let low: u8 = index_bits * 9 + base_bits;
        let sib_byte = (scale_bits << 6) | low;
        proof {
            if index != GprIndex32::ESP {
                assert(low < 64);
                lemma_pack(scale_bits, low);
            }
        }
        SibIndex(sib_byte)
    }

    /// Converts the `SibIndex` back to its base, index, and scale components.
    pub fn to_sib(&self) -> (r: (Option<GprIndex32>, GprIndex32, Scale))
        ensures
            r == spec_to_sib(self.0),
    {
        let byte = self.0;
        let low = byte & 63;
        let top = byte >> 6;
        proof {
            lemma_unpack(byte);
        }
        let b = low % 9;
        let i = low / 9;
        let base = if b < 8 {
            Some(GprIndex32::from_u8(b))
        } else {
            None
        };
        let index = if i == 0 {
            GprIndex32::EAX
        } else if i == 1 {
            GprIndex32::ECX
        } else if i == 2 {
            GprIndex32::EDX
        } else if i == 3 {
            GprIndex32::EBX
        } else if i == 4 {
            GprIndex32::EBP
        } else if i == 5 {
            GprIndex32::ESI
        } else if i == 6 {
            GprIndex32::EDI
        } else {
            GprIndex32::EAX
        };
        let scale = if top == 0 {
            Scale::Byte
        } else if top == 1 {
            Scale::Word
        } else if top == 2 {
            Scale::DWord
        } else {
            Scale::QWord
        };
        (base, index, scale)
    }
}

proof fn lemma_pack(s: u8, low: u8)
    requires
        s < 4,
        low < 64,
    ensures
        (s << 6u8) | low == s * 64 + low,
{
    assert((s << 6u8) | low == s * 64 + low) by (bit_vector)
        requires
            s < 4,
            low < 64,
    ;
}

proof fn lemma_unpack(byte: u8)
    ensures
        byte & 63 == byte % 64,
        byte >> 6u8 == byte / 64,
{
    assert(byte & 63 == byte % 64) by (bit_vector);
    crate::bits::lemma_u8_fields(byte);
}

/// A compact SIB gives back the base, index and scale it was made from, for
/// every index register but ESP (which cannot be an index).
pub proof fn lemma_sib_roundtrip(base: Option<GprIndex32>, index: GprIndex32, scale: Scale)
    requires
        index != GprIndex32::ESP,
    ensures
        spec_to_sib(spec_from_sib(base, index, scale)) == (base, index, scale),
{
    let byte = spec_from_sib(base, index, scale);
    let low = index_code(index) * 9 + base_code(base);
    assert(byte % 64 == low);
    assert(byte / 64 == scale.value());
    assert(low % 9 == base_code(base));
    assert(low / 9 == index_code(index));
    match base {
        Some(reg) => {
            assert(GprIndex32::spec_from(reg.index()) == reg);
        },
        None => {},
    }
}

} // verus!
