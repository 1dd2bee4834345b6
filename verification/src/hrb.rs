//! Haribote OS executable format
//!
//! ## In file
//!
//! ```text
//! +---------+
//! | header  |
//! + - - - - +
//! | code    |
//! +---------+
//! | data    |
//! +---------+
//! ```
//!
//! ## In memory
//!
//! ```text
//! cs:
//! +---------+ <- cs:0
//! | header  |
//! + - - - - +
//! | code    |
//! | ...     | <- entry_point
//! +---------+ <- start_data
//!
//! ds:
//! +---------+ <- ds:0
//! | stack   |
//! +---------+ <- esp / (start_data)
//! | data    | } size_of_data
//! +---------+ <- start_malloc?
//! | bss     | } size_of_bss?
//! +---------+ <- size_of_ds
//! ```

use vstd::prelude::*;

verus! {

/// The little-endian number in the four bytes of `b` from `i` on.
pub open spec fn le32(b: Seq<u8>, i: int) -> u32 {
    (b[i] + b[i + 1] * 0x100 + b[i + 2] * 0x1_0000 + b[i + 3] * 0x100_0000) as u32
}

/// Haribote OS executable header
#[derive(Debug, Clone, Copy)]
pub struct HrbExecutable {
    /// Size of data segment
    pub size_of_ds: u32,
    /// Must be `b"Hari"`
    pub signature: [u8; 4],
    /// Size of bss?
    pub size_of_bss: u32,
    /// Initial Stack Pointer
    pub esp: u32,
    /// Size of data in file
    pub size_of_data: u32,
    /// Size of code and start data in file
    pub start_data: u32,
    /// startup machine code
    pub _start: [u8; 4],
    /// Entry point (relative)
    pub entry_m20: u32,
    /// Malloc area?
    pub start_malloc: u32,
}

/// The signature of an executable, `b"Hari"`.
pub open spec fn spec_signature() -> Seq<u8> {
    seq![0x48u8, 0x61, 0x72, 0x69]
}

/// Where the startup code starts.
pub const START: u32 = 0x1B;

/// The size of the header.
pub const MINIMAL_BIN_SIZE: usize = 0x24;

/// `h` is the header that the bytes `b` start with.
pub open spec fn is_header_of(h: HrbExecutable, b: Seq<u8>) -> bool {
    &&& h.size_of_ds == le32(b, 0)
    &&& h.signature@ == b.subrange(4, 8)
    &&& h.size_of_bss == le32(b, 8)
    &&& h.esp == le32(b, 12)
    &&& h.size_of_data == le32(b, 16)
    &&& h.start_data == le32(b, 20)
    &&& h._start@ == b.subrange(24, 28)
    &&& h.entry_m20 == le32(b, 28)
    &&& h.start_malloc == le32(b, 32)
}

/// The number in the four bytes from `i` on, little-endian.
fn read_le32(b: &[u8], i: usize) -> (r: u32)
    requires
        i + 4 <= b.len(),
    ensures
        r == le32(b@, i as int),
{
    b[i] as u32 + b[i + 1] as u32 * 0x100 + b[i + 2] as u32 * 0x1_0000 + b[i + 3] as u32 * 0x100_0000
}

impl HrbExecutable {
    /// The signature of an executable, `b"Hari"`.
    pub fn signature() -> (r: [u8; 4])
        ensures
            r@ == spec_signature(),
    {
        let r: [u8; 4] = [0x48, 0x61, 0x72, 0x69];
        assert(r@ =~= spec_signature());
        r
    }

    /// The header of the executable `bytes`: `None` where they are shorter than
    /// a header or do not carry the signature.
    pub fn identify(bytes: &[u8]) -> (r: Option<HrbExecutable>)
        ensures
            match r {
                Some(h) => {
                    &&& bytes.len() >= MINIMAL_BIN_SIZE
                    &&& bytes@.subrange(4, 8) == spec_signature()
                    &&& is_header_of(h, bytes@)
                },
                None => bytes.len() < MINIMAL_BIN_SIZE || bytes@.subrange(4, 8) != spec_signature(),
            },
    {
        if bytes.len() < MINIMAL_BIN_SIZE {
            return None;
        }
        if !(bytes[4] == 0x48 && bytes[5] == 0x61 && bytes[6] == 0x72 && bytes[7] == 0x69) {
            proof {
                if bytes@.subrange(4, 8) == spec_signature() {
                    assert(bytes@.subrange(4, 8)[0] == bytes@[4]);
                    assert(bytes@.subrange(4, 8)[1] == bytes@[5]);
                    assert(bytes@.subrange(4, 8)[2] == bytes@[6]);
                    assert(bytes@.subrange(4, 8)[3] == bytes@[7]);
                }
            }
            return None;
        }
        assert(bytes@.subrange(4, 8) =~= spec_signature());
        let signature: [u8; 4] = [bytes[4], bytes[5], bytes[6], bytes[7]];
        let start: [u8; 4] = [bytes[24], bytes[25], bytes[26], bytes[27]];
        assert(signature@ =~= bytes@.subrange(4, 8));
        assert(start@ =~= bytes@.subrange(24, 28));
        Some(HrbExecutable {
            size_of_ds: read_le32(bytes, 0),
            signature,
            size_of_bss: read_le32(bytes, 8),
            esp: read_le32(bytes, 12),
            size_of_data: read_le32(bytes, 16),
            start_data: read_le32(bytes, 20),
            _start: start,
            entry_m20: read_le32(bytes, 28),
            start_malloc: read_le32(bytes, 32),
        })
    }

    /// The entry point: 0x20 past `entry_m20`, wrapping around at 32 bits.
    pub fn entry_point(&self) -> (r: u32)
        ensures
            r == self.entry_m20.wrapping_add(0x20),
    {
        self.entry_m20.wrapping_add(0x20)
    }
}

} // verus!
