//! Bit-level facts shared by the decoder and the emulator.

use vstd::prelude::*;
use vstd::std_specs::btree::increasing_seq;
use vstd::std_specs::cmp::OrdSpec;

verus! {

/// Fields of a byte read by masks and shifts are its base-2 digits.
pub proof fn lemma_u8_fields(x: u8)
    ensures
        x & 7 == x % 8,
        x >> 3u8 == x / 8,
        x >> 6u8 == x / 64,
        (x >> 3u8) & 7 == (x / 8) % 8,
        x & 0x0f == x % 16,
        x >> 4u8 == x / 16,
        x & 1 == x % 2,
        x >> 1u8 == x / 2,
        x & 0x1f == x % 32,
{
    assert(
        (x & 7 == x % 8) &&
        (x >> 3u8 == x / 8) &&
        (x >> 6u8 == x / 64) &&
        ((x >> 3u8) & 7 == (x / 8) % 8) &&
        (x & 0x0f == x % 16) &&
        (x >> 4u8 == x / 16) &&
        (x & 1 == x % 2) &&
        (x >> 1u8 == x / 2) &&
        (x & 0x1f == x % 32)
    ) by (bit_vector);
}

/// Shifting a 16-bit value left by a SIB scale multiplies it modulo 2^16.
pub proof fn lemma_u16_shl_scale(v: u16)
    ensures
        v << 0u32 == v,
        v << 1u32 == (v * 2) % 0x1_0000,
        v << 2u32 == (v * 4) % 0x1_0000,
        v << 3u32 == (v * 8) % 0x1_0000,
{
    assert(
        (v << 0u32 == v) &&
        (v << 1u32 == (v * 2) % 0x1_0000) &&
        (v << 2u32 == (v * 4) % 0x1_0000) &&
        (v << 3u32 == (v * 8) % 0x1_0000)
    ) by (bit_vector);
}

/// Shifting a 32-bit value left by a SIB scale multiplies it modulo 2^32.
pub proof fn lemma_u32_shl_scale(v: u32)
    ensures
        v << 0u32 == v,
        v << 1u32 == (v * 2) % 0x1_0000_0000,
        v << 2u32 == (v * 4) % 0x1_0000_0000,
        v << 3u32 == (v * 8) % 0x1_0000_0000,
{
    assert(
        (v << 0u32 == v) &&
        (v << 1u32 == (v * 2) % 0x1_0000_0000) &&
        (v << 2u32 == (v * 4) % 0x1_0000_0000) &&
        (v << 3u32 == (v * 8) % 0x1_0000_0000)
    ) by (bit_vector);
}

/// Fields of a 32-bit value read by masks and shifts are its base-2 digits.
pub proof fn lemma_u32_fields(x: u32)
    ensures
        x >> 16u32 == x / 0x1_0000,
        x & 0xffff == x % 0x1_0000,
        x >> 8u32 == x / 0x100,
        x & 0xff == x % 0x100,
        (x >> 8u32) & 0xff == (x / 0x100) % 0x100,
        x >> 24u32 == x / 0x100_0000,
        (x >> 16u32) & 0xff == (x / 0x1_0000) % 0x100,
        x & 1 == x % 2,
        x >> 1u32 == x / 2,
{
    assert(
        (x >> 16u32 == x / 0x1_0000) &&
        (x & 0xffff == x % 0x1_0000) &&
        (x >> 8u32 == x / 0x100) &&
        (x & 0xff == x % 0x100) &&
        ((x >> 8u32) & 0xff == (x / 0x100) % 0x100) &&
        (x >> 24u32 == x / 0x100_0000) &&
        ((x >> 16u32) & 0xff == (x / 0x1_0000) % 0x100) &&
        (x & 1 == x % 2) &&
        (x >> 1u32 == x / 2)
    ) by (bit_vector);
}

/// In a sequence of `u32` in increasing order, an earlier item is the smaller.
pub proof fn lemma_increasing_u32(keys: Seq<u32>, i: int, j: int)
    requires
        increasing_seq(keys),
        0 <= i < j < keys.len(),
    ensures
        keys[i] < keys[j],
{
    broadcast use vstd::std_specs::btree::group_btree_axioms, vstd::laws_cmp::group_laws_cmp;
    assert(keys[i].cmp_spec(&keys[j]) is Less);
}

} // verus!
