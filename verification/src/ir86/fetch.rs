//! Fetching instruction bytes.

use vstd::prelude::*;
use crate::ir86::types::Offset32;

verus! {

/// Little-endian value of two bytes.
pub open spec fn le16(b0: u8, b1: u8) -> u16 {
    (b0 + b1 * 0x100) as u16
}

/// Little-endian value of four bytes.
pub open spec fn le32(b0: u8, b1: u8, b2: u8, b3: u8) -> u32 {
    (le16(b0, b1) + le16(b2, b3) * 0x1_0000) as u32
}

pub proof fn lemma_join16(low: u16, high: u16)
    requires
        low < 0x100,
        high < 0x100,
    ensures
        (high << 8u16) | low == low + high * 0x100,
{
    assert((high << 8u16) | low == low + high * 0x100) by (bit_vector)
        requires
            low < 0x100,
            high < 0x100,
    ;
}

pub proof fn lemma_join32(low: u32, high: u32)
    requires
        low < 0x1_0000,
        high < 0x1_0000,
    ensures
        (high << 16u32) | low == low + high * 0x1_0000,
{
    assert((high << 16u32) | low == low + high * 0x1_0000) by (bit_vector)
        requires
            low < 0x1_0000,
            high < 0x1_0000,
    ;
}

/// Whether a fetcher went from `before` to `after` by reading bytes off its
/// stream: its position moved on by as many bytes as the stream lost, and a
/// reliable one that `failed` stopped at the end of its stream.
pub open spec fn read_on<F: Fetch>(before: F, after: F, failed: bool) -> bool {
    &&& after.position() == before.position() + (before.stream().len() - after.stream().len())
    &&& failed && before.reliable() ==> after.stream().len() == 0
}

/// Trait for fetching instruction bytes from the instruction stream.
///
/// An implementation describes the bytes that its next fetches read as
/// `stream()`, and the address of the next byte as `eip()`.
pub trait Fetch {
    type E;

    /// The bytes that the next fetches read, in order.
    spec fn stream(&self) -> Seq<u8>;

    /// The address of the next byte.
    spec fn eip(&self) -> u32;

    /// Whether a fetch fails only at the end of the stream.
    spec fn reliable(&self) -> bool;

    /// How far the fetcher has read, in bytes from a fixed origin: each byte
    /// fetched moves it on by one.
    spec fn position(&self) -> int;

    /// Fetches an 8-bit value from the instruction stream.
    ///
    /// If returns `Err`, instruction decode will be aborted.
    fn fetch_u8(&mut self) -> (r: Result<u8, Self::E>)
        ensures
            old(self).reliable() && old(self).stream().len() > 0 ==> r is Ok,
            final(self).reliable() == old(self).reliable(),
            r is Ok ==> {
                &&& old(self).stream().len() > 0
                &&& r->Ok_0 == old(self).stream()[0]
                &&& final(self).stream() == old(self).stream().drop_first()
                &&& final(self).eip() == (old(self).eip() + 1) % 0x1_0000_0000
                &&& final(self).position() == old(self).position() + 1
            },
            r is Err ==> final(self).stream() == old(self).stream() && final(self).position() == old(self).position(),
    ;

    /// Returns the current instruction pointer
    ///
    /// Branch instructions may use this to calculate target addresses.
    fn current_eip(&self) -> (r: Offset32)
        ensures
            r.0 == self.eip(),
    ;

    /// Fetches a signed 8-bit value from the instruction stream
    fn fetch_i8(&mut self) -> (r: Result<i8, Self::E>)
        ensures
            final(self).position() == old(self).position() + (old(self).stream().len() - final(self).stream().len()),
            r is Err && old(self).reliable() ==> final(self).stream().len() == 0,
            old(self).reliable() && old(self).stream().len() > 0 ==> r is Ok,
            final(self).reliable() == old(self).reliable(),
            r is Ok ==> {
                &&& old(self).stream().len() > 0
                &&& r->Ok_0 == old(self).stream()[0] as i8
                &&& final(self).stream() == old(self).stream().drop_first()
                &&& final(self).eip() == (old(self).eip() + 1) % 0x1_0000_0000
            },
    {
        let b = self.fetch_u8()?;
        Ok(b as i8)
    }

    /// Fetches a 16-bit value from the instruction stream
    fn fetch_u16(&mut self) -> (r: Result<u16, Self::E>)
        ensures
            final(self).position() == old(self).position() + (old(self).stream().len() - final(self).stream().len()),
            r is Err && old(self).reliable() ==> final(self).stream().len() == 0,
            old(self).reliable() && old(self).stream().len() >= 2 ==> r is Ok,
            final(self).reliable() == old(self).reliable(),
            r is Ok ==> {
                &&& old(self).stream().len() >= 2
                &&& r->Ok_0 == le16(old(self).stream()[0], old(self).stream()[1])
                &&& final(self).stream() == old(self).stream().skip(2)
                &&& final(self).eip() == (old(self).eip() + 2) % 0x1_0000_0000
            },
    {
        let low = self.fetch_u8()? as u16;
        let high = self.fetch_u8()? as u16;
        proof {
            lemma_join16(low, high);
        }
        Ok((high << 8) | low)
    }

    /// Fetches a signed 16-bit value from the instruction stream
    fn fetch_i16(&mut self) -> (r: Result<i16, Self::E>)
        ensures
            final(self).position() == old(self).position() + (old(self).stream().len() - final(self).stream().len()),
            r is Err && old(self).reliable() ==> final(self).stream().len() == 0,
            old(self).reliable() && old(self).stream().len() >= 2 ==> r is Ok,
            final(self).reliable() == old(self).reliable(),
            r is Ok ==> {
                &&& old(self).stream().len() >= 2
                &&& r->Ok_0 == le16(old(self).stream()[0], old(self).stream()[1]) as i16
                &&& final(self).stream() == old(self).stream().skip(2)
                &&& final(self).eip() == (old(self).eip() + 2) % 0x1_0000_0000
            },
    {
        let w = self.fetch_u16()?;
        Ok(w as i16)
    }

    /// Fetches a 32-bit value from the instruction stream
    fn fetch_u32(&mut self) -> (r: Result<u32, Self::E>)
        ensures
            final(self).position() == old(self).position() + (old(self).stream().len() - final(self).stream().len()),
            r is Err && old(self).reliable() ==> final(self).stream().len() == 0,
            old(self).reliable() && old(self).stream().len() >= 4 ==> r is Ok,
            final(self).reliable() == old(self).reliable(),
            r is Ok ==> {
                &&& old(self).stream().len() >= 4
                &&& r->Ok_0 == le32(
                    old(self).stream()[0],
                    old(self).stream()[1],
                    old(self).stream()[2],
                    old(self).stream()[3],
                )
                &&& final(self).stream() == old(self).stream().skip(4)
                &&& final(self).eip() == (old(self).eip() + 4) % 0x1_0000_0000
            },
    {
        let low = self.fetch_u16()? as u32;
        let high = self.fetch_u16()? as u32;
        proof {
            lemma_join32(low, high);
        }
        Ok((high << 16) | low)
    }

    /// Fetches a signed 32-bit value from the instruction stream
    fn fetch_i32(&mut self) -> (r: Result<i32, Self::E>)
        ensures
            final(self).position() == old(self).position() + (old(self).stream().len() - final(self).stream().len()),
            r is Err && old(self).reliable() ==> final(self).stream().len() == 0,
            old(self).reliable() && old(self).stream().len() >= 4 ==> r is Ok,
            final(self).reliable() == old(self).reliable(),
            r is Ok ==> {
                &&& old(self).stream().len() >= 4
                &&& r->Ok_0 == le32(
                    old(self).stream()[0],
                    old(self).stream()[1],
                    old(self).stream()[2],
                    old(self).stream()[3],
                ) as i32
                &&& final(self).stream() == old(self).stream().skip(4)
                &&& final(self).eip() == (old(self).eip() + 4) % 0x1_0000_0000
            },
    {
        let d = self.fetch_u32()?;
        Ok(d as i32)
    }
}

/// A simple fetcher that fetches instruction bytes from a byte slice.
pub struct SimpleFetcher<'a> {
    bytes: &'a [u8],
    base: Offset32,
    pos: usize,
}

impl<'a> SimpleFetcher<'a> {
    /// The bytes the fetcher reads from.
    pub closed spec fn bytes(&self) -> Seq<u8> {
        self.bytes@
    }

    /// The address of the first byte.
    pub closed spec fn base(&self) -> u32 {
        self.base.0
    }

    /// The position of the next byte in `bytes()`.
    pub closed spec fn spec_pos(&self) -> usize {
        self.pos
    }

    /// Creates a new instance of `SimpleFetcher` with the given slice and base address.
    pub fn new(bytes: &'a [u8], base: Offset32) -> (r: Self)
        ensures
            r.bytes() == bytes@,
            r.base() == base.0,
            r.spec_pos() == 0,
    {
        Self { bytes, base, pos: 0 }
    }

    /// Returns the current position in the instruction stream.
    pub fn pos(&self) -> (r: usize)
        ensures
            r == self.spec_pos(),
    {
        self.pos
    }

    /// Sets the current position in the instruction stream.
    pub fn set_pos(&mut self, pos: usize)
        ensures
            final(self).spec_pos() == pos,
            final(self).bytes() == old(self).bytes(),
            final(self).base() == old(self).base(),
    {
        self.pos = pos;
    }
}

impl<'a> Fetch for SimpleFetcher<'a> {
    type E = ();

    open spec fn stream(&self) -> Seq<u8> {
        if self.spec_pos() <= self.bytes().len() {
            self.bytes().skip(self.spec_pos() as int)
        } else {
            Seq::empty()
        }
    }

    open spec fn reliable(&self) -> bool {
        true
    }

    open spec fn position(&self) -> int {
        self.spec_pos() as int
    }

    open spec fn eip(&self) -> u32 {
        ((self.base() + self.spec_pos()) % 0x1_0000_0000) as u32
    }

    fn fetch_u8(&mut self) -> (r: Result<u8, ()>)
        ensures
            r is Err <==> old(self).stream().len() == 0,
            r is Err ==> *final(self) == *old(self),
            r is Ok ==> final(self).spec_pos() == old(self).spec_pos() + 1,
            final(self).bytes() == old(self).bytes(),
            final(self).base() == old(self).base(),
    {
        if self.pos < self.bytes.len() {
            let b = self.bytes[self.pos];
            self.pos = self.pos + 1;
            assert(final(self).stream() =~= old(self).stream().drop_first());
            Ok(b)
        } else {
            Err(())
        }
    }

    fn current_eip(&self) -> (r: Offset32) {
        let p: u32 = (self.pos as u64 % 0x1_0000_0000u64) as u32;
        proof {
            vstd::arithmetic::div_mod::lemma_add_mod_noop(
                self.base.0 as int,
                self.pos as int,
                0x1_0000_0000,
            );
        }
        Offset32(self.base.0.wrapping_add(p))
    }
}

} // verus!
