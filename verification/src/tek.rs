//! TEK decompression
//!
//! TEK is the family of compressed formats of OSASK and Haribote OS
//! executables: a 16-byte header, the decompressed size, and a body in one of
//! three methods (0x83, 0x85 and 0x89).

use vstd::prelude::*;

verus! {

/// The 15 bytes that follow the method byte of every TEK stream:
/// `ff ff ff 01 00 00 00` and "OSASKCMP".
pub open spec fn tek_header() -> Seq<u8> {
    seq![0xffu8, 0xff, 0xff, 0x01, 0x00, 0x00, 0x00, 0x4f, 0x53, 0x41, 0x53, 0x4b, 0x43, 0x4d, 0x50]
}

/// Errors of the TEK decompressor.
#[derive(Debug, Clone, PartialEq, Eq)]
pub enum TekError {
    InvalidFormat,
    UnsupportedMethod(u8),
    UnexpectedEof,
    InvalidDataSize,
    CorruptData(&'static str),
}

impl TekError {
    /// A description of the error.
    pub fn message(&self) -> (r: String)
        ensures
            r@ == (match self {
                TekError::InvalidFormat => "invalid TEK header or stream"@,
                TekError::UnsupportedMethod(_) => "unsupported TEK method"@,
                TekError::UnexpectedEof => "unexpected end of input"@,
                TekError::InvalidDataSize => "invalid decompressed size"@,
                TekError::CorruptData(message) => message@,
            }),
    {
        match self {
            TekError::InvalidFormat => "invalid TEK header or stream".to_owned(),
            TekError::UnsupportedMethod(_) => "unsupported TEK method".to_owned(),
            TekError::UnexpectedEof => "unexpected end of input".to_owned(),
            TekError::InvalidDataSize => "invalid decompressed size".to_owned(),
            TekError::CorruptData(message) => (*message).to_owned(),
        }
    }
}

/// Whether `method` is one of the three TEK methods.
pub open spec fn is_tek_method(method: u8) -> bool {
    method == 0x83 || method == 0x85 || method == 0x89
}

/// The number in "s7s" form that starts at `c` of `input`, continuing from the
/// bits `acc` already read, and where it ends: seven bits per byte, most
/// significant first, the number shifted left by one and its last byte's low
/// bit set. `None` when the input ends first.
pub open spec fn s7s(input: Seq<u8>, c: int, acc: usize) -> Option<(usize, int)>
    decreases input.len() - c,
{
    if c < 0 || c >= input.len() {
        None
    } else {
        let v = (acc << 7usize) | (input[c] as usize);
        if v & 1 != 0 {
            Some((v >> 1usize, c + 1))
        } else {
            s7s(input, c + 1, v)
        }
    }
}

/// The size that a TEK stream declares, or why it cannot be read.
pub open spec fn spec_getsize(input: Seq<u8>) -> Result<usize, TekError> {
    if input.len() < 16 {
        Err(TekError::UnexpectedEof)
    } else if !is_tek_method(input[0]) {
        Err(TekError::UnsupportedMethod(input[0]))
    } else if input.subrange(1, 16) != tek_header() {
        Err(TekError::InvalidFormat)
    } else {
        match s7s(input, 16, 0) {
            Some((v, _)) => Ok(v),
            None => Err(TekError::UnexpectedEof),
        }
    }
}

/// Whether bytes 1 to 15 of `input` are the TEK header.
fn header_matches(input: &[u8]) -> (r: bool)
    requires
        input.len() >= 16,
    ensures
        r == (input@.subrange(1, 16) == tek_header()),
{
    let header: [u8; 15] = [
        0xff, 0xff, 0xff, 0x01, 0x00, 0x00, 0x00, 0x4f, 0x53, 0x41, 0x53, 0x4b, 0x43, 0x4d, 0x50,
    ];
    assert(header@ == tek_header());
    let mut i: usize = 0;
    while i < 15
        invariant
            i <= 15,
            input.len() >= 16,
            header@ == tek_header(),
            forall|j: int| 0 <= j < i ==> input@[j + 1] == tek_header()[j],
        decreases 15 - i,
    {
        if input[i + 1] != header[i] {
            assert(input@.subrange(1, 16)[i as int] != tek_header()[i as int]);
            return false;
        }
        i = i + 1;
    }
    assert(input@.subrange(1, 16) =~= tek_header());
    true
}

/// Returns the size of the data that a TEK stream decompresses to.
pub fn tek_getsize(input: &[u8]) -> (r: Result<usize, TekError>)
    ensures
        r == spec_getsize(input@),
{
    if input.len() < 16 {
        return Err(TekError::UnexpectedEof);
    }
    let method = input[0];
    if !(method == 0x83 || method == 0x85 || method == 0x89) {
        return Err(TekError::UnsupportedMethod(method));
    }
    if !header_matches(input) {
        return Err(TekError::InvalidFormat);
    }
    let mut cursor: usize = 16;
    getnum_s7s(input, &mut cursor)
}

/// The executable that `input` holds: decompressed where it is a TEK stream,
/// as it is otherwise.
pub fn unpack(input: Vec<u8>) -> (r: Result<Vec<u8>, TekError>)
    ensures
        spec_getsize(input@) is Err ==> (r matches Ok(v) && v@ == input@),
        spec_getsize(input@) is Ok ==> tek_decompressed(input@, r),
{
    match tek_getsize(input.as_slice()) {
        Ok(_) => tek_decomp(input.as_slice()),
        Err(_) => Ok(input),
    }
}

/// Decompresses a TEK stream.
pub fn tek_decomp(input: &[u8]) -> (r: Result<Vec<u8>, TekError>)
    ensures
        tek_decompressed(input@, r),
{
    let size = tek_getsize(input)?;
    let method = input[0];
    match method {
        0x83 => decode1(input, size),
        0x85 => decode2(input, size),
        _ => decode5(input, size),
    }
}

/// Checks the method byte and the header, and returns where the body starts.
fn ensure_header(input: &[u8], method: u8) -> (r: Result<usize, TekError>)
    ensures
        input.len() < 16 ==> r == Err::<usize, TekError>(TekError::UnexpectedEof),
        input.len() >= 16 ==> r == (if input@[0] == method && input@.subrange(1, 16) == tek_header() {
            Ok::<usize, TekError>(16)
        } else {
            Err(TekError::InvalidFormat)
        }),
{
    if input.len() < 16 {
        return Err(TekError::UnexpectedEof);
    }
    if input[0] != method || !header_matches(input) {
        return Err(TekError::InvalidFormat);
    }
    Ok(16)
}

/// Reads a number in "s7s" form at `cursor`, and moves `cursor` past it.
fn getnum_s7s(input: &[u8], cursor: &mut usize) -> (r: Result<usize, TekError>)
    ensures
        match s7s(input@, *old(cursor) as int, 0) {
            Some((v, c)) => r == Ok::<usize, TekError>(v) && *final(cursor) == c,
            None => r == Err::<usize, TekError>(TekError::UnexpectedEof),
        },
        r is Ok ==> *old(cursor) < *final(cursor) <= input.len(),
        *final(cursor) >= *old(cursor),
{
    s7s_from(input, cursor, 0)
}

/// Reads the rest of a number in "s7s" form at `cursor`, after the bits
/// `acc` already read, and moves `cursor` past it.
fn s7s_from(input: &[u8], cursor: &mut usize, acc: usize) -> (r: Result<usize, TekError>)
    ensures
        match s7s(input@, *old(cursor) as int, acc) {
            Some((v, c)) => r == Ok::<usize, TekError>(v) && *final(cursor) == c,
            None => r == Err::<usize, TekError>(TekError::UnexpectedEof),
        },
        r is Ok ==> *old(cursor) < *final(cursor) <= input.len(),
        *final(cursor) >= *old(cursor),
{
    let mut value: usize = acc;
    let ghost c0 = *cursor as int;
    let ghost v0 = acc;
    loop
        invariant
            c0 == *old(cursor) as int,
            v0 == acc,
            s7s(input@, c0, v0) == s7s(input@, *cursor as int, value),
            *cursor >= *old(cursor),
        decreases input.len() - *cursor,
    {
        if *cursor >= input.len() {
            return Err(TekError::UnexpectedEof);
        }
        let byte = input[*cursor] as usize;
        *cursor += 1;
        value = (value << 7) | byte;
        if (value & 1) != 0 {
            return Ok(value >> 1);
        }
    }
}

/// The number in "s7" form that starts at `c` of `input`: like "s7s", with
/// the offsets of the shorter forms added (`b`, and `a` the weight of the next
/// byte), so that each number has one form. `Err` when the input ends first or
/// the offset overflows.
pub open spec fn s7(input: Seq<u8>, c: int, s: usize, b: usize, a: usize) -> Result<(usize, int), TekError>
    decreases input.len() - c,
{
    if c < 0 || c >= input.len() {
        Err(TekError::UnexpectedEof)
    } else {
        let s2 = (s << 7usize) | (input[c] as usize);
        if s2 & 1 != 0 {
            if (s2 >> 1usize) + b > usize::MAX {
                Err(TekError::InvalidDataSize)
            } else {
                Ok((((s2 >> 1usize) + b) as usize, c + 1))
            }
        } else {
            let a2 = a << 7usize;
            if b + a2 > usize::MAX {
                Err(TekError::InvalidDataSize)
            } else {
                s7(input, c + 1, s2, (b + a2) as usize, a2)
            }
        }
    }
}

/// Reads a number in "s7" form at `cursor`, and moves `cursor` past it.
fn getnum_s7(input: &[u8], cursor: &mut usize) -> (r: Result<usize, TekError>)
    ensures
        match s7(input@, *old(cursor) as int, 0, 0, 1) {
            Ok((v, c)) => r == Ok::<usize, TekError>(v) && *final(cursor) == c,
            Err(e) => r == Err::<usize, TekError>(e),
        },
        r is Ok ==> *old(cursor) < *final(cursor) <= input.len(),
        *final(cursor) >= *old(cursor),
{
    let mut s: usize = 0;
    let mut b: usize = 0;
    let mut a: usize = 1;
    let ghost c0 = *cursor as int;
    loop
        invariant
            c0 == *old(cursor) as int,
            s7(input@, c0, 0, 0, 1) == s7(input@, *cursor as int, s, b, a),
            *cursor >= *old(cursor),
        decreases input.len() - *cursor,
    {
        if *cursor >= input.len() {
            return Err(TekError::UnexpectedEof);
        }
        let byte = input[*cursor] as usize;
        *cursor += 1;
        s = (s << 7) | byte;
        if (s & 1) != 0 {
            return match (s >> 1).checked_add(b) {
                Some(v) => Ok(v),
                None => Err(TekError::InvalidDataSize),
            };
        }
        a = a << 7;
        b = match b.checked_add(a) {
            Some(v) => v,
            None => return Err(TekError::InvalidDataSize),
        };
    }
}

/// The body size of a method-1 or method-2 stream: `2^(8 + (hed >> 1) % 16)`.
fn block_size(hed: usize) -> (r: usize)
    ensures
        r == vstd::arithmetic::power2::pow2((8 + (hed / 2) % 16) as nat),
{
    let low = (hed >> 1) & 0x0f;
    assert(low <= 15) by (bit_vector)
        requires
            low == (hed >> 1usize) & 0x0f,
    ;
    let shift = low + 8;
    proof {
        assert(((hed >> 1usize) & 0x0f) == (hed / 2) % 16) by (bit_vector);
        vstd::arithmetic::power2::lemma2_to64();
        vstd::arithmetic::power2::lemma_pow2_strictly_increases(shift as nat, 32);
        vstd::bits::lemma_usize_shl_is_mul(1, shift);
    }
    1usize << shift
}

/// The decompressed bytes of a method-1 stream that declares `output_size`
/// bytes, or why it cannot be decompressed: after the header, the size again,
/// the block header, an optional number, a zero, then the body.
pub open spec fn tek1_decoded(input: Seq<u8>, output_size: usize) -> Result<Seq<u8>, TekError> {
    if input.len() < 16 {
        Err(TekError::UnexpectedEof)
    } else if !(input[0] == 0x83 && input.subrange(1, 16) == tek_header()) {
        Err(TekError::InvalidFormat)
    } else {
        match s7s(input, 16, 0) {
            None => Err(TekError::UnexpectedEof),
            Some((dsiz, c1)) => if dsiz != output_size {
                Err(TekError::InvalidDataSize)
            } else if dsiz == 0 {
                Ok(Seq::empty())
            } else {
                match s7s(input, c1, 0) {
                    None => Err(TekError::UnexpectedEof),
                    Some((hed, c2)) => if dsiz > vstd::arithmetic::power2::pow2((8 + (hed / 2) % 16) as nat)
                        || (hed & 0x21) != 0x01 {
                        Err(TekError::CorruptData("invalid TEK1 header"))
                    } else {
                        let c3: Option<int> = if (hed & 0x40) != 0 {
                            match s7s(input, c2, 0) {
                                Some((_, c)) => Some(c),
                                None => None,
                            }
                        } else {
                            Some(c2)
                        };
                        match c3 {
                            None => Err(TekError::UnexpectedEof),
                            Some(c) => match s7s(input, c, 0) {
                                None => Err(TekError::UnexpectedEof),
                                Some((aux, c4)) => if aux != 0 {
                                    Err(TekError::CorruptData("unsupported TEK1 auxiliary buffer"))
                                } else if c4 > input.len() {
                                    Err(TekError::UnexpectedEof)
                                } else {
                                    stk1_rounds(input.subrange(c4, input.len() as int), 0, Seq::empty(), dsiz)
                                },
                            },
                        }
                    },
                }
            },
        }
    }
}

/// Decompresses a method-1 stream of `output_size` bytes.
fn decode1(input: &[u8], output_size: usize) -> (r: Result<Vec<u8>, TekError>)
    ensures
        r is Ok ==> r->Ok_0.len() == output_size,
        match tek1_decoded(input@, output_size) {
            Ok(o) => r matches Ok(v) && v@ == o,
            Err(e) => r == Err::<Vec<u8>, TekError>(e),
        },
{
    let mut cursor = ensure_header(input, 0x83)?;
    let dsiz = getnum_s7s(input, &mut cursor)?;
    if dsiz != output_size {
        return Err(TekError::InvalidDataSize);
    }
    if dsiz == 0 {
        return Ok(Vec::new());
    }
    let hed = getnum_s7s(input, &mut cursor)?;
    let bsiz = block_size(hed);
    if dsiz > bsiz || (hed & 0x21) != 0x01 {
        return Err(TekError::CorruptData("invalid TEK1 header"));
    }
    if (hed & 0x40) != 0 {
        let _ = getnum_s7s(input, &mut cursor)?;
    }
    if getnum_s7s(input, &mut cursor)? != 0 {
        return Err(TekError::CorruptData("unsupported TEK1 auxiliary buffer"));
    }
    if cursor > input.len() {
        return Err(TekError::UnexpectedEof);
    }
    lzrestore_stk1(slice_from(input, cursor), dsiz)
}

/// The decompressed bytes of a method-2 stream that declares `output_size`
/// bytes, or why it cannot be decompressed: after the header, the size again,
/// the block header, an optional number, then the body.
pub open spec fn tek2_decoded(input: Seq<u8>, output_size: usize) -> Result<Seq<u8>, TekError> {
    if input.len() < 16 {
        Err(TekError::UnexpectedEof)
    } else if !(input[0] == 0x85 && input.subrange(1, 16) == tek_header()) {
        Err(TekError::InvalidFormat)
    } else {
        match s7s(input, 16, 0) {
            None => Err(TekError::UnexpectedEof),
            Some((dsiz, c1)) => if dsiz != output_size {
                Err(TekError::InvalidDataSize)
            } else if dsiz == 0 {
                Ok(Seq::empty())
            } else {
                match s7s(input, c1, 0) {
                    None => Err(TekError::UnexpectedEof),
                    Some((hed, c2)) => if dsiz > vstd::arithmetic::power2::pow2((8 + (hed / 2) % 16) as nat)
                        || (hed & 0x21) != 0x01 {
                        Err(TekError::CorruptData("invalid TEK2 header"))
                    } else {
                        let c3: Option<int> = if (hed & 0x40) != 0 {
                            match s7s(input, c2, 0) {
                                Some((_, c)) => Some(c),
                                None => None,
                            }
                        } else {
                            Some(c2)
                        };
                        match c3 {
                            None => Err(TekError::UnexpectedEof),
                            Some(c) => if c > input.len() {
                                Err(TekError::UnexpectedEof)
                            } else {
                                stk2_body(input.subrange(c, input.len() as int), dsiz)
                            },
                        }
                    },
                }
            },
        }
    }
}

/// Decompresses a method-2 stream of `output_size` bytes.
fn decode2(input: &[u8], output_size: usize) -> (r: Result<Vec<u8>, TekError>)
    ensures
        r is Ok ==> r->Ok_0.len() == output_size,
        match tek2_decoded(input@, output_size) {
            Ok(o) => r matches Ok(v) && v@ == o,
            Err(e) => r == Err::<Vec<u8>, TekError>(e),
        },
{
    let mut cursor = ensure_header(input, 0x85)?;
    let dsiz = getnum_s7s(input, &mut cursor)?;
    if dsiz != output_size {
        return Err(TekError::InvalidDataSize);
    }
    if dsiz == 0 {
        return Ok(Vec::new());
    }
    let hed = getnum_s7s(input, &mut cursor)?;
    let bsiz = block_size(hed);
    if dsiz > bsiz || (hed & 0x21) != 0x01 {
        return Err(TekError::CorruptData("invalid TEK2 header"));
    }
    if (hed & 0x40) != 0 {
        let _ = getnum_s7s(input, &mut cursor)?;
    }
    if cursor > input.len() {
        return Err(TekError::UnexpectedEof);
    }
    lzrestore_stk2(slice_from(input, cursor), dsiz)
}

/// Whether `r` agrees with what the start of a method-5 stream `input` of
/// `output_size` bytes decides: its header and size errors, an empty output,
/// and the errors of its properties.
pub open spec fn tek5_checked(input: Seq<u8>, output_size: usize, r: Result<Vec<u8>, TekError>) -> bool {
    &&& tek5_start(input, output_size) matches Err(e) ==> r == Err::<Vec<u8>, TekError>(e)
    &&& tek5_start(input, output_size) matches Ok(None) ==> r matches Ok(v) && v@.len() == 0
    &&& tek5_start(input, output_size) matches Ok(Some(st)) ==> {
        let body = input.subrange(st, input.len() as int);
        &&& tek5_props(body) is Err ==> r == Err::<Vec<u8>, TekError>(tek5_props(body)->Err_0)
        &&& (tek5_props(body) is Ok && body.len() - tek5_props(body)->Ok_0.0 < 4)
            ==> r == Err::<Vec<u8>, TekError>(TekError::UnexpectedEof)
    }
}

/// Whether `r` is what decompressing the TEK stream `input` gives, as far as
/// it is stated: for methods 1 and 2 the output or error itself, for method
/// 5 its start and the output's length.
pub open spec fn tek_decompressed(input: Seq<u8>, r: Result<Vec<u8>, TekError>) -> bool {
    &&& spec_getsize(input) is Err ==> r == Err::<Vec<u8>, TekError>(spec_getsize(input)->Err_0)
    &&& r is Ok ==> spec_getsize(input) is Ok && r->Ok_0.len() == spec_getsize(input)->Ok_0
    &&& spec_getsize(input) is Ok && input[0] == 0x83 ==> match tek1_decoded(input, spec_getsize(input)->Ok_0) {
        Ok(o) => r matches Ok(v) && v@ == o,
        Err(e) => r == Err::<Vec<u8>, TekError>(e),
    }
    &&& spec_getsize(input) is Ok && input[0] == 0x85 ==> match tek2_decoded(input, spec_getsize(input)->Ok_0) {
        Ok(o) => r matches Ok(v) && v@ == o,
        Err(e) => r == Err::<Vec<u8>, TekError>(e),
    }
    &&& spec_getsize(input) is Ok && input[0] == 0x89 ==> tek5_checked(input, spec_getsize(input)->Ok_0, r)
}

/// Decompresses a method-5 stream of `output_size` bytes.
fn decode5(input: &[u8], output_size: usize) -> (r: Result<Vec<u8>, TekError>)
    ensures
        r is Ok ==> r->Ok_0.len() == output_size,
        tek5_checked(input@, output_size, r),
{
    let mut cursor = ensure_header(input, 0x89)?;
    let dsiz = getnum_s7s(input, &mut cursor)?;
    if dsiz != output_size {
        return Err(TekError::InvalidDataSize);
    }
    if dsiz == 0 {
        return Ok(Vec::new());
    }
    let hed_end_before = cursor;
    let hed = getnum_s7s(input, &mut cursor)?;
    if (hed & 1) == 0 {
        if cursor == 0 || cursor > input.len() {
            return Err(TekError::CorruptData("invalid TEK5 header state"));
        }
        return lzrestore_tek5(slice_from(input, cursor - 1), dsiz);
    }
    let bsiz = block_size(hed);
    if (hed & 0x20) != 0 {
        return Err(TekError::CorruptData("unsupported TEK5 mode"));
    }
    if cursor > input.len() {
        return Err(TekError::UnexpectedEof);
    }
    if bsiz == 256 {
        return lzrestore_tek5(slice_from(input, cursor), dsiz);
    }
    if dsiz > bsiz {
        return Err(TekError::InvalidDataSize);
    }
    if (hed & 0x40) != 0 {
        let _ = getnum_s7s(input, &mut cursor)?;
    }
    if hed_end_before > input.len() || cursor > input.len() {
        return Err(TekError::UnexpectedEof);
    }
    lzrestore_tek5(slice_from(input, cursor), dsiz)
}

/// The bytes of `input` from `start` on.
fn slice_from(input: &[u8], start: usize) -> (r: &[u8])
    requires
        start <= input.len(),
    ensures
        r@ == input@.subrange(start as int, input.len() as int),
{
    vstd::slice::slice_subrange(input, start, input.len())
}

/// Reads the byte at `cursor` and moves past it.
fn next_byte(src: &[u8], cursor: &mut usize) -> (r: Result<u8, TekError>)
    ensures
        *old(cursor) < src.len() ==> r == Ok::<u8, TekError>(src@[*old(cursor) as int])
            && *final(cursor) == *old(cursor) + 1,
        *old(cursor) >= src.len() ==> r == Err::<u8, TekError>(TekError::UnexpectedEof)
            && *final(cursor) == *old(cursor),
{
    if *cursor >= src.len() {
        return Err(TekError::UnexpectedEof);
    }
    let b = src[*cursor];
    *cursor += 1;
    Ok(b)
}

/// Reads one match of a method-1 stream at `cursor` and appends it to `out`.
fn stk1_copy(src: &[u8], cursor: &mut usize, out: &mut Vec<u8>, output_size: usize) -> (r: Result<(), TekError>)
    requires
        old(out).len() <= output_size,
    ensures
        final(out).len() <= output_size,
        *final(cursor) >= *old(cursor),
        r is Ok ==> *final(cursor) <= src.len(),
        match stk1_match(src@, *old(cursor) as int, old(out)@, output_size) {
            Ok((o, c)) => r is Ok && final(out)@ == o && *final(cursor) == c,
            Err(e) => r == Err::<(), TekError>(e),
        },
{
    let token = next_byte(src, cursor)? as usize;
    let cp = token >> 4;
    let ds = token & 0x0f;
    let ds = if (ds & 1) == 0 { s7s_from(src, cursor, ds)? } else { ds >> 1 };
    let distance = !(ds as i32);
    let cp = if cp == 0 { getnum_s7s(src, cursor)? } else { cp };
    copy_match(out, distance, cp.wrapping_add(1), output_size)
}

/// Decompresses a method-1 body of `output_size` bytes: runs of literals
/// and matches, each count in the token's nibbles or in "s7s" form after it.
fn lzrestore_stk1(src: &[u8], output_size: usize) -> (r: Result<Vec<u8>, TekError>)
    ensures
        r is Ok ==> r->Ok_0.len() == output_size,
        match stk1_rounds(src@, 0, Seq::empty(), output_size) {
            Ok(o) => r matches Ok(v) && v@ == o,
            Err(e) => r == Err::<Vec<u8>, TekError>(e),
        },
{
    let mut cursor: usize = 0;
    let mut out: Vec<u8> = Vec::new();
    let ghost total = stk1_rounds(src@, 0, Seq::empty(), output_size);
    assert(out@ == Seq::<u8>::empty());

    while out.len() < output_size
        invariant
            out.len() <= output_size,
            cursor <= src.len(),
            total == stk1_rounds(src@, 0, Seq::empty(), output_size),
            total == stk1_rounds(src@, cursor as int, out@, output_size),
        ensures
            out.len() == output_size,
            total == Ok::<Seq<u8>, TekError>(out@),
        decreases src.len() - cursor,
    {
        let c0 = cursor;
        let ghost out0 = out@;
        let token = next_byte(src, &mut cursor)? as usize;
        let mut by = token & 0x0f;
        let mut lz = token >> 4;
        if by == 0 {
            by = getnum_s7s(src, &mut cursor)?;
        }
        if lz == 0 {
            lz = getnum_s7s(src, &mut cursor)?;
        }
        let ghost c2 = cursor as int;
        let ghost lit = literals(src@, c2, out0, output_size, by as nat);
        assert(total == stk1_tail(src@, c0 as int, c2, out0, output_size, by as nat, lz as nat));
        let mut i: usize = 0;
        while i < by
            invariant
                out.len() <= output_size,
                cursor <= src.len(),
                i <= by,
                lit == literals(src@, cursor as int, out@, output_size, (by - i) as nat),
                lit == literals(src@, c2, out0, output_size, by as nat),
                total == stk1_rounds(src@, 0, Seq::empty(), output_size),
                total == stk1_tail(src@, c0 as int, c2, out0, output_size, by as nat, lz as nat),
            decreases by - i,
        {
            let byte = next_byte(src, &mut cursor)?;
            if out.len() >= output_size {
                return Err(TekError::CorruptData("literal run exceeds output buffer"));
            }
            out.push(byte);
            i += 1;
        }
        if out.len() >= output_size {
            break;
        }
        let ghost c3 = cursor as int;
        let ghost out3 = out@;
        assert(lit == Ok::<(Seq<u8>, int), TekError>((out3, c3)));
        let ghost mat = stk1_matches(src@, c3, out3, output_size, lz as nat);
        let mut i: usize = 0;
        while i < lz
            invariant
                out.len() <= output_size,
                cursor <= src.len(),
                i <= lz,
                mat == stk1_matches(src@, cursor as int, out@, output_size, (lz - i) as nat),
                mat == stk1_matches(src@, c3, out3, output_size, lz as nat),
                out3.len() < output_size,
                literals(src@, c2, out0, output_size, by as nat) == Ok::<(Seq<u8>, int), TekError>((out3, c3)),
                total == stk1_rounds(src@, 0, Seq::empty(), output_size),
                total == stk1_tail(src@, c0 as int, c2, out0, output_size, by as nat, lz as nat),
            decreases lz - i,
        {
            stk1_copy(src, &mut cursor, &mut out, output_size)?;
            i += 1;
        }
        if cursor <= c0 || cursor > src.len() {
            return Err(TekError::UnexpectedEof);
        }
    }
    Ok(out)
}

/// The next flag bit of a method-2 stream at `c`, where `bylz` holds the
/// `cbylz` flag bits left of the last flag byte (low bit first): the bit, and
/// where the stream and the flag bits are after it.
pub open spec fn flag_bit(src: Seq<u8>, c: int, bylz: u8, cbylz: nat) -> Result<(bool, int, u8, nat), TekError> {
    if cbylz == 0 {
        if c < 0 || c >= src.len() {
            Err(TekError::UnexpectedEof)
        } else {
            Ok((src[c] & 1 != 0, c + 1, src[c] >> 1u8, 7))
        }
    } else {
        Ok((bylz & 1 != 0, c, bylz >> 1u8, (cbylz - 1) as nat))
    }
}

/// Reads one bit of the literal/match flags, refilling the flag byte from
/// `src` when it is used up.
fn next_flag(src: &[u8], cursor: &mut usize, bylz: &mut u8, cbylz: &mut usize) -> (r: Result<bool, TekError>)
    requires
        *old(cbylz) <= 8,
        *old(cursor) <= src.len(),
    ensures
        *final(cbylz) <= 8,
        *final(cursor) >= *old(cursor),
        *final(cursor) <= src.len(),
        match flag_bit(src@, *old(cursor) as int, *old(bylz), *old(cbylz) as nat) {
            Ok((b, c, by, cb)) => r == Ok::<bool, TekError>(b) && *final(cursor) == c && *final(bylz) == by
                && *final(cbylz) == cb,
            Err(e) => r == Err::<bool, TekError>(e),
        },
{
    if *cbylz == 0 {
        *bylz = next_byte(src, &mut *cursor)?;
        *cbylz = 8;
    }
    *cbylz -= 1;
    let bit = *bylz & 1;
    *bylz = *bylz >> 1;
    Ok(bit != 0)
}

/// The run length of a method-2 stream, counting on from `j` ones already
/// read: each flag bit 0 adds one, up to 16; a flag bit 1 ends the count; past
/// 16 the rest follows in "s7s" form. With where the stream and the flag bits
/// are after it.
pub open spec fn run_len(src: Seq<u8>, c: int, bylz: u8, cbylz: nat, j: nat) -> Result<(usize, int, u8, nat), TekError>
    decreases 17 - j,
{
    let j1 = j + 1;
    if j1 >= 17 {
        match s7s(src, c, 0) {
            Some((e, c2)) => if j1 + e > usize::MAX {
                Err(TekError::InvalidDataSize)
            } else {
                Ok(((j1 + e) as usize, c2, bylz, cbylz))
            },
            None => Err(TekError::UnexpectedEof),
        }
    } else {
        match flag_bit(src, c, bylz, cbylz) {
            Err(e) => Err(e),
            Ok((true, c2, b2, cb2)) => Ok((j1 as usize, c2, b2, cb2)),
            Ok((false, c2, b2, cb2)) => run_len(src, c2, b2, cb2, j1),
        }
    }
}

/// Reads a run length of method 2: up to 16 in unary in the flag bits,
/// the rest in "s7s" form.
fn run_length(src: &[u8], cursor: &mut usize, bylz: &mut u8, cbylz: &mut usize) -> (r: Result<usize, TekError>)
    requires
        *old(cbylz) <= 8,
        *old(cursor) <= src.len(),
    ensures
        *final(cbylz) <= 8,
        *final(cursor) >= *old(cursor),
        r is Ok ==> r->Ok_0 >= 1 && *final(cursor) <= src.len(),
        match run_len(src@, *old(cursor) as int, *old(bylz), *old(cbylz) as nat, 0) {
            Ok((n, c, by, cb)) => r == Ok::<usize, TekError>(n) && *final(cursor) == c && *final(bylz) == by
                && *final(cbylz) == cb,
            Err(e) => r == Err::<usize, TekError>(e),
        },
{
    let mut j: usize = 0;
    loop
        invariant
            *cbylz <= 8,
            *cursor >= *old(cursor),
            *cursor <= src.len(),
            j <= 16,
            run_len(src@, *old(cursor) as int, *old(bylz), *old(cbylz) as nat, 0)
                == run_len(src@, *cursor as int, *bylz, *cbylz as nat, j as nat),
        decreases 17 - j,
    {
        j += 1;
        if j >= 17 {
            let extra = getnum_s7s(src, &mut *cursor)?;
            return match j.checked_add(extra) {
                Some(v) => Ok(v),
                None => Err(TekError::InvalidDataSize),
            };
        }
        if next_flag(src, &mut *cursor, &mut *bylz, &mut *cbylz)? {
            return Ok(j);
        }
    }
}

/// The four last distances after a match with `token` at `distance`: a
/// token of 0 reuses the last distance; a token of `k` brings distance `k`
/// to the front, a new distance goes in front of all.
pub open spec fn pushed_distances(rd: Seq<i32>, token: usize, distance: i32) -> Seq<i32> {
    if token == 0 {
        rd
    } else if token == 1 {
        seq![distance, rd[0], rd[2], rd[3]]
    } else if token == 2 {
        seq![distance, rd[0], rd[1], rd[3]]
    } else {
        seq![distance, rd[0], rd[1], rd[2]]
    }
}

/// Puts `distance` in front of the four last distances, as `token` says.
fn push_distance(repdis: &mut [i32; 4], token: usize, distance: i32)
    ensures
        final(repdis)@ == pushed_distances(old(repdis)@, token, distance),
{
    if token > 0 {
        if token > 1 {
            if token > 2 {
                repdis[3] = repdis[2];
            }
            repdis[2] = repdis[1];
        }
        repdis[1] = repdis[0];
        repdis[0] = distance;
    }
    assert(repdis@ =~= pushed_distances(old(repdis)@, token, distance));
}

/// Reads one match of a method-2 stream at `cursor` and appends it to
/// `out`; `repdis` holds the four last distances.
fn stk2_copy(src: &[u8], cursor: &mut usize, out: &mut Vec<u8>, output_size: usize, repdis: &mut [i32; 4]) -> (r: Result<(), TekError>)
    requires
        old(out).len() <= output_size,
    ensures
        final(out).len() <= output_size,
        *final(cursor) >= *old(cursor),
        r is Ok ==> *final(cursor) <= src.len(),
        match stk2_match(src@, *old(cursor) as int, old(out)@, output_size, old(repdis)@) {
            Ok((o, c, rd)) => r is Ok && final(out)@ == o && *final(cursor) == c && final(repdis)@ == rd,
            Err(e) => r == Err::<(), TekError>(e),
        },
{
    let mut token = next_byte(src, cursor)? as usize;
    let mut cp = token >> 4;
    token = token & 0x0f;
    if (token & 1) == 0 {
        let n = getnum_s7(src, cursor)?;
        token = token | (n.wrapping_add(1) << 4);
    }
    token = token >> 1;

    let mut distance: i32 = !((token as i32).wrapping_sub(6));
    if token < 4 {
        distance = repdis[token];
    }
    if token == 4 {
        let n = getnum_s7(src, cursor)?;
        distance = repdis[0].wrapping_sub(n as i32).wrapping_sub(1);
    }
    if token == 5 {
        let n = getnum_s7(src, cursor)?;
        distance = repdis[0].wrapping_add(n as i32).wrapping_add(1);
    }
    if cp == 0 {
        cp = getnum_s7(src, cursor)?.wrapping_add(16);
    }
    cp = cp.wrapping_add(1);

    push_distance(repdis, token, distance);
    copy_match(out, distance, cp, output_size)
}

/// Decompresses a method-2 body of `output_size` bytes: flag bits give the
/// run lengths; matches name their distance directly or by one of the four
/// last distances.
fn lzrestore_stk2(src: &[u8], output_size: usize) -> (r: Result<Vec<u8>, TekError>)
    ensures
        r is Ok ==> r->Ok_0.len() == output_size,
        match stk2_body(src@, output_size) {
            Ok(o) => r matches Ok(v) && v@ == o,
            Err(e) => r == Err::<Vec<u8>, TekError>(e),
        },
{
    let mut cursor: usize = 0;
    let mut out: Vec<u8> = Vec::new();
    let mut repdis: [i32; 4] = [-1, -2, -3, -4];
    let mut bylz: u8 = 0;
    let mut cbylz: usize = 0;

    if output_size == 0 {
        return Ok(out);
    }
    if getnum_s7s(src, &mut cursor)? != 0 {
        return Err(TekError::CorruptData("unsupported TEK2 prefix"));
    }
    let ghost total = stk2_body(src@, output_size);
    assert(repdis@ == seq![-1i32, -2i32, -3i32, -4i32]);
    assert(out@ == Seq::<u8>::empty());

    while out.len() < output_size
        invariant
            out.len() <= output_size,
            cbylz <= 8,
            cursor <= src.len(),
            total == stk2_body(src@, output_size),
            total == stk2_rounds(src@, cursor as int, bylz, cbylz as nat, out@, output_size, repdis@),
        ensures
            out.len() == output_size,
            total == Ok::<Seq<u8>, TekError>(out@),
        decreases src.len() - cursor,
    {
        let c0 = cursor;
        let ghost out0 = out@;
        let ghost rd0 = repdis@;
        let ghost b0 = bylz;
        let ghost cb0 = cbylz as nat;
        let j = run_length(src, &mut cursor, &mut bylz, &mut cbylz)?;
        let ghost c1 = cursor as int;
        let ghost b1 = bylz;
        let ghost cb1 = cbylz as nat;
        let ghost lit = literals(src@, c1, out0, output_size, j as nat);
        let mut i: usize = 0;
        while i < j
            invariant
                out.len() <= output_size,
                cbylz <= 8,
                cursor <= src.len(),
                i <= j,
                lit == literals(src@, cursor as int, out@, output_size, (j - i) as nat),
                lit == literals(src@, c1, out0, output_size, j as nat),
                out0.len() < output_size,
                total == stk2_body(src@, output_size),
                total == stk2_rounds(src@, c0 as int, b0, cb0, out0, output_size, rd0),
                run_len(src@, c0 as int, b0, cb0, 0) == Ok::<(usize, int, u8, nat), TekError>((j, c1, b1, cb1)),
                bylz == b1,
                cbylz == cb1,
                repdis@ == rd0,
            decreases j - i,
        {
            let byte = next_byte(src, &mut cursor)?;
            if out.len() >= output_size {
                return Err(TekError::CorruptData("literal run exceeds output buffer"));
            }
            out.push(byte);
            i += 1;
        }
        if out.len() >= output_size {
            break;
        }
        let ghost c2 = cursor as int;
        let ghost out2 = out@;
        assert(lit == Ok::<(Seq<u8>, int), TekError>((out2, c2)));
        let lz_count = run_length(src, &mut cursor, &mut bylz, &mut cbylz)?;
        let ghost c3 = cursor as int;
        let ghost b3 = bylz;
        let ghost cb3 = cbylz as nat;
        let ghost mat = stk2_matches(src@, c3, out2, output_size, rd0, lz_count as nat);
        let mut i: usize = 0;
        while i < lz_count
            invariant
                out.len() <= output_size,
                cbylz <= 8,
                cursor <= src.len(),
                i <= lz_count,
                mat == stk2_matches(src@, cursor as int, out@, output_size, repdis@, (lz_count - i) as nat),
                mat == stk2_matches(src@, c3, out2, output_size, rd0, lz_count as nat),
                out0.len() < output_size,
                out2.len() < output_size,
                total == stk2_body(src@, output_size),
                total == stk2_rounds(src@, c0 as int, b0, cb0, out0, output_size, rd0),
                run_len(src@, c0 as int, b0, cb0, 0) == Ok::<(usize, int, u8, nat), TekError>((j, c1, b1, cb1)),
                literals(src@, c1, out0, output_size, j as nat) == Ok::<(Seq<u8>, int), TekError>((out2, c2)),
                run_len(src@, c2, b1, cb1, 0) == Ok::<(usize, int, u8, nat), TekError>((lz_count, c3, b3, cb3)),
                bylz == b3,
                cbylz == cb3,
            decreases lz_count - i,
        {
            stk2_copy(src, &mut cursor, &mut out, output_size, &mut repdis)?;
            i += 1;
        }
        if cursor <= c0 || cursor > src.len() {
            return Err(TekError::UnexpectedEof);
        }
    }
    Ok(out)
}

/// Decompresses a method-5 body of `output_size` bytes: its property byte,
/// then a range-coded stream.
fn lzrestore_tek5(src: &[u8], output_size: usize) -> (r: Result<Vec<u8>, TekError>)
    ensures
        r is Ok ==> r->Ok_0.len() == output_size,
        tek5_props(src@) is Err ==> r == Err::<Vec<u8>, TekError>(tek5_props(src@)->Err_0),
        (tek5_props(src@) is Ok && src.len() - tek5_props(src@)->Ok_0.0 < 4)
            ==> r == Err::<Vec<u8>, TekError>(TekError::UnexpectedEof),
{
    if src.len() == 0 {
        return Err(TekError::UnexpectedEof);
    }
    let first = src[0];
    let fl = first & 0x0f;
    let mut flags: i32 = if fl == 0x01 {
        -1
    } else if fl == 0x05 {
        -2
    } else if fl == 0x09 {
        0
    } else {
        return Err(TekError::CorruptData("invalid TEK5 property flags"));
    };

    let mut cursor: usize = 1;
    let mut prop0 = first >> 4;
    if prop0 == 0 {
        prop0 = next_byte(src, &mut cursor)?;
    } else if flags == -1 {
        prop0 = if prop0 == 1 {
            0x5d
        } else if prop0 == 2 {
            0x00
        } else {
            return Err(TekError::CorruptData("invalid stk5 property table"));
        };
    } else {
        prop0 = if prop0 == 1 {
            0x00
        } else {
            return Err(TekError::CorruptData("invalid z1/z2 property table"));
        };
    }

    let mut lp = (prop0 / 45) as usize;
    prop0 = prop0 % 45;
    let mut pb = (prop0 / 9) as usize;
    let lc = (prop0 % 9) as usize;
    assert(lp <= 5 && pb <= 4 && lc <= 8);

    if flags == 0 {
        flags = next_byte(src, &mut cursor)? as i32;
    }
    if flags == -1 {
        let t = lp;
        lp = pb;
        pb = t;
    }
    if cursor > src.len() {
        return Err(TekError::UnexpectedEof);
    }
    let mut decoder = Tek5Decoder::new(slice_from(src, cursor), output_size, lc, pb, lp, flags)?;
    let mut lits: Ghost<Map<int, LitRead>> = Ghost(Map::empty());
    decoder.decmain(&mut lits)
}

/// How many bytes a match of `count` bytes appends to `len` bytes of
/// output: no more than fill it to `output_size`.
pub open spec fn copy_count(len: nat, count: usize, output_size: usize) -> nat {
    if len >= output_size {
        0
    } else if count < output_size - len {
        count as nat
    } else {
        (output_size - len) as nat
    }
}

/// Whether `out` ends with `n` bytes each equal to the byte `-distance`
/// places before it.
pub open spec fn copied(out: Seq<u8>, start: int, distance: int) -> bool {
    forall|i: int| start <= i < out.len() ==> #[trigger] out[i] == out[i + distance]
}

/// Appends `count` bytes (no more than fill `out` to `output_size`), each a
/// copy of the byte `-distance` places before it; the copy may overlap what
/// it appends.
fn copy_match(out: &mut Vec<u8>, distance: i32, count: usize, output_size: usize) -> (r: Result<(), TekError>)
    ensures
        distance >= 0 ==> r == Err::<(), TekError>(TekError::CorruptData("invalid match distance")),
        distance < 0 && old(out).len() + distance < 0 ==> r == Err::<(), TekError>(TekError::InvalidDataSize),
        distance < 0 && old(out).len() + distance >= 0 ==> r is Ok,
        r is Ok ==> {
            let n = copy_count(old(out).len() as nat, count, output_size);
            &&& final(out).len() == old(out).len() + n
            &&& final(out)@.subrange(0, old(out).len() as int) == old(out)@
            &&& copied(final(out)@, old(out).len() as int, distance as int)
        },
        r is Err ==> final(out)@ == old(out)@,
        old(out).len() <= output_size ==> final(out).len() <= output_size,
        match match_copy(old(out)@, distance, count, output_size) {
            Ok(o) => r is Ok && final(out)@ == o,
            Err(e) => r == Err::<(), TekError>(e),
        },
{
    if distance >= 0 {
        return Err(TekError::CorruptData("invalid match distance"));
    }
    let back = (0 - (distance as i64)) as usize;
    if out.len() < back {
        return Err(TekError::InvalidDataSize);
    }
    let max_copy = if out.len() < output_size { output_size - out.len() } else { 0 };
    let count = if count > max_copy { max_copy } else { count };
    let ghost start = out.len();
    let ghost old_out = out@;
    let mut i: usize = 0;
    while i < count
        invariant
            out.len() == start + i,
            i <= count,
            start < output_size ==> start + count <= output_size,
            back == -distance,
            distance < 0,
            back <= start,
            out@.subrange(0, start as int) == old_out,
            copied(out@, start as int, distance as int),
        decreases count - i,
    {
        let src_index = out.len() - back;
        let value = out[src_index];
        let ghost before = out@;
        out.push(value);
        i += 1;
        proof {
            assert(out@.subrange(0, start as int) =~= old_out);
            assert forall|k: int| start <= k < out@.len() implies #[trigger] out@[k] == out@[k + distance] by {
                if k < before.len() {
                    assert(out@[k] == before[k]);
                    assert(out@[k + distance] == before[k + distance]);
                }
            }
        }
    }
    proof {
        lemma_copy_run(out@, old_out, distance as int, count as nat);
    }
    Ok(())
}

/// The adaptive model of one group of probabilities.
#[derive(Clone, Copy)]
struct BitModel {
    t: u8,
    m: u8,
    s: u8,
    prb0: u32,
    prb1: u32,
    tmsk: u32,
    ntm: u32,
    lt: u32,
    lt0: u32,
}

/// Where the probabilities of each kind start in the table.
const PB_ENTRY_LEN: usize = 56;
const LEN_LOW_LEN: usize = 8;
const LEN_MID_LEN: usize = 8;
const P_SLOT_LEN: usize = 64;
const SPDIS_LEN: usize = 62;
const ST_OFFSET: usize = 896;
const LENSEL_OFFSET: usize = 944;
const LENHIGH_OFFSET: usize = 948;
const PSLOT_OFFSET: usize = 1460;
const ALGN_OFFSET: usize = 1716;
const SPDIS_OFFSET: usize = 1780;
const LENEXT_OFFSET: usize = 1904;
const REPG3_OFFSET: usize = 1966;
const FCHGPRM_OFFSET: usize = 1967;
const TBMT_OFFSET: usize = 2031;
const TBMM_OFFSET: usize = 2047;
const FCHGLT_OFFSET: usize = 2063;
const LIT_OFFSET: usize = 2064;

/// The range decoder of method 5 with its probability models.
struct Tek5Decoder<'a> {
    src: &'a [u8],
    cursor: usize,
    range: u32,
    code: u32,
    rmsk: u32,
    probs: Vec<u32>,
    bm: [BitModel; 32],
    ptbm: [usize; 14],
    lc: usize,
    pb: usize,
    lp: usize,
    flags: i32,
    output_size: usize,
    lit0cntmsk: i32,
}

/// The low `len` bits of `data` in reverse order, shifted in after `acc`.
pub open spec fn rev_acc(data: u32, len: nat, acc: u32) -> u32
    decreases len,
{
    if len == 0 {
        acc
    } else {
        rev_acc(data / 2, (len - 1) as nat, ((acc * 2 + data % 2) % 0x1_0000_0000) as u32)
    }
}

/// Reverses the order of the low `len` bits of `data`.
fn revbit(data: u32, len: usize) -> (r: u32)
    ensures
        r == rev_acc(data, len as nat, 0),
{
    let mut data = data;
    let mut rev: u32 = 0;
    let mut i: usize = 0;
    let ghost d0 = data;
    while i < len
        invariant
            i <= len,
            rev_acc(d0, len as nat, 0) == rev_acc(data, (len - i) as nat, rev),
        decreases len - i,
    {
        rev = rev.wrapping_mul(2).wrapping_add(data % 2);
        data = data / 2;
        i += 1;
    }
    rev
}

/// Reversing with a start `acc` shifts `acc` up past the reversed bits,
/// which stay below `2^len`; the reversal takes the lowest bit to the top.
proof fn lemma_rev_acc(d: u32, len: nat, acc: u32)
    requires
        len <= 32,
        acc < vstd::arithmetic::power2::pow2((32 - len) as nat),
    ensures
        rev_acc(d, len, acc) == acc * vstd::arithmetic::power2::pow2(len) + rev_acc(d, len, 0),
        rev_acc(d, len, 0) < vstd::arithmetic::power2::pow2(len),
        len > 0 ==> rev_acc(d, len, 0) == (d % 2) * vstd::arithmetic::power2::pow2((len - 1) as nat)
            + rev_acc(d / 2, (len - 1) as nat, 0),
    decreases len,
{
    vstd::arithmetic::power2::lemma2_to64();
    if len > 0 {
        let n1 = (len - 1) as nat;
        let p1 = vstd::arithmetic::power2::pow2(n1);
        let q = vstd::arithmetic::power2::pow2((32 - len) as nat);
        vstd::arithmetic::power2::lemma_pow2_unfold(len);
        vstd::arithmetic::power2::lemma_pow2_unfold((32 - n1) as nat);
        vstd::arithmetic::power2::lemma_pow2_pos(n1);
        vstd::arithmetic::power2::lemma_pow2_adds((32 - len) as nat, len);
        assert(q * vstd::arithmetic::power2::pow2(len) == 0x1_0000_0000);
        assert(acc * 2 + d % 2 < 0x1_0000_0000) by (nonlinear_arith)
            requires
                acc < q,
                q * vstd::arithmetic::power2::pow2(len) == 0x1_0000_0000,
                vstd::arithmetic::power2::pow2(len) >= 2,
                d % 2 < 2,
        ;
        let a1 = ((acc * 2 + d % 2) % 0x1_0000_0000) as u32;
        assert(a1 == acc * 2 + d % 2);
        lemma_rev_acc(d / 2, n1, a1);
        lemma_rev_acc(d / 2, n1, (d % 2) as u32);
        assert(((0u32 * 2 + d % 2) % 0x1_0000_0000) as u32 == (d % 2) as u32);
        assert(rev_acc(d, len, 0) == rev_acc(d / 2, n1, (d % 2) as u32));
        assert(a1 * p1 == acc * vstd::arithmetic::power2::pow2(len) + (d % 2) * p1) by (nonlinear_arith)
            requires
                a1 == acc * 2 + d % 2,
                vstd::arithmetic::power2::pow2(len) == 2 * p1,
        ;
        assert(rev_acc(d, len, 0) < vstd::arithmetic::power2::pow2(len)) by (nonlinear_arith)
            requires
                rev_acc(d, len, 0) == (d % 2) * p1 + rev_acc(d / 2, n1, 0),
                rev_acc(d / 2, n1, 0) < p1,
                d % 2 < 2,
                d % 2 >= 0,
                vstd::arithmetic::power2::pow2(len) == 2 * p1,
        ;
    }
}

/// Reversing the low `len` bits takes bit `len - 1` to the bottom: twice the
/// reversal of the bits below it, plus that bit.
#[verifier::spinoff_prover]
#[verifier::rlimit(40)]
proof fn lemma_rev_top(x: u32, len: nat)
    requires
        1 <= len <= 32,
    ensures
        rev_acc(x, len, 0) == 2 * rev_acc(((x as int) % (vstd::arithmetic::power2::pow2((len - 1) as nat) as int)) as u32, (len - 1) as nat, 0)
            + ((x as int) / (vstd::arithmetic::power2::pow2((len - 1) as nat) as int)) % 2,
    decreases len,
{
    vstd::arithmetic::power2::lemma2_to64();
    lemma_rev_acc(x, len, 0);
    let n1 = (len - 1) as nat;
    let p1 = vstd::arithmetic::power2::pow2(n1);
    vstd::arithmetic::power2::lemma_pow2_pos(n1);
    if len == 1 {
        assert(p1 == 1);
        assert((x as int) % 1 == 0);
        assert((x as int) / 1 == x);
        assert(rev_acc(0u32, 0, 0) == 0);
    } else {
        let n2 = (len - 2) as nat;
        let p2 = vstd::arithmetic::power2::pow2(n2);
        vstd::arithmetic::power2::lemma_pow2_unfold(n1);
        vstd::arithmetic::power2::lemma_pow2_pos(n2);
        vstd::arithmetic::power2::lemma_pow2_strictly_increases(n1, 32);
        let y = (x as int) % (p1 as int);
        assert(y < 0x1_0000_0000);
        lemma_rev_top(x / 2, n1);
        lemma_rev_acc(y as u32, n1, 0);
        vstd::arithmetic::div_mod::lemma_mod_breakdown(x as int, 2, p2 as int);
        vstd::arithmetic::div_mod::lemma_div_denominator(x as int, 2, p2 as int);
        let yy = y as u32;
        assert(yy % 2 == x % 2 && yy / 2 == ((x / 2) as int) % (p2 as int)) by {
            assert(y == 2 * (((x / 2) as int) % (p2 as int)) + x % 2);
            vstd::arithmetic::div_mod::lemma_fundamental_div_mod_converse(y as int, 2, ((x / 2) as int) % (p2 as int), (x % 2) as int);
            vstd::arithmetic::div_mod::lemma_fundamental_div_mod(y as int, 2);
        }
        assert((((x / 2) as int) % (p2 as int)) as u32 == (yy / 2) as u32);
        assert(2 * ((x % 2) * p2) == (x % 2) * p1) by (nonlinear_arith)
            requires
                p1 == 2 * p2,
        ;
        assert(((x / 2) as int) / (p2 as int) == (x as int) / (p1 as int));
        assert(rev_acc(yy, n1, 0) == (yy % 2) * p2 + rev_acc(yy / 2, n2, 0));
        assert(rev_acc((x / 2) as u32, n1, 0) == 2 * rev_acc((((x / 2) as int) % (p2 as int)) as u32, n2, 0)
            + (((x / 2) as int) / (p2 as int)) % 2);
    }
}

/// Reversing the low `len` bits twice gives them back, and a reversal has no
/// bit at `len` or above.
pub proof fn lemma_rev_twice(x: u32, len: nat)
    requires
        len <= 32,
    ensures
        rev_acc(x, len, 0) < vstd::arithmetic::power2::pow2(len),
        rev_acc(rev_acc(x, len, 0), len, 0) == (x as int) % (vstd::arithmetic::power2::pow2(len) as int),
    decreases len,
{
    vstd::arithmetic::power2::lemma2_to64();
    lemma_rev_acc(x, len, 0);
    if len == 0 {
        assert(x % 1 == 0);
    } else {
        let n1 = (len - 1) as nat;
        let p1 = vstd::arithmetic::power2::pow2(n1);
        vstd::arithmetic::power2::lemma_pow2_unfold(len);
        vstd::arithmetic::power2::lemma_pow2_pos(n1);
        let e = rev_acc(x, len, 0);
        let low = rev_acc(x / 2, n1, 0);
        lemma_rev_twice(x / 2, n1);
        lemma_rev_top(e, len);
        assert(e == (x % 2) * p1 + low);
        vstd::arithmetic::div_mod::lemma_fundamental_div_mod_converse(e as int, p1 as int, (x % 2) as int, low as int);
        assert((e as int) % (p1 as int) == low);
        assert((e as int) / (p1 as int) == x % 2) by {
            vstd::arithmetic::div_mod::lemma_fundamental_div_mod(e as int, p1 as int);
            vstd::arithmetic::div_mod::lemma_fundamental_div_mod_converse(e as int, p1 as int, (x % 2) as int, low as int);
        }
        vstd::arithmetic::div_mod::lemma_mod_breakdown(x as int, 2, p1 as int);
    }
}

/// `2^k` for `k` up to 13.
fn pow2_small(k: usize) -> (r: usize)
    requires
        k <= 13,
    ensures
        r == vstd::arithmetic::power2::pow2(k as nat),
        1 <= r <= 8192,
        k <= 5 ==> r <= 32,
        k >= 1 ==> r >= 2,
{
    proof {
        vstd::arithmetic::power2::lemma2_to64();
    }
    if k == 0 { 1 } else if k == 1 { 2 } else if k == 2 { 4 } else if k == 3 { 8 } else if k == 4 { 16 }
    else if k == 5 { 32 } else if k == 6 { 64 } else if k == 7 { 128 } else if k == 8 { 256 }
    else if k == 9 { 512 } else if k == 10 { 1024 } else if k == 11 { 2048 } else if k == 12 { 4096 } else { 8192 }
}

/// A fresh bit model.
fn bit_model() -> (r: BitModel)
    ensures
        r == (BitModel { t: 0, m: 0, s: 0, prb0: 0, prb1: 0, tmsk: 0, ntm: 0, lt: 0, lt0: 0 }),
{
    BitModel { t: 0, m: 0, s: 0, prb0: 0, prb1: 0, tmsk: 0, ntm: 0, lt: 0, lt0: 0 }
}

/// How many probabilities the decoder's table holds for `shift` context
/// bits (literal context and literal position bits together): none where
/// the count does not fit in a machine word.
pub open spec fn prob_table_len(shift: u32) -> Option<nat> {
    if shift >= usize::BITS {
        None
    } else if 2064 + 0x300 * vstd::arithmetic::power2::pow2(shift as nat) > usize::MAX {
        None
    } else {
        Some((2064 + 0x300 * vstd::arithmetic::power2::pow2(shift as nat)) as nat)
    }
}

impl<'a> Tek5Decoder<'a> {
    /// What the decoder keeps true: its table indices stay in their tables.
    spec fn wf(&self) -> bool {
        &&& forall|i: int| 0 <= i < 14 ==> self.ptbm[i] < 32
        &&& forall|i: int| 0 <= i < 4 ==> self.bm[i].lt == 0
        &&& forall|i: int| 0 <= i < 32 ==> self.bm[i].t <= 15 && self.bm[i].m <= 16
    }

    /// Creates the decoder for `src`, for output of `output_size` bytes with
    /// literal context bits `lc`, position bits `pb` and `lp`, and `flags`.
    fn new(src: &'a [u8], output_size: usize, lc: usize, pb: usize, lp: usize, flags: i32) -> (r: Result<Self, TekError>)
        requires
            lc + lp <= usize::MAX,
        ensures
            r matches Ok(d) ==> d.wf() && d.output_size == output_size,
            src.len() < 4 ==> r == Err::<Self, TekError>(TekError::UnexpectedEof),
            src.len() >= 4 ==> (r is Err <==> prob_table_len((lc + lp) as u32) is None),
            src.len() >= 4 && r is Err ==> r == Err::<Self, TekError>(TekError::InvalidDataSize),
            r matches Ok(d) ==> {
                &&& d.src@ == src@
                &&& d.cursor == 4
                &&& d.range == u32::MAX
                &&& d.code == src@[0] * 0x100_0000 + src@[1] * 0x1_0000 + src@[2] * 0x100 + src@[3]
                &&& d.probs.len() == prob_table_len((lc + lp) as u32)->0
                &&& d.lc == lc && d.pb == pb && d.lp == lp && d.flags == flags
            },
    {
        if src.len() < 4 {
            return Err(TekError::UnexpectedEof);
        }
        let ctx_shift = (lc + lp) as u32;
        if ctx_shift >= usize::BITS {
            return Err(TekError::InvalidDataSize);
        }
        let sh = ctx_shift as usize;
        proof {
            vstd::bits::lemma_usize_pow2_no_overflow(sh as nat);
            vstd::bits::lemma_usize_shl_is_mul(1, sh);
        }
        let ctx_count: usize = 1usize << sh;
        let scaled = match 0x300usize.checked_mul(ctx_count) {
            Some(v) => v,
            None => return Err(TekError::InvalidDataSize),
        };
        let total_probs = match 2064usize.checked_add(scaled) {
            Some(v) => v,
            None => return Err(TekError::InvalidDataSize),
        };
        let code = (src[0] as u32) * 0x100_0000 + (src[1] as u32) * 0x1_0000 + (src[2] as u32) * 0x100
            + (src[3] as u32);
        let mut probs: Vec<u32> = Vec::new();
        let mut i: usize = 0;
        while i < total_probs
            invariant
                probs.len() == i,
                i <= total_probs,
            decreases total_probs - i,
        {
            probs.push(1 << 15);
            i += 1;
        }
        let mut decoder = Self {
            src,
            cursor: 4,
            range: u32::MAX,
            code,
            rmsk: u32::MAX,
            probs,
            bm: [bit_model(); 32],
            ptbm: [0; 14],
            lc,
            pb,
            lp,
            flags,
            output_size,
            lit0cntmsk: 0x78,
        };
        decoder.init_models();
        Ok(decoder)
    }

    /// Sets up the bit models and the probability-table pointers.
    fn init_models(&mut self)
        requires
            old(self).probs.len() >= 2832,
        ensures
            final(self).wf(),
            final(self).output_size == old(self).output_size,
            final(self).lc == old(self).lc,
            final(self).lp == old(self).lp,
            final(self).pb == old(self).pb,
            final(self).probs.len() == old(self).probs.len(),
            final(self).src == old(self).src,
            final(self).cursor == old(self).cursor,
            final(self).range == old(self).range,
            final(self).code == old(self).code,
            final(self).flags == old(self).flags,
            forall|k: int| 0 <= k < 32 ==> #[trigger] final(self).bm[k] == initial_model(k, old(self).flags),
            final(self).ptbm@ == initial_ptbm(old(self).flags),
            final(self).rmsk == (if old(self).flags == -1 { 0xffff_f800u32 } else { old(self).rmsk }),
            final(self).lit0cntmsk == (if old(self).flags == -1 || old(self).flags == -2 {
                old(self).lit0cntmsk
            } else {
                let f = old(self).flags & 3;
                let low: i32 = if f == 0 { 7 } else if f == 1 { 3 } else if f == 2 { 1 } else { 0 };
((low * 16) as i32) | 8i32
            }),
            final(self).probs@ == (if old(self).flags == -1 {
                old(self).probs@
            } else if (old(self).flags & 0x40) != 0 {
                old(self).probs@.update(FCHGLT_OFFSET as int, 0xffff).update(REPG3_OFFSET as int, 0xffff)
            } else {
                old(self).probs@.update(REPG3_OFFSET as int, 0xffff)
            }),
    {
        let mut i: usize = 0;
        while i < 32
            invariant
                i <= 32,
                forall|k: int| 0 <= k < i ==> self.bm[k].t <= 15 && self.bm[k].m <= 16,
                forall|k: int| 0 <= k < i && k < 4 ==> self.bm[k].lt == 0,
                forall|k: int| 0 <= k < i ==> #[trigger] self.bm[k].t == 5 && self.bm[k].m == 5 && self.bm[k].s == 0
                    && self.bm[k].lt == (if k >= 4 { 1u32 } else { 0u32 })
                    && self.bm[k].lt0 == (if k < 24 { 16384u32 } else { 8192u32 }),
                self.probs == old(self).probs,
                self.rmsk == old(self).rmsk,
                self.lit0cntmsk == old(self).lit0cntmsk,
                self.probs.len() == old(self).probs.len(),
                self.src == old(self).src,
                self.cursor == old(self).cursor,
                self.range == old(self).range,
                self.code == old(self).code,
                self.flags == old(self).flags,
                self.output_size == old(self).output_size,
                self.lc == old(self).lc,
                self.lp == old(self).lp,
                self.pb == old(self).pb,
                self.flags == old(self).flags,
            decreases 32 - i,
        {
            let mut model = self.bm[i];
            model.lt = if i >= 4 { 1 } else { 0 };
            model.lt0 = if i < 24 { 16 * 1024 } else { 8 * 1024 };
            model.s = 0;
            model.t = 5;
            model.m = 5;
            self.bm.set(i, model);
            i += 1;
        }

        let stk = self.flags == -1;
        if stk {
            self.rmsk = 0xffff_f800;
            let mut i: usize = 0;
            while i < 32
                invariant
                    i <= 32,
                    forall|k: int| 0 <= k < 32 ==> self.bm[k].t <= 15 && self.bm[k].m <= 16,
                    forall|k: int| 0 <= k < i ==> self.bm[k].lt == 0,
                    forall|k: int| 0 <= k < 4 ==> self.bm[k].lt == 0,
                    forall|k: int| 0 <= k < 32 ==> #[trigger] self.bm[k].t == 5 && self.bm[k].m == 5 && self.bm[k].s == 0
                        && self.bm[k].lt0 == (if k < 24 { 16384u32 } else { 8192u32 })
                        && (k >= i ==> self.bm[k].lt == (if k >= 4 { 1u32 } else { 0u32 })),
                    self.probs == old(self).probs,
                    self.rmsk == 0xffff_f800u32,
                    self.lit0cntmsk == old(self).lit0cntmsk,
                    self.probs.len() == old(self).probs.len(),
                    self.src == old(self).src,
                    self.cursor == old(self).cursor,
                    self.range == old(self).range,
                    self.code == old(self).code,
                    self.flags == old(self).flags,
                    self.output_size == old(self).output_size,
                    self.lc == old(self).lc,
                    self.lp == old(self).lp,
                    self.pb == old(self).pb,
                decreases 32 - i,
            {
                let mut model = self.bm[i];
                model.lt = 0;
                self.bm.set(i, model);
                i += 1;
            }
            assert(forall|k: int| 0 <= k < 32 ==> #[trigger] self.bm[k].s == 0
                && self.bm[k].lt0 == (if k < 24 { 16384u32 } else { 8192u32 })
                && self.bm[k].lt == (if self.flags == -1 || k < 4 || (self.flags == -2 && k == 22) { 0u32 } else { 1u32 })
                && (self.bm[k].t, self.bm[k].m) == initial_tm(k, self.flags));
            self.ptbm = [0; 14];
        } else {
            let pt1: [usize; 14] = [8, 8, 8, 8, 8, 8, 8, 8, 8, 8, 18, 18, 18, 8];
            let mut pt: [usize; 14] = [8, 8, 10, 11, 12, 12, 14, 15, 16, 16, 18, 18, 20, 21];
            self.set_tm(1, 5, 3);
            self.set_tm(2, 9, 2);
            if (self.flags & 0x40) != 0 {
                self.set_tm(3, 0, 1);
                self.probs.set(FCHGLT_OFFSET, 0xffff);
            }
            self.set_tm(22, 0, 1);
            self.probs.set(REPG3_OFFSET, 0xffff);

            if self.flags == -2 {
                let mut model = self.bm[22];
                model.lt = 0;
                self.bm.set(22, model);
                pt = pt1;
            } else {
                let f = self.flags & 3;
                let low: i32 = if f == 0 { 7 } else if f == 1 { 3 } else if f == 2 { 1 } else { 0 };
                self.lit0cntmsk = (low * 16) | 8;
                pt.set(1, 8 + if (self.flags & 0x04) != 0 { 1 } else { 0 });
                pt.set(5, 12 + if (self.flags & 0x08) != 0 { 1 } else { 0 });
                pt.set(9, 16 + if (self.flags & 0x10) != 0 { 1 } else { 0 });
                pt.set(11, 18 + if (self.flags & 0x20) != 0 { 1 } else { 0 });
            }
            assert(forall|k: int| 0 <= k < 14 ==> pt[k] < 32);
            assert(forall|k: int| 0 <= k < 32 ==> #[trigger] self.bm[k].s == 0
                && self.bm[k].lt0 == (if k < 24 { 16384u32 } else { 8192u32 })
                && self.bm[k].lt == (if self.flags == -1 || k < 4 || (self.flags == -2 && k == 22) { 0u32 } else { 1u32 })
                && (self.bm[k].t, self.bm[k].m) == initial_tm(k, self.flags));
            self.ptbm = pt;
        }

        let ghost pre = self.bm@;
        let ghost probs1 = self.probs@;
        let ghost rmsk1 = self.rmsk;
        let ghost lit1 = self.lit0cntmsk;
        let ghost ptbm1 = self.ptbm@;
        assert forall|k: int| 0 <= k < 32 implies model_with(#[trigger] pre[k], pre[k].t, pre[k].m)
            == initial_model(k, old(self).flags) by {
            let (t, m) = initial_tm(k, old(self).flags);
            assert(pre[k].t == t && pre[k].m == m);
        }
        let mut i: usize = 0;
        while i < 32
            invariant
                i <= 32,
                pre.len() == 32,
                forall|k: int| 0 <= k < i ==> #[trigger] self.bm[k] == model_with(pre[k], pre[k].t, pre[k].m),
                forall|k: int| i <= k < 32 ==> #[trigger] self.bm[k] == pre[k],
                self.probs@ == probs1,
                self.rmsk == rmsk1,
                self.lit0cntmsk == lit1,
                self.ptbm@ == ptbm1,
                forall|k: int| 0 <= k < 32 ==> self.bm[k].t <= 15 && self.bm[k].m <= 16,
                forall|k: int| 0 <= k < 4 ==> self.bm[k].lt == 0,
                forall|k: int| 0 <= k < 14 ==> self.ptbm[k] < 32,
                self.probs.len() == old(self).probs.len(),
                self.src == old(self).src,
                self.cursor == old(self).cursor,
                self.range == old(self).range,
                self.code == old(self).code,
                self.flags == old(self).flags,
                self.output_size == old(self).output_size,
                self.lc == old(self).lc,
                self.lp == old(self).lp,
                self.pb == old(self).pb,
            decreases 32 - i,
        {
            let t = self.bm[i].t;
            let m = self.bm[i].m;
            self.set_bm(i, t, m);
            i += 1;
        }
    }

    /// Sets the parameters `t` and `m` of a bit model, without its masks.
    fn set_tm(&mut self, index: usize, t: u8, m: u8)
        requires
            index < 32,
            t <= 15,
            1 <= m <= 16,
        ensures
            final(self).bm[index as int].t == t,
            final(self).bm[index as int].m == m,
            final(self).bm[index as int].lt == old(self).bm[index as int].lt,
            forall|k: int| 0 <= k < 32 && k != index ==> final(self).bm[k] == old(self).bm[k],
            final(self).probs == old(self).probs,
            final(self).ptbm == old(self).ptbm,
            final(self).output_size == old(self).output_size,
            final(self).lc == old(self).lc,
            final(self).lp == old(self).lp,
            final(self).pb == old(self).pb,
            final(self).flags == old(self).flags,
            final(self).lit0cntmsk == old(self).lit0cntmsk,
            final(self).src == old(self).src,
            final(self).cursor == old(self).cursor,
            final(self).range == old(self).range,
            final(self).code == old(self).code,
            final(self).rmsk == old(self).rmsk,
            final(self).bm[index as int] == (BitModel { t, m, ..old(self).bm[index as int] }),
    {
        let mut model = self.bm[index];
        model.t = t;
        model.m = m;
        self.bm.set(index, model);
    }

    /// Sets the parameters of a bit model and the masks that follow from them:
    /// probabilities stay between `prb0` and `prb1`, in steps of `2^t`.
    fn set_bm(&mut self, index: usize, t: u8, m: u8)
        requires
            index < 32,
            t <= 15,
            m <= 16,
        ensures
            final(self).bm[index as int].t == t,
            final(self).bm[index as int].m == m,
            final(self).bm[index as int].lt == old(self).bm[index as int].lt,
            forall|k: int| 0 <= k < 32 && k != index ==> final(self).bm[k] == old(self).bm[k],
            final(self).probs == old(self).probs,
            final(self).ptbm == old(self).ptbm,
            final(self).output_size == old(self).output_size,
            final(self).lc == old(self).lc,
            final(self).lp == old(self).lp,
            final(self).pb == old(self).pb,
            final(self).src == old(self).src,
            final(self).cursor == old(self).cursor,
            final(self).flags == old(self).flags,
            final(self).lit0cntmsk == old(self).lit0cntmsk,
            final(self).range == old(self).range,
            final(self).code == old(self).code,
            final(self).rmsk == old(self).rmsk,
            final(self).bm[index as int] == model_with(old(self).bm[index as int], t, m),
    {
        let mut model = self.bm[index];
        model.t = t;
        model.m = m;
        let mut prb1: u32 = 0xffff_ffffu32 << ((m as u32) + (t as u32));
        let mut prb0: u32 = !prb1;
        prb1 = prb1 | (1u32 << (t as u32));
        model.tmsk = (0xffff_ffffu32 << (t as u32)) & 0xffff;
        prb0 = prb0 & model.tmsk;
        prb1 = prb1 & model.tmsk;
        model.prb0 = prb0;
        model.prb1 = prb1;
        model.ntm = !model.tmsk;
        self.bm.set(index, model);
    }

    /// Reads the next byte of the coded stream.
    fn read_byte(&mut self) -> (r: Result<u8, TekError>)
        ensures
            old(self).cursor < old(self).src.len() ==> r == Ok::<u8, TekError>(old(self).src@[old(self).cursor as int])
                && final(self).cursor == old(self).cursor + 1,
            old(self).cursor >= old(self).src.len() ==> r == Err::<u8, TekError>(TekError::UnexpectedEof)
                && final(self).cursor == old(self).cursor,
            final(self).src == old(self).src,
            final(self).bm == old(self).bm,
            final(self).ptbm == old(self).ptbm,
            final(self).probs == old(self).probs,
            final(self).output_size == old(self).output_size,
            final(self).lc == old(self).lc,
            final(self).lp == old(self).lp,
            final(self).pb == old(self).pb,
            final(self).flags == old(self).flags,
            final(self).lit0cntmsk == old(self).lit0cntmsk,
            final(self).range == old(self).range,
            final(self).code == old(self).code,
            final(self).rmsk == old(self).rmsk,
    {
        if self.cursor >= self.src.len() {
            return Err(TekError::UnexpectedEof);
        }
        let byte = self.src[self.cursor];
        self.cursor += 1;
        Ok(byte)
    }

    /// Shifts in bytes until the range has 24 significant bits.
    fn normalize(&mut self) -> (r: Result<(), TekError>)
        ensures
            final(self).src == old(self).src,
            final(self).bm == old(self).bm,
            final(self).ptbm == old(self).ptbm,
            final(self).probs == old(self).probs,
            final(self).output_size == old(self).output_size,
            final(self).lc == old(self).lc,
            final(self).lp == old(self).lp,
            final(self).pb == old(self).pb,
            final(self).flags == old(self).flags,
            final(self).lit0cntmsk == old(self).lit0cntmsk,
            final(self).rmsk == old(self).rmsk,
            final(self).cursor >= old(self).cursor,
            match normalized(old(self).src@, old(self).cursor as int, old(self).range, old(self).code) {
                Ok((c, rg, cd)) => r is Ok && final(self).cursor == c && final(self).range == rg && final(self).code == cd,
                Err(e) => r == Err::<(), TekError>(e),
            },
    {
        let ghost total = normalized(self.src@, self.cursor as int, self.range, self.code);
        while self.range < 0x100_0000
            invariant
                total == normalized(self.src@, self.cursor as int, self.range, self.code),
                total == normalized(old(self).src@, old(self).cursor as int, old(self).range, old(self).code),
                self.src == old(self).src,
                self.bm == old(self).bm,
                self.ptbm == old(self).ptbm,
                self.probs == old(self).probs,
                self.output_size == old(self).output_size,
                self.lc == old(self).lc,
                self.lp == old(self).lp,
                self.pb == old(self).pb,
                self.flags == old(self).flags,
                self.lit0cntmsk == old(self).lit0cntmsk,
                self.rmsk == old(self).rmsk,
                self.cursor >= old(self).cursor,
            decreases self.src.len() - self.cursor,
        {
            let byte = self.read_byte()?;
            self.range = self.range << 8;
            self.code = (self.code << 8) | (byte as u32);
        }
        Ok(())
    }

    /// Decodes `count` bits with probability one half, most significant first,
    /// onto the bits of `init`, and returns the complement.
    fn rdget0(&mut self, count: i32, init: i32) -> (r: Result<i32, TekError>)
        requires
            old(self).wf(),
        ensures
            final(self).wf(),
            final(self).output_size == old(self).output_size,
            final(self).lc == old(self).lc,
            final(self).lp == old(self).lp,
            final(self).pb == old(self).pb,
            final(self).flags == old(self).flags,
            final(self).lit0cntmsk == old(self).lit0cntmsk,
            final(self).src == old(self).src,
            final(self).bm == old(self).bm,
            final(self).ptbm == old(self).ptbm,
            final(self).probs == old(self).probs,
            match direct_bits(old(self).src@, old(self).cursor as int, old(self).range, old(self).code, count, init) {
                Ok((c, rg, cd, v)) => r == Ok::<i32, TekError>(v) && final(self).cursor == c && final(self).range == rg
                    && final(self).code == cd,
                Err(e) => r == Err::<i32, TekError>(e),
            },
    {
        let ghost total = direct_bits(self.src@, self.cursor as int, self.range, self.code, count, init);
        let ghost n0 = count;
        let ghost i0 = init;
        let mut n = count;
        let mut i = init;
        while n > 0
            invariant
                total == direct_bits(self.src@, self.cursor as int, self.range, self.code, n, i),
                total == direct_bits(old(self).src@, old(self).cursor as int, old(self).range, old(self).code, n0, i0),
                n0 == count,
                i0 == init,
                self.src == old(self).src,
                self.bm == old(self).bm,
                self.ptbm == old(self).ptbm,
                self.probs == old(self).probs,
                self.wf(),
                self.output_size == old(self).output_size,
                self.lc == old(self).lc,
                self.lp == old(self).lp,
                self.pb == old(self).pb,
                self.flags == old(self).flags,
                self.lit0cntmsk == old(self).lit0cntmsk,
            decreases n,
        {
            if let Err(e) = self.normalize() {
                return Err(e);
            }
            self.range = self.range >> 1;
            i = i.wrapping_add(i);
            if self.code >= self.range {
                self.code = self.code - self.range;
                i = i | 1;
            }
            n = n - 1;
        }
        Ok(!i)
    }

    /// Decodes bits with the adaptive probabilities from `prob0` on, as a
    /// binary tree: `n & 15` bits onto `j`, moving to the next bit model every
    /// time the count of bits left has its bits in `n >> 4` clear.
    fn rdget1(&mut self, prob0: usize, bits: i32, j_init: i32, bm_start: usize, nested: bool) -> (r: Result<i32, TekError>)
        requires
            old(self).wf(),
        ensures
            final(self).wf(),
            final(self).output_size == old(self).output_size,
            final(self).lc == old(self).lc,
            final(self).lp == old(self).lp,
            final(self).pb == old(self).pb,
            final(self).flags == old(self).flags,
            final(self).lit0cntmsk == old(self).lit0cntmsk,
            models_settled(old(self).bm@, bits & 0x0f, bits >> 4, bm_start as int) ==> match adaptive_bits(
                old(self).src@,
                old(self).cursor as int,
                old(self).range,
                old(self).code,
                old(self).rmsk,
                old(self).probs@,
                old(self).bm@,
                (prob0 as i32).wrapping_sub(j_init),
                bits & 0x0f,
                bits >> 4,
                j_init,
                bm_start as int,
            ) {
                Ok((c, rg, cd, pr, v)) => r == Ok::<i32, TekError>(v) && final(self).cursor == c && final(self).range == rg
                    && final(self).code == cd && final(self).probs@ == pr && final(self).bm == old(self).bm,
                Err(e) => r == Err::<i32, TekError>(e),
            },
            models_settled(old(self).bm@, bits & 0x0f, bits >> 4, bm_start as int) ==> final(self).ptbm == old(self).ptbm
                && final(self).src == old(self).src && final(self).rmsk == old(self).rmsk,
        decreases (if nested { 0int } else { 1int }),
    {
        let nm = bits >> 4;
        let mut n = bits & 0x0f;
        let mut j = j_init;
        let mut bm_index = bm_start;
        let base = (prob0 as i32).wrapping_sub(j);
        let ghost settled = models_settled(self.bm@, n, nm, bm_index as int);
        let ghost total = adaptive_bits(self.src@, self.cursor as int, self.range, self.code, self.rmsk, self.probs@, self.bm@, base, n, nm, j, bm_index as int);

        while n > 0
            invariant
                settled == models_settled(old(self).bm@, bits & 0x0f, bits >> 4, bm_start as int),
                total == adaptive_bits(old(self).src@, old(self).cursor as int, old(self).range, old(self).code, old(self).rmsk,
                    old(self).probs@, old(self).bm@, (prob0 as i32).wrapping_sub(j_init), bits & 0x0f, bits >> 4, j_init, bm_start as int),
                nm == bits >> 4,
                base == (prob0 as i32).wrapping_sub(j_init),
                settled ==> self.bm == old(self).bm,
                settled ==> self.src == old(self).src,
                settled ==> self.rmsk == old(self).rmsk,
                settled ==> self.ptbm == old(self).ptbm,
                settled ==> models_settled(self.bm@, n, nm, bm_index as int),
                settled ==> total == adaptive_bits(self.src@, self.cursor as int, self.range, self.code, self.rmsk, self.probs@, self.bm@, base, n, nm, j, bm_index as int),
                self.wf(),
                self.output_size == old(self).output_size,
                self.lc == old(self).lc,
                self.lp == old(self).lp,
                self.pb == old(self).pb,
                self.flags == old(self).flags,
                self.lit0cntmsk == old(self).lit0cntmsk,
            decreases n,
        {
            if bm_index >= 32 {
                return Err(TekError::CorruptData("probability model out of range"));
            }
            let prob_index = base.wrapping_add(j) as usize;
            if prob_index >= self.probs.len() {
                return Err(TekError::InvalidDataSize);
            }
            let mut p = self.probs[prob_index];

            if self.bm[bm_index].lt > 0 {
                if nested {
                    return Err(TekError::CorruptData("dynamic probability change is unsupported"));
                }
                let mut model = self.bm[bm_index];
                model.lt = model.lt - 1;
                self.bm.set(bm_index, model);
                if self.bm[bm_index].lt == 0 {
                    if self.rdget1(FCHGLT_OFFSET, 0x71, 0, 3, true)? == 0 {
                        return Err(TekError::CorruptData("dynamic probability change is unsupported"));
                    }
                    let current_s = self.bm[bm_index].s as usize;
                    let next_s = self.rdget1(FCHGPRM_OFFSET + bm_index * 2 + current_s, 0x71, 0, 1, true)?;
                    let mut model = self.bm[bm_index];
                    model.s = next_s as u8;
                    self.bm.set(bm_index, model);
                    if next_s == 0 {
                        let t_bits = self.rdget1(TBMT_OFFSET, 0x74, 1, 2, true)?;
                        let next_t = t_bits & 15;
                        assert(0 <= next_t <= 15) by (bit_vector)
                            requires
                                next_t == t_bits & 15,
                        ;
                        if next_t == 15 {
                            return Err(TekError::CorruptData("invalid probability table update"));
                        }
                        let m_raw = self.rdget1(TBMM_OFFSET, 0x74, 1, 2, true)?.wrapping_sub(1);
                        let m_bits = m_raw & 15;
                        assert(0 <= m_bits <= 15) by (bit_vector)
                            requires
                                m_bits == m_raw & 15,
                        ;
                        let next_m = m_bits + 1;
                        self.set_bm(bm_index, next_t as u8, next_m as u8);
                    }
                    let mut model = self.bm[bm_index];
                    model.lt = model.lt0;
                    self.bm.set(bm_index, model);
                }
                if prob_index >= self.probs.len() {
                    return Err(TekError::InvalidDataSize);
                }
                let model = self.bm[bm_index];
                if p < model.prb0 {
                    p = model.prb0;
                    self.probs.set(prob_index, p);
                }
                if p > model.prb1 {
                    p = model.prb1;
                    self.probs.set(prob_index, p);
                }
                if (p & model.ntm) != 0 {
                    p = p & model.tmsk;
                    self.probs.set(prob_index, p);
                }
            }

            if let Err(e) = self.normalize() {
                return Err(e);
            }
            j = j.wrapping_add(j);
            let r64 = (self.range & self.rmsk) as u64;
            let p64 = p as u64;
            assert(r64 * p64 <= 0xffff_ffff * 0xffff_ffff) by (nonlinear_arith)
                requires
                    r64 <= 0xffff_ffff,
                    p64 <= 0xffff_ffff,
            ;
            let prod = r64 * p64;
            assert(prod >> 16u64 == prod / 0x10000) by (bit_vector);
            let split = ((r64 * p64) >> 16) as u32;
            let model = self.bm[bm_index];
            assert(model.m <= 16);
            if self.code < split {
                j = j | 1;
                self.range = split;
                let delta = (0x10000u32.wrapping_sub(p) >> (model.m as u32)) & model.tmsk;
                let q = self.probs[prob_index].wrapping_add(delta);
                self.probs.set(prob_index, q);
            } else {
                self.range = self.range.wrapping_sub(split);
                self.code = self.code - split;
                let delta = (p >> (model.m as u32)) & model.tmsk;
                let q = self.probs[prob_index].wrapping_sub(delta);
                self.probs.set(prob_index, q);
            }

            n = n - 1;
            if (n & nm) == 0 {
                bm_index = bm_index + 1;
            }
        }
        Ok(j)
    }

    /// Decodes a match length: low, middle or high range, each with its
    /// probabilities for the position `s_pos` and the kind of match `m`.
    fn getlen5(&mut self, m: usize, s_pos: usize, stk: i32) -> (r: Result<i32, TekError>)
        requires
            old(self).wf(),
            m < 2,
            s_pos < 32,
        ensures
            final(self).wf(),
            final(self).output_size == old(self).output_size,
            final(self).lc == old(self).lc,
            final(self).lp == old(self).lp,
            final(self).pb == old(self).pb,
            final(self).flags == old(self).flags,
            final(self).lit0cntmsk == old(self).lit0cntmsk,
            (forall|k: int| 3 <= k < 8 ==> #[trigger] old(self).bm@[old(self).ptbm@[k] as int].lt == 0) ==> match match_length(
                old(self).src@,
                (old(self).cursor as int, old(self).range, old(self).code, old(self).probs@),
                old(self).rmsk,
                old(self).bm@,
                old(self).ptbm@,
                m,
                s_pos,
                stk,
            ) {
                Ok((st, v)) => r == Ok::<i32, TekError>(v) && final(self).cursor == st.0 && final(self).range == st.1
                    && final(self).code == st.2 && final(self).probs@ == st.3,
                Err(e) => r == Err::<i32, TekError>(e),
            },
    {
        let ghost settled = forall|k: int| 3 <= k < 8 ==> #[trigger] self.bm@[self.ptbm@[k] as int].lt == 0;
        proof {
            assert(0x71i32 & 0x0f == 1 && 0x71i32 >> 4 == 7) by (bit_vector);
            assert(0x73i32 & 0x0f == 3 && 0x73i32 >> 4 == 7) by (bit_vector);
            assert(0x78i32 & 0x0f == 8 && 0x78i32 >> 4 == 7) by (bit_vector);
            if settled {
                assert(self.bm@[self.ptbm@[3] as int].lt == 0);
                assert(self.bm@[self.ptbm@[4] as int].lt == 0);
                assert(self.bm@[self.ptbm@[5] as int].lt == 0);
                assert(self.bm@[self.ptbm@[6] as int].lt == 0);
                assert(self.bm@[self.ptbm@[7] as int].lt == 0);
                lemma_settled_one(self.bm@, 1, self.ptbm@[3] as int);
                lemma_settled_one(self.bm@, 3, self.ptbm@[4] as int);
                lemma_settled_one(self.bm@, 3, self.ptbm@[5] as int);
                lemma_settled_one(self.bm@, 8, self.ptbm@[6] as int);
            }
        }
        let sel0 = match self.rdget1(Self::lensel_index(m, 0), 0x71, 0, self.ptbm[3], false) {
            Ok(v) => v,
            Err(e) => return Err(e),
        };
        if (sel0 ^ stk) != 0 {
            return match self.rdget1(Self::pb_lenlow_index(s_pos, m, 0), 0x73, 1, self.ptbm[4], false) {
                Ok(v) => Ok(v & 7),
                Err(e) => Err(e),
            };
        }
        let sel1 = match self.rdget1(Self::lensel_index(m, 1), 0x71, 0, self.ptbm[3], false) {
            Ok(v) => v,
            Err(e) => return Err(e),
        };
        if (sel1 ^ stk) != 0 {
            return self.rdget1(Self::pb_lenmid_index(s_pos, m, 0), 0x73, 1, self.ptbm[5], false);
        }
        let high = match self.rdget1(Self::lenhigh_index(m, 0), 0x78, 1, self.ptbm[6], false) {
            Ok(v) => v,
            Err(e) => return Err(e),
        };
        let mut value = high.wrapping_sub(256 + 256 - 8);
        if value > 0 {
            if value < 6 && stk == 0 {
                let index = Self::lenext_index(pow2_small(value as usize) - 2);
                proof {
                    assert((value | 0x70) & 0x0f == value && (value | 0x70) >> 4 == 7) by (bit_vector)
                        requires
                            0 < value < 6,
                    ;
                    if settled {
                        lemma_settled_one(self.bm@, value, self.ptbm@[7] as int);
                    }
                }
                value = match self.rdget1(index, value | 0x70, 1, self.ptbm[7], false) {
                    Ok(v) => v.wrapping_sub(1),
                    Err(e) => return Err(e),
                };
            } else {
                value = match self.rdget0(value, !1) {
                    Ok(v) => v.wrapping_sub(1),
                    Err(e) => return Err(e),
                };
            }
            value = match self.rdget0(value, !1) {
                Ok(v) => v.wrapping_sub(1),
                Err(e) => return Err(e),
            };
        }
        Ok(value.wrapping_add(256 - 8 + 16))
    }

    /// The byte `-distance` places before the end of `out`.
    fn get_relative_byte(out: &Vec<u8>, distance: i32) -> (r: Result<u8, TekError>)
        ensures
            distance >= 0 ==> r == Err::<u8, TekError>(TekError::CorruptData("invalid relative distance")),
            distance < 0 && out.len() + distance < 0 ==> r == Err::<u8, TekError>(TekError::InvalidDataSize),
            distance < 0 && out.len() + distance >= 0 ==> r == Ok::<u8, TekError>(out@[out.len() + distance]),
    {
        if distance >= 0 {
            return Err(TekError::CorruptData("invalid relative distance"));
        }
        let back = (0 - (distance as i64)) as usize;
        if out.len() < back {
            return Err(TekError::InvalidDataSize);
        }
        Ok(out[out.len() - back])
    }

    /// Where the match flag for position `pb` and state `state` is.
    fn pb_mch_index(pb: usize, state: usize) -> (r: usize)
        requires
            pb < 32,
            state < 12,
        ensures
            r == pb * PB_ENTRY_LEN + state * 2,
    {
        pb * PB_ENTRY_LEN + state * 2
    }

    /// Where the flag for a one-byte repeat is.
    fn pb_rep0l1_index(pb: usize, state: usize) -> (r: usize)
        requires
            pb < 32,
            state < 12,
        ensures
            r == pb * PB_ENTRY_LEN + state * 2 + 1,
    {
        Self::pb_mch_index(pb, state) + 1
    }

    /// Where the low match lengths are.
    fn pb_lenlow_index(pb: usize, m: usize, index: usize) -> (r: usize)
        requires
            pb < 32,
            m < 2,
            index < 8,
        ensures
            r == pb * PB_ENTRY_LEN + 24 + m * LEN_LOW_LEN + index,
    {
        pb * PB_ENTRY_LEN + 24 + m * LEN_LOW_LEN + index
    }

    /// Where the middle match lengths are.
    fn pb_lenmid_index(pb: usize, m: usize, index: usize) -> (r: usize)
        requires
            pb < 32,
            m < 2,
            index < 8,
        ensures
            r == pb * PB_ENTRY_LEN + 40 + m * LEN_MID_LEN + index,
    {
        pb * PB_ENTRY_LEN + 40 + m * LEN_MID_LEN + index
    }

    /// Where the state flags are.
    fn st_index(state: usize, field: usize) -> (r: usize)
        requires
            state < 12,
            field < 4,
        ensures
            r == ST_OFFSET + state * 4 + field,
    {
        ST_OFFSET + state * 4 + field
    }

    /// Where the length selectors are.
    fn lensel_index(m: usize, which: usize) -> (r: usize)
        requires
            m < 2,
            which < 2,
        ensures
            r == LENSEL_OFFSET + m * 2 + which,
    {
        LENSEL_OFFSET + m * 2 + which
    }

    /// Where the high match lengths are.
    fn lenhigh_index(m: usize, index: usize) -> (r: usize)
        requires
            m < 2,
            index < 256,
        ensures
            r == LENHIGH_OFFSET + m * 256 + index,
    {
        LENHIGH_OFFSET + m * 256 + index
    }

    /// Where the distance slots are.
    fn pslot_index(row: usize, index: usize) -> (r: usize)
        requires
            row < 4,
            index < 64,
        ensures
            r == PSLOT_OFFSET + row * P_SLOT_LEN + index,
    {
        PSLOT_OFFSET + row * P_SLOT_LEN + index
    }

    /// Where the alignment bits are.
    fn algn_index(index: usize) -> (r: usize)
        requires
            index < 64,
        ensures
            r == ALGN_OFFSET + index,
    {
        ALGN_OFFSET + index
    }

    /// Where the bits of the short distances are.
    fn spdis_index(row: usize, index: usize) -> (r: usize)
        requires
            row < 2,
            index < 62,
        ensures
            r == SPDIS_OFFSET + row * SPDIS_LEN + index,
    {
        SPDIS_OFFSET + row * SPDIS_LEN + index
    }

    /// Where the extended lengths are.
    fn lenext_index(index: usize) -> (r: usize)
        requires
            index < 62,
        ensures
            r == LENEXT_OFFSET + index,
    {
        LENEXT_OFFSET + index
    }

    /// Where the literals of context `index` are.
    fn lit_index(index: usize) -> (r: usize)
        ensures
            index <= usize::MAX - LIT_OFFSET ==> r == LIT_OFFSET + index,
    {
        LIT_OFFSET.wrapping_add(index)
    }

    /// The state that follows a literal.
    fn next_state(state: usize) -> (r: usize)
        requires
            state < 12,
        ensures
            r < 12,
            r == seq![0usize, 0, 0, 0, 1, 2, 3, 4, 5, 6, 4, 5][state as int],
    {
        let table: [usize; 12] = [0, 0, 0, 0, 1, 2, 3, 4, 5, 6, 4, 5];
        assert(table@ == seq![0usize, 0, 0, 0, 1, 2, 3, 4, 5, 6, 4, 5]);
        table[state]
    }

    /// The initial literal flag, where its bit model has no pending change:
    /// decoded from the flag probabilities at position 0 in state 0, flipped
    /// for the stk5 streams.
    spec fn initial_flag(&self) -> Result<i32, TekError> {
        let stk: i32 = if self.flags == -1 { 1 } else { 0 };
        match adaptive_call(
            self.src@,
            (self.cursor as int, self.range, self.code, self.probs@),
            self.rmsk,
            self.bm@,
            0,
            0x71,
            0,
            self.ptbm@[0] as int,
        ) {
            Ok((_, flag)) => Ok(flag ^ stk),
            Err(e) => Err(e),
        }
    }

    /// Whether decoding from `self` gets past its start: the initial flag
    /// says a literal comes first and some output is wanted.
    spec fn start_passes(&self) -> bool {
        self.bm@[self.ptbm@[0] as int].lt != 0 || (self.initial_flag() matches Ok(f) && f != 0 && self.output_size != 0)
    }

    /// Whether `r` is what the start of the decoding gives: the initial
    /// flag's error, an error where the flag does not announce a literal, or
    /// where no output is wanted.
    spec fn start_checked(&self, r: Result<Vec<u8>, TekError>) -> bool {
        self.start_passes() || match self.initial_flag() {
            Err(e) => r == Err::<Vec<u8>, TekError>(e),
            Ok(f) => if f == 0 {
                r == Err::<Vec<u8>, TekError>(TekError::CorruptData("invalid initial literal flag"))
            } else {
                r == Err::<Vec<u8>, TekError>(TekError::InvalidDataSize)
            },
        }
    }

    /// Decodes the whole output: literals and matches, each announced by a
    /// flag decoded in the context of the position and the state.
    /// `lits` gets, for each position of the output that holds a plain
    /// literal, its read of the literal tree.
    fn decmain(&mut self, lits: &mut Ghost<Map<int, LitRead>>) -> (r: Result<Vec<u8>, TekError>)
        requires
            old(self).wf(),
            old(self).lc <= 8 ==> old(self).lp <= 5 && old(self).pb <= 5,
        ensures
            r is Ok ==> r->Ok_0.len() == old(self).output_size,
            r is Ok ==> final(lits)@.dom().contains(0) && literals_hold(r->Ok_0@, final(lits)@),
            old(self).lc > 8 ==> r == Err::<Vec<u8>, TekError>(TekError::CorruptData("invalid literal context")),
            old(self).lc <= 8 ==> old(self).start_checked(r),
    {
        let stk: i32 = if self.flags == -1 { 1 } else { 0 };
        let lcr = match 8usize.checked_sub(self.lc) {
            Some(v) => v,
            None => return Err(TekError::CorruptData("invalid literal context")),
        };
        let m_pos = pow2_small(self.pb) - 1;
        let m_lp = pow2_small(self.lp) - 1;
        let lit1_base = LIT_OFFSET + (256 * pow2_small(self.lc + self.lp) - 2);

        proof {
            assert(0x71i32 & 0x0f == 1 && 0x71i32 >> 4 == 7) by (bit_vector);
            if self.bm@[self.ptbm@[0] as int].lt == 0 {
                lemma_settled_one(self.bm@, 1, self.ptbm@[0] as int);
            }
        }
        let first_flag = match self.rdget1(Self::pb_mch_index(0, 0), 0x71, 0, self.ptbm[0], false) {
            Ok(v) => v,
            Err(e) => return Err(e),
        };
        if (first_flag ^ stk) == 0 {
            return Err(TekError::CorruptData("invalid initial literal flag"));
        }

        if self.output_size == 0 {
            return Err(TekError::InvalidDataSize);
        }
        assert(old(self).start_passes());

        let mut out: Vec<u8> = Vec::new();
        let lit0cntmsk = self.lit0cntmsk;
        let first_index = Self::lit_index(0);
        let ghost first_read: LitRead = (self.src@, (self.cursor as int, self.range, self.code, self.probs@), self.rmsk, self.bm@, first_index, lit0cntmsk);
        let first = self.rdget1(first_index, lit0cntmsk, 1, 24, false)?;
        out.push((first & 0xff) as u8);
        *lits = Ghost(Map::empty().insert(0, first_read));
        assert(literals_hold(out@, lits@));

        let mut rep: [i32; 4] = [!0i32, !1i32, !2i32, !3i32];
        let mut pmch: i32 = 0;
        let mut state: usize = 0;
        let mut pos: usize = 1;
        let output_size = self.output_size;

        while pos < output_size
            invariant
                old(self).start_passes(),
                self.wf(),
                self.output_size == output_size,
                self.lc == old(self).lc,
                self.lp == old(self).lp,
                self.pb == old(self).pb,
                old(self).lc <= 8 && old(self).lp <= 5 && old(self).pb <= 5,
                output_size == old(self).output_size,
                out.len() == pos,
                1 <= pos <= output_size,
                lits@.dom().contains(0),
                literals_hold(out@, lits@),
                state < 12,
                m_pos < 32,
                m_lp < 32,
                lcr <= 8,
            decreases output_size - pos,
        {
            let s_pos = pos & m_pos;
            assert(s_pos <= m_pos) by (bit_vector)
                requires
                    s_pos == pos & m_pos,
            ;
            let ptbm_mch = if state > 0 { self.ptbm[1] } else { self.ptbm[0] };
            if (self.rdget1(Self::pb_mch_index(s_pos, state), 0x71, 0, ptbm_mch, false)? ^ stk) != 0 {
                let last = out[out.len() - 1] as usize;
                let pos_bits = pos & m_lp;
                let literal_context = ((last >> lcr) | (pos_bits << self.lc)).wrapping_mul(256);
                state = Self::next_state(state);

                let byte = if pmch == 0 {
                    let lit0cntmsk = self.lit0cntmsk;
                    let index = Self::lit_index(literal_context);
                    let ghost read: LitRead = (self.src@, (self.cursor as int, self.range, self.code, self.probs@), self.rmsk, self.bm@, index, lit0cntmsk);
                    let byte = (self.rdget1(index, lit0cntmsk, 1, 24, false)? & 0xff) as u8;
                    assert(lit_settled(read) ==> lit_byte(read) == Some(byte));
                    proof {
                        lemma_literals_extend(out@, out@.push(byte), lits@);
                    }
                    *lits = Ghost(lits@.insert(pos as int, read));
                    assert(literals_hold(out@.push(byte), lits@));
                    byte
                } else {
                    let mut bm_index: usize = 24;
                    let mut tree: i32 = 1;
                    let mut remaining: i32 = 8;
                    pmch = Self::get_relative_byte(&out, rep[0])? as i32;
                    while remaining > 0
                        invariant
                            old(self).start_passes(),
                            self.wf(),
                            self.output_size == output_size,
                            self.lc == old(self).lc,
                            self.lp == old(self).lp,
                            self.pb == old(self).pb,
                            old(self).lc <= 8 && old(self).lp <= 5 && old(self).pb <= 5,
                            bm_index <= 32,
                        decreases remaining,
                    {
                        let offset = ((literal_context as i32).wrapping_add(tree).wrapping_mul(2) | (pmch >> 7)) as usize;
                        let lit1_index = match lit1_base.checked_add(offset) {
                            Some(v) => v,
                            None => return Err(TekError::InvalidDataSize),
                        };
                        let ptbm2 = self.ptbm[2];
                        let bit = self.rdget1(lit1_index, 0x71, 0, ptbm2, false)?;
                        tree = tree.wrapping_add(tree).wrapping_add(bit);
                        remaining = remaining - 1;
                        if (remaining & (self.lit0cntmsk >> 4)) == 0 {
                            if bm_index >= 32 {
                                return Err(TekError::CorruptData("probability model out of range"));
                            }
                            bm_index = bm_index + 1;
                        }
                        if ((((pmch >> 7) ^ tree) & 1) != 0) && remaining != 0 {
                            let lit0cntmsk = self.lit0cntmsk;
                            let index = Self::lit_index(literal_context.wrapping_add(tree as usize).wrapping_sub(1));
                            tree = self.rdget1(index, remaining | (lit0cntmsk & 0x70), tree, bm_index, false)?;
                            break;
                        }
                        pmch = pmch.wrapping_mul(2);
                    }
                    pmch = 0;
                    let byte = (tree & 0xff) as u8;
                    proof {
                        lemma_literals_extend(out@, out@.push(byte), lits@);
                    }
                    byte
                };

                out.push(byte);
                pos = pos + 1;
                continue;
            }

            pmch = pmch | 1;
            let mut match_len: i32;

            if (self.rdget1(Self::st_index(state, 0), 0x71, 0, self.ptbm[13], false)? ^ stk) != 0 {
                rep[3] = rep[2];
                rep[2] = rep[1];
                rep[1] = rep[0];
                match_len = self.getlen5(0, s_pos, stk)?;
                state = if state < 7 { 7 } else { 10 };

                let slot_row: usize = if match_len >= 3 || match_len < 0 { 3 } else { match_len as usize };
                let ptbm_slot = if slot_row == 3 { self.ptbm[9] } else { self.ptbm[8] };
                let slot_bits = self.rdget1(Self::pslot_index(slot_row, 0), 0x76, 1, ptbm_slot, false)?;
                let slot = slot_bits & 0x3f;
                assert(0 <= slot <= 63) by (bit_vector)
                    requires
                        slot == slot_bits & 0x3f,
                ;
                rep[0] = slot;

                if slot >= 4 {
                    assert(0 <= (slot & 1) <= 1 && (slot >> 1) >= 2 && (slot >> 1) <= 31 && (slot >= 14 ==> (slot >> 1) >= 7) && (slot < 14 ==> (slot >> 1) <= 6)) by (bit_vector)
                        requires
                            4 <= slot <= 63,
                    ;
                    let mut k = (slot >> 1) - 1;
                    rep[0] = (2 | (slot & 1)) << (k as u32);
                    if slot < 14 {
                        let ptbm_sp = if k >= 4 { self.ptbm[11] } else { self.ptbm[10] };
                        let index = Self::spdis_index((slot & 1) as usize, pow2_small(k as usize) - 2);
                        let bits = self.rdget1(index, k | 0x70, 1, ptbm_sp, false)?;
                        rep[0] = rep[0] | revbit(bits as u32, k as usize) as i32;
                    } else if stk == 0 {
                        k = k - 6;
                        if k != 0 {
                            let v = self.rdget0(k, !0)?;
                            rep[0] = rep[0] | v.wrapping_mul(64);
                        }
                        let ptbm12 = self.ptbm[12];
                        let bits = self.rdget1(Self::algn_index(0), 0x76, 1, ptbm12, false)?;
                        rep[0] = rep[0] | revbit(bits as u32, 6) as i32;
                    } else {
                        let v = self.rdget0(k - 4, !0)?;
                        rep[0] = rep[0] | v.wrapping_mul(16);
                        let ptbm12 = self.ptbm[12];
                        let bits = self.rdget1(Self::algn_index(0), 0x74, 1, ptbm12, false)?;
                        rep[0] = rep[0] | revbit(bits as u32, 4) as i32;
                    }
                }
                rep[0] = !rep[0];
            } else {
                if (self.rdget1(Self::st_index(state, 1), 0x71, 0, self.ptbm[13], false)? ^ stk) != 0 {
                    match_len = -1;
                    if self.rdget1(Self::pb_rep0l1_index(s_pos, state), 0x71, 0, self.ptbm[13], false)? == 0 {
                        state = if state < 7 { 9 } else { 11 };
                        match_len = match_len + 2;
                        let copy_count = if output_size - pos < (match_len as usize) {
                            output_size - pos
                        } else {
                            match_len as usize
                        };
                        let ghost out0 = out@;
                        copy_match(&mut out, rep[0], copy_count, output_size)?;
                        proof {
                            assert forall|p: int| 0 <= p < out0.len() implies #[trigger] out@[p] == out0[p] by {
                                assert(out@.subrange(0, out0.len() as int)[p] == out@[p]);
                            }
                            lemma_literals_extend(out0, out@, lits@);
                        }
                        pos = pos + copy_count;
                        continue;
                    }
                } else {
                    let distance = if (self.rdget1(Self::st_index(state, 2), 0x71, 0, self.ptbm[13], false)? ^ stk) != 0 {
                        rep[1]
                    } else {
                        let distance = if (self.rdget1(Self::st_index(state, 3), 0x71, 0, self.ptbm[13], false)? ^ stk) != 0 {
                            rep[2]
                        } else {
                            if stk == 0 && self.rdget1(REPG3_OFFSET, 0x71, 0, 22, false)? == 0 {
                                return Err(TekError::CorruptData("invalid repg3 state"));
                            }
                            let distance = rep[3];
                            rep[3] = rep[2];
                            distance
                        };
                        rep[2] = rep[1];
                        distance
                    };
                    rep[1] = rep[0];
                    rep[0] = distance;
                }
                match_len = self.getlen5(1, s_pos, stk)?;
                state = if state < 7 { 8 } else { 11 };
            }

            match_len = match_len.wrapping_add(2);
            if rep[0] < 0 && pos < ((0 - (rep[0] as i64)) as usize) {
                return Err(TekError::InvalidDataSize);
            }
            let copy_count = if output_size - pos < (match_len as usize) {
                output_size - pos
            } else {
                match_len as usize
            };
            if copy_count == 0 {
                return Err(TekError::CorruptData("empty match"));
            }
            let ghost out0 = out@;
            copy_match(&mut out, rep[0], copy_count, output_size)?;
            proof {
                assert forall|p: int| 0 <= p < out0.len() implies #[trigger] out@[p] == out0[p] by {
                    assert(out@.subrange(0, out0.len() as int)[p] == out@[p]);
                }
                lemma_literals_extend(out0, out@, lits@);
            }
            pos = pos + copy_count;
        }

        Ok(out)
    }
}

/// `out` with `n` bytes appended, each a copy of the byte `-d` places
/// before it.
pub open spec fn copy_run(out: Seq<u8>, d: int, n: nat) -> Seq<u8>
    decreases n,
{
    if n == 0 {
        out
    } else {
        copy_run(out.push(out[out.len() + d]), d, (n - 1) as nat)
    }
}

/// A sequence that starts with `out`, has `n` more bytes and copies each of
/// them from `-d` places before it is `copy_run(out, d, n)`.
pub proof fn lemma_copy_run(s: Seq<u8>, out: Seq<u8>, d: int, n: nat)
    requires
        s.len() == out.len() + n,
        s.subrange(0, out.len() as int) == out,
        copied(s, out.len() as int, d),
        -out.len() <= d < 0,
    ensures
        s == copy_run(out, d, n),
    decreases n,
{
    if n == 0 {
        assert(s =~= out);
    } else {
        let next = out.push(out[out.len() + d]);
        assert(s[out.len() as int] == s[out.len() + d]);
        assert(s.subrange(0, next.len() as int) =~= next);
        lemma_copy_run(s, next, d, (n - 1) as nat);
    }
}

/// What appending a match of `count` bytes at `distance` to `out` gives,
/// filling `out` to `output_size` bytes at most.
pub open spec fn match_copy(out: Seq<u8>, distance: i32, count: usize, output_size: usize) -> Result<Seq<u8>, TekError> {
    if distance >= 0 {
        Err(TekError::CorruptData("invalid match distance"))
    } else if out.len() + distance < 0 {
        Err(TekError::InvalidDataSize)
    } else {
        Ok(copy_run(out, distance as int, copy_count(out.len(), count, output_size)))
    }
}

/// `k` literal bytes of a method-1 or method-2 stream at `c` appended to
/// `out`, and where the stream is after them.
pub open spec fn literals(src: Seq<u8>, c: int, out: Seq<u8>, output_size: usize, k: nat) -> Result<(Seq<u8>, int), TekError>
    decreases k,
{
    if k == 0 {
        Ok((out, c))
    } else if c < 0 || c >= src.len() {
        Err(TekError::UnexpectedEof)
    } else if out.len() >= output_size {
        Err(TekError::CorruptData("literal run exceeds output buffer"))
    } else {
        literals(src, c + 1, out.push(src[c]), output_size, (k - 1) as nat)
    }
}

/// One match of a method-2 stream at `c` appended to `out`, with `repdis`
/// the four last distances: where the stream is after it, and the four last
/// distances then.
pub open spec fn stk2_match(src: Seq<u8>, c: int, out: Seq<u8>, output_size: usize, repdis: Seq<i32>) -> Result<(Seq<u8>, int, Seq<i32>), TekError> {
    if c < 0 || c >= src.len() {
        Err(TekError::UnexpectedEof)
    } else {
        let t = src[c] as usize;
        let cp0 = t >> 4usize;
        let low = t & 0x0f;
        let ext: Result<(usize, int), TekError> = if low & 1 == 0 {
            match s7(src, c + 1, 0, 0, 1) {
                Ok((n, c2)) => Ok((low | (n.wrapping_add(1) << 4usize), c2)),
                Err(e) => Err(e),
            }
        } else {
            Ok((low, c + 1))
        };
        match ext {
            Err(e) => Err(e),
            Ok((tok, c2)) => {
                let token = tok >> 1usize;
                let far: Result<(i32, int), TekError> = if token < 4 {
                    Ok((repdis[token as int], c2))
                } else if token == 4 {
                    match s7(src, c2, 0, 0, 1) {
                        Ok((n, c3)) => Ok((repdis[0].wrapping_sub(n as i32).wrapping_sub(1), c3)),
                        Err(e) => Err(e),
                    }
                } else if token == 5 {
                    match s7(src, c2, 0, 0, 1) {
                        Ok((n, c3)) => Ok((repdis[0].wrapping_add(n as i32).wrapping_add(1), c3)),
                        Err(e) => Err(e),
                    }
                } else {
                    Ok((!((token as i32).wrapping_sub(6)), c2))
                };
                match far {
                    Err(e) => Err(e),
                    Ok((distance, c3)) => {
                        let count: Result<(usize, int), TekError> = if cp0 == 0 {
                            match s7(src, c3, 0, 0, 1) {
                                Ok((n, c4)) => Ok((n.wrapping_add(16).wrapping_add(1), c4)),
                                Err(e) => Err(e),
                            }
                        } else {
                            Ok((cp0.wrapping_add(1), c3))
                        };
                        match count {
                            Err(e) => Err(e),
                            Ok((cp, c4)) => {
                                let rd = pushed_distances(repdis, token, distance);
                                match match_copy(out, distance, cp, output_size) {
                                    Ok(o) => Ok((o, c4, rd)),
                                    Err(e) => Err(e),
                                }
                            },
                        }
                    },
                }
            },
        }
    }
}

/// `k` matches of a method-2 stream at `c` appended to `out`.
pub open spec fn stk2_matches(src: Seq<u8>, c: int, out: Seq<u8>, output_size: usize, repdis: Seq<i32>, k: nat) -> Result<(Seq<u8>, int, Seq<i32>), TekError>
    decreases k,
{
    if k == 0 {
        Ok((out, c, repdis))
    } else {
        match stk2_match(src, c, out, output_size, repdis) {
            Ok((o, c2, rd)) => stk2_matches(src, c2, o, output_size, rd, (k - 1) as nat),
            Err(e) => Err(e),
        }
    }
}

/// The rest of a method-2 body at `c`, with `out` decoded so far: rounds of
/// a run of literals and a run of matches until `output_size` bytes are out.
pub open spec fn stk2_rounds(
    src: Seq<u8>,
    c: int,
    bylz: u8,
    cbylz: nat,
    out: Seq<u8>,
    output_size: usize,
    repdis: Seq<i32>,
) -> Result<Seq<u8>, TekError>
    decreases src.len() - c,
{
    if out.len() >= output_size {
        Ok(out)
    } else {
        match run_len(src, c, bylz, cbylz, 0) {
            Err(e) => Err(e),
            Ok((j, c1, b1, cb1)) => match literals(src, c1, out, output_size, j as nat) {
                Err(e) => Err(e),
                Ok((o2, c2)) => if o2.len() >= output_size {
                    Ok(o2)
                } else {
                    match run_len(src, c2, b1, cb1, 0) {
                        Err(e) => Err(e),
                        Ok((lz, c3, b3, cb3)) => match stk2_matches(src, c3, o2, output_size, repdis, lz as nat) {
                            Err(e) => Err(e),
                            Ok((o4, c4, rd)) => if c4 <= c || c4 > src.len() {
                                Err(TekError::UnexpectedEof)
                            } else {
                                stk2_rounds(src, c4, b3, cb3, o4, output_size, rd)
                            },
                        },
                    }
                },
            },
        }
    }
}

/// The decompressed bytes of a method-2 body of `output_size` bytes, or why
/// it cannot be decompressed.
pub open spec fn stk2_body(src: Seq<u8>, output_size: usize) -> Result<Seq<u8>, TekError> {
    if output_size == 0 {
        Ok(Seq::empty())
    } else {
        match s7s(src, 0, 0) {
            None => Err(TekError::UnexpectedEof),
            Some((v, c)) => if v != 0 {
                Err(TekError::CorruptData("unsupported TEK2 prefix"))
            } else {
                stk2_rounds(src, c, 0, 0, Seq::empty(), output_size, seq![-1i32, -2i32, -3i32, -4i32])
            },
        }
    }
}

/// One match of a method-1 stream at `c` appended to `out`, and where the
/// stream is after it: a token byte whose high nibble is the length less one
/// (0: in "s7s" form after the distance) and whose low nibble starts the
/// distance, in "s7s" form.
pub open spec fn stk1_match(src: Seq<u8>, c: int, out: Seq<u8>, output_size: usize) -> Result<(Seq<u8>, int), TekError> {
    if c < 0 || c >= src.len() {
        Err(TekError::UnexpectedEof)
    } else {
        let t = src[c] as usize;
        let cp0 = t >> 4usize;
        let ds0 = t & 0x0f;
        let ds: Option<(usize, int)> = if ds0 & 1 == 0 {
            s7s(src, c + 1, ds0)
        } else {
            Some((ds0 >> 1usize, c + 1))
        };
        match ds {
            None => Err(TekError::UnexpectedEof),
            Some((d, c2)) => {
                let cp: Option<(usize, int)> = if cp0 == 0 {
                    s7s(src, c2, 0)
                } else {
                    Some((cp0, c2))
                };
                match cp {
                    None => Err(TekError::UnexpectedEof),
                    Some((n, c3)) => match match_copy(out, !(d as i32), n.wrapping_add(1), output_size) {
                        Ok(o) => Ok((o, c3)),
                        Err(e) => Err(e),
                    },
                }
            },
        }
    }
}

/// `k` matches of a method-1 stream at `c` appended to `out`.
pub open spec fn stk1_matches(src: Seq<u8>, c: int, out: Seq<u8>, output_size: usize, k: nat) -> Result<(Seq<u8>, int), TekError>
    decreases k,
{
    if k == 0 {
        Ok((out, c))
    } else {
        match stk1_match(src, c, out, output_size) {
            Ok((o, c2)) => stk1_matches(src, c2, o, output_size, (k - 1) as nat),
            Err(e) => Err(e),
        }
    }
}

/// The rest of a round of a method-1 body that started at `c`, once its
/// counts are read and the literals start at `c2`: `nb` literals, then `nl`
/// matches, then the next rounds.
pub open spec fn stk1_tail(src: Seq<u8>, c: int, c2: int, out: Seq<u8>, output_size: usize, nb: nat, nl: nat) -> Result<Seq<u8>, TekError> {
    match literals(src, c2, out, output_size, nb) {
        Err(e) => Err(e),
        Ok((o3, c3)) => if o3.len() >= output_size {
            Ok(o3)
        } else {
            match stk1_matches(src, c3, o3, output_size, nl) {
                Err(e) => Err(e),
                Ok((o4, c4)) => if c4 <= c || c4 > src.len() {
                    Err(TekError::UnexpectedEof)
                } else {
                    stk1_rounds(src, c4, o4, output_size)
                },
            }
        },
    }
}

/// The rest of a method-1 body at `c`, with `out` decoded so far: rounds of
/// a token byte whose nibbles count literals (low) and matches (high), 0
/// meaning a count in "s7s" form after it, then the literals, then the
/// matches, until `output_size` bytes are out.
pub open spec fn stk1_rounds(src: Seq<u8>, c: int, out: Seq<u8>, output_size: usize) -> Result<Seq<u8>, TekError>
    decreases src.len() - c,
{
    if out.len() >= output_size {
        Ok(out)
    } else if c < 0 || c >= src.len() {
        Err(TekError::UnexpectedEof)
    } else {
        let t = src[c] as usize;
        let by0 = t & 0x0f;
        let lz0 = t >> 4usize;
        let by: Option<(usize, int)> = if by0 == 0 { s7s(src, c + 1, 0) } else { Some((by0, c + 1)) };
        match by {
            None => Err(TekError::UnexpectedEof),
            Some((nb, c1)) => {
                let lz: Option<(usize, int)> = if lz0 == 0 { s7s(src, c1, 0) } else { Some((lz0, c1)) };
                match lz {
                    None => Err(TekError::UnexpectedEof),
                    Some((nl, c2)) => match literals(src, c2, out, output_size, nb as nat) {
                        Err(e) => Err(e),
                        Ok((o3, c3)) => if o3.len() >= output_size {
                            Ok(o3)
                        } else {
                            match stk1_matches(src, c3, o3, output_size, nl as nat) {
                                Err(e) => Err(e),
                                Ok((o4, c4)) => if c4 <= c || c4 > src.len() {
                                    Err(TekError::UnexpectedEof)
                                } else {
                                    stk1_rounds(src, c4, o4, output_size)
                                },
                            }
                        },
                    },
                }
            },
        }
    }
}

/// The range decoder of method 5 after its range is brought back to 24
/// significant bits: bytes of `src` from `cursor` on are shifted into `code`
/// while the range is below 2^24. With where it reads next, the range and the
/// code; `Err` when the input ends first.
pub open spec fn normalized(src: Seq<u8>, cursor: int, range: u32, code: u32) -> Result<(int, u32, u32), TekError>
    decreases src.len() - cursor,
{
    if range >= 0x100_0000 {
        Ok((cursor, range, code))
    } else if cursor < 0 || cursor >= src.len() {
        Err(TekError::UnexpectedEof)
    } else {
        normalized(src, cursor + 1, range << 8u32, (code << 8u32) | (src[cursor] as u32))
    }
}

/// `n` bits decoded with probability one half onto the bits of `i`, most
/// significant first: where the decoder is then, and the complement of the
/// bits.
pub open spec fn direct_bits(src: Seq<u8>, cursor: int, range: u32, code: u32, n: i32, i: i32) -> Result<(int, u32, u32, i32), TekError>
    decreases n,
{
    if n <= 0 {
        Ok((cursor, range, code, !i))
    } else {
        match normalized(src, cursor, range, code) {
            Err(e) => Err(e),
            Ok((c, rg, cd)) => {
                let half = rg >> 1u32;
                let i2 = i.wrapping_add(i);
                if cd >= half {
                    direct_bits(src, c, half, (cd - half) as u32, (n - 1) as i32, i2 | 1)
                } else {
                    direct_bits(src, c, half, cd, (n - 1) as i32, i2)
                }
            },
        }
    }
}

/// The properties at the start of a method-5 body: where the range-coded
/// stream starts, the literal context bits, the position bits of matches and
/// of literals, and the flags; or why they cannot be read.
pub open spec fn tek5_props(src: Seq<u8>) -> Result<(int, usize, usize, usize, i32), TekError> {
    if src.len() == 0 {
        Err(TekError::UnexpectedEof)
    } else {
        let first = src[0];
        let fl = first & 0x0f;
        if !(fl == 0x01 || fl == 0x05 || fl == 0x09) {
            Err(TekError::CorruptData("invalid TEK5 property flags"))
        } else {
            let flags0: i32 = if fl == 0x01 { -1i32 } else if fl == 0x05 { -2i32 } else { 0i32 };
            let high = first >> 4u8;
            let prop: Result<(u8, int), TekError> = if high == 0 {
                if src.len() < 2 { Err(TekError::UnexpectedEof) } else { Ok((src[1], 2)) }
            } else if flags0 == -1 {
                if high == 1 {
                    Ok((0x5du8, 1))
                } else if high == 2 {
                    Ok((0u8, 1))
                } else {
                    Err(TekError::CorruptData("invalid stk5 property table"))
                }
            } else if high == 1 {
                Ok((0u8, 1))
            } else {
                Err(TekError::CorruptData("invalid z1/z2 property table"))
            };
            match prop {
                Err(e) => Err(e),
                Ok((p0, c)) => {
                    let lp = (p0 / 45) as usize;
                    let pb = ((p0 % 45) / 9) as usize;
                    let lc = ((p0 % 45) % 9) as usize;
                    let fl2: Result<(i32, int), TekError> = if flags0 == 0 {
                        if c >= src.len() { Err(TekError::UnexpectedEof) } else { Ok((src[c] as i32, c + 1)) }
                    } else {
                        Ok((flags0, c))
                    };
                    match fl2 {
                        Err(e) => Err(e),
                        Ok((flags, c2)) => if flags == -1 {
                            Ok((c2, lc, lp, pb, flags))
                        } else {
                            Ok((c2, lc, pb, lp, flags))
                        },
                    }
                },
            }
        }
    }
}

/// How a method-5 stream that declares `output_size` bytes begins: `Err`
/// where its header is wrong, `Ok(None)` where it holds no byte, and
/// `Ok(Some(start))` where its body starts at `start`.
pub open spec fn tek5_start(input: Seq<u8>, output_size: usize) -> Result<Option<int>, TekError> {
    if input.len() < 16 {
        Err(TekError::UnexpectedEof)
    } else if !(input[0] == 0x89 && input.subrange(1, 16) == tek_header()) {
        Err(TekError::InvalidFormat)
    } else {
        match s7s(input, 16, 0) {
            None => Err(TekError::UnexpectedEof),
            Some((dsiz, c1)) => if dsiz != output_size {
                Err(TekError::InvalidDataSize)
            } else if dsiz == 0 {
                Ok(None)
            } else {
                match s7s(input, c1, 0) {
                    None => Err(TekError::UnexpectedEof),
                    Some((hed, c2)) => if hed & 1 == 0 {
                        if c2 == 0 || c2 > input.len() {
                            Err(TekError::CorruptData("invalid TEK5 header state"))
                        } else {
                            Ok(Some(c2 - 1))
                        }
                    } else if (hed & 0x20) != 0 {
                        Err(TekError::CorruptData("unsupported TEK5 mode"))
                    } else if c2 > input.len() {
                        Err(TekError::UnexpectedEof)
                    } else if vstd::arithmetic::power2::pow2((8 + (hed / 2) % 16) as nat) == 256 {
                        Ok(Some(c2))
                    } else if dsiz > vstd::arithmetic::power2::pow2((8 + (hed / 2) % 16) as nat) {
                        Err(TekError::InvalidDataSize)
                    } else if (hed & 0x40) != 0 {
                        match s7s(input, c2, 0) {
                            None => Err(TekError::UnexpectedEof),
                            Some((_, c3)) => if c3 > input.len() { Err(TekError::UnexpectedEof) } else { Ok(Some(c3)) },
                        }
                    } else {
                        Ok(Some(c2))
                    }
                }
            },
        }
    }
}

/// Whether every bit model that decoding `n` bits from model `bm_index` on
/// uses (the next model each time the count of bits left has its bits in `nm`
/// clear) has no pending change of its probabilities.
spec fn models_settled(bm: Seq<BitModel>, n: i32, nm: i32, bm_index: int) -> bool
    decreases n,
{
    if n <= 0 {
        true
    } else {
        &&& 0 <= bm_index < 32
        &&& bm_index < bm.len()
        &&& bm[bm_index].lt == 0
        &&& models_settled(bm, (n - 1) as i32, nm, if (((n - 1) as i32) & nm) == 0 { bm_index + 1 } else { bm_index })
    }
}

/// `n` bits decoded with the adaptive probabilities at `base + j` (where
/// `j` gathers the bits as a binary tree), each updated after its bit with
/// the speed of its bit model: where the range decoder is then, the
/// probabilities, and `j`. For bit models with no pending change.
spec fn adaptive_bits(
    src: Seq<u8>,
    cursor: int,
    range: u32,
    code: u32,
    rmsk: u32,
    probs: Seq<u32>,
    bm: Seq<BitModel>,
    base: i32,
    n: i32,
    nm: i32,
    j: i32,
    bm_index: int,
) -> Result<(int, u32, u32, Seq<u32>, i32), TekError>
    decreases n,
{
    if n <= 0 {
        Ok((cursor, range, code, probs, j))
    } else {
        let prob_index = (base.wrapping_add(j) as usize) as int;
        if prob_index >= probs.len() {
            Err(TekError::InvalidDataSize)
        } else {
            let p = probs[prob_index];
            match normalized(src, cursor, range, code) {
                Err(e) => Err(e),
                Ok((c, rg, cd)) => {
                    let j2 = j.wrapping_add(j);
                    let split = (((rg & rmsk) as int * p as int) / 0x10000) as u32;
                    let model = bm[bm_index];
                    let next = if (((n - 1) as i32) & nm) == 0 { bm_index + 1 } else { bm_index };
                    if cd < split {
                        let delta = (0x10000u32.wrapping_sub(p) >> (model.m as u32)) & model.tmsk;
                        adaptive_bits(src, c, split, cd, rmsk, probs.update(prob_index, p.wrapping_add(delta)), bm, base,
                            (n - 1) as i32, nm, j2 | 1, next)
                    } else {
                        let delta = (p >> (model.m as u32)) & model.tmsk;
                        adaptive_bits(src, c, rg.wrapping_sub(split), (cd - split) as u32, rmsk,
                            probs.update(prob_index, p.wrapping_sub(delta)), bm, base, (n - 1) as i32, nm, j2, next)
                    }
                },
            }
        }
    }
}

/// A read of the literal tree: the stream, the decoder state (where it
/// reads, range, code, probabilities), the range mask, the bit models, where
/// the literals of its context start, and the literal bit counts.
type LitRead = (Seq<u8>, (int, u32, u32, Seq<u32>), u32, Seq<BitModel>, usize, i32);

/// Whether the bit models that the literal read `l` uses have no pending
/// change.
spec fn lit_settled(l: LitRead) -> bool {
    models_settled(l.3, l.5 & 0x0f, l.5 >> 4, 24)
}

/// The byte that the literal read `l` gives: the low 8 bits of the value
/// decoded from the literal tree, which starts at 1; `None` where the
/// decoding fails.
spec fn lit_byte(l: LitRead) -> Option<u8> {
    match adaptive_call(l.0, l.1, l.2, l.3, l.4, l.5, 1, 24) {
        Ok((_, v)) => Some((v & 0xff) as u8),
        Err(_) => None,
    }
}

/// Whether `out` holds, at each position that `lits` gives a literal read,
/// the byte of that read (where its bit models have no pending change).
spec fn literals_hold(out: Seq<u8>, lits: Map<int, LitRead>) -> bool {
    forall|p: int|
        #[trigger] lits.dom().contains(p) ==> 0 <= p < out.len() && (lit_settled(lits[p]) ==> lit_byte(lits[p]) == Some(out[p]))
}

/// Output that only grows keeps the bytes of its literal reads.
proof fn lemma_literals_extend(out: Seq<u8>, out2: Seq<u8>, lits: Map<int, LitRead>)
    requires
        literals_hold(out, lits),
        out2.len() >= out.len(),
        forall|p: int| 0 <= p < out.len() ==> #[trigger] out2[p] == out[p],
    ensures
        literals_hold(out2, lits),
{
    assert forall|p: int| #[trigger] lits.dom().contains(p) implies 0 <= p < out2.len()
        && (lit_settled(lits[p]) ==> lit_byte(lits[p]) == Some(out2[p])) by {
        assert(out2[p] == out[p]);
    }
}

/// `adaptive_bits` on the decoder state `st` (where it reads, range, code,
/// probabilities), for the call with probabilities from `prob0`, `bits`
/// (count in the low nibble, model steps in the high one), `j` and the first
/// bit model `bmi`.
spec fn adaptive_call(
    src: Seq<u8>,
    st: (int, u32, u32, Seq<u32>),
    rmsk: u32,
    bm: Seq<BitModel>,
    prob0: usize,
    bits: i32,
    j: i32,
    bmi: int,
) -> Result<((int, u32, u32, Seq<u32>), i32), TekError> {
    match adaptive_bits(src, st.0, st.1, st.2, rmsk, st.3, bm, (prob0 as i32).wrapping_sub(j), bits & 0x0f, bits >> 4, j, bmi) {
        Ok((c, rg, cd, pr, v)) => Ok(((c, rg, cd, pr), v)),
        Err(e) => Err(e),
    }
}

/// `direct_bits` on the decoder state `st`, less one.
spec fn direct_call(src: Seq<u8>, st: (int, u32, u32, Seq<u32>), n: i32) -> Result<((int, u32, u32, Seq<u32>), i32), TekError> {
    match direct_bits(src, st.0, st.1, st.2, n, !1i32) {
        Ok((c, rg, cd, v)) => Ok(((c, rg, cd, st.3), v.wrapping_sub(1))),
        Err(e) => Err(e),
    }
}

/// A match length of method 5 for the kind of match `m` at position
/// `s_pos`: a choice bit, then a low length in three bits, or a second choice
/// bit and a middle length, or a high length that may take more bits;
/// `stk` flips the choice bits. With the decoder state after it.
spec fn match_length(
    src: Seq<u8>,
    st: (int, u32, u32, Seq<u32>),
    rmsk: u32,
    bm: Seq<BitModel>,
    ptbm: Seq<usize>,
    m: usize,
    s_pos: usize,
    stk: i32,
) -> Result<((int, u32, u32, Seq<u32>), i32), TekError> {
    match adaptive_call(src, st, rmsk, bm, (LENSEL_OFFSET + m * 2) as usize, 0x71, 0, ptbm[3] as int) {
        Err(e) => Err(e),
        Ok((st1, sel0)) => if (sel0 ^ stk) != 0 {
            match adaptive_call(src, st1, rmsk, bm, (s_pos * PB_ENTRY_LEN + 24 + m * LEN_LOW_LEN) as usize, 0x73, 1, ptbm[4] as int) {
                Err(e) => Err(e),
                Ok((st2, v)) => Ok((st2, v & 7)),
            }
        } else {
            match adaptive_call(src, st1, rmsk, bm, (LENSEL_OFFSET + m * 2 + 1) as usize, 0x71, 0, ptbm[3] as int) {
                Err(e) => Err(e),
                Ok((st2, sel1)) => if (sel1 ^ stk) != 0 {
                    adaptive_call(src, st2, rmsk, bm, (s_pos * PB_ENTRY_LEN + 40 + m * LEN_MID_LEN) as usize, 0x73, 1, ptbm[5] as int)
                } else {
                    match adaptive_call(src, st2, rmsk, bm, (LENHIGH_OFFSET + m * 256) as usize, 0x78, 1, ptbm[6] as int) {
                        Err(e) => Err(e),
                        Ok((st3, h)) => {
                            let value = h.wrapping_sub(504);
                            if value > 0 {
                                let first = if value < 6 && stk == 0 {
                                    match adaptive_call(
                                        src,
                                        st3,
                                        rmsk,
                                        bm,
                                        (LENEXT_OFFSET + vstd::arithmetic::power2::pow2(value as nat) - 2) as usize,
                                        value | 0x70,
                                        1,
                                        ptbm[7] as int,
                                    ) {
                                        Ok((st4, w)) => Ok((st4, w.wrapping_sub(1))),
                                        Err(e) => Err(e),
                                    }
                                } else {
                                    direct_call(src, st3, value)
                                };
                                match first {
                                    Err(e) => Err(e),
                                    Ok((st5, v5)) => match direct_call(src, st5, v5) {
                                        Ok((st6, w)) => Ok((st6, w.wrapping_add(264))),
                                        Err(e) => Err(e),
                                    },
                                }
                            } else {
                                Ok((st3, value.wrapping_add(264)))
                            }
                        },
                    }
                },
            }
        },
    }
}

/// Up to eight bits with a model step every eight use the one bit model
/// they start with.
proof fn lemma_settled_one(bm: Seq<BitModel>, n: i32, b: int)
    requires
        0 <= n <= 8,
        0 <= b < 32,
        bm.len() == 32,
        bm[b].lt == 0,
    ensures
        models_settled(bm, n, 7, b),
    decreases n,
{
    if n > 0 {
        let x = (n - 1) as i32;
        assert((x & 7) == 0 <==> x == 0) by (bit_vector)
            requires
                0 <= x < 8,
        ;
        lemma_settled_one(bm, x, b);
        if x == 0 {
            assert(models_settled(bm, 0, 7, b + 1));
        }
    }
}

/// The bit model `b` with the speed parameters `t` and `m`, and the masks
/// and probability bounds that follow from them.
spec fn model_with(b: BitModel, t: u8, m: u8) -> BitModel {
    let high = 0xffff_ffffu32 << ((m as u32) + (t as u32));
    let tmsk = (0xffff_ffffu32 << (t as u32)) & 0xffff;
    BitModel {
        t,
        m,
        tmsk,
        prb0: (!high) & tmsk,
        prb1: (high | (1u32 << (t as u32))) & tmsk,
        ntm: !tmsk,
        ..b
    }
}

/// The speed parameters that bit model `k` starts with, for `flags`.
spec fn initial_tm(k: int, flags: i32) -> (u8, u8) {
    if flags == -1 {
        (5, 5)
    } else if k == 1 {
        (5, 3)
    } else if k == 2 {
        (9, 2)
    } else if k == 3 && (flags & 0x40) != 0 {
        (0, 1)
    } else if k == 22 {
        (0, 1)
    } else {
        (5, 5)
    }
}

/// The bit model `k` that decoding starts with, for `flags`: the first four
/// (all of them for stk5, the 23rd too for the second z-kind) with no
/// pending change, the others changing after their first bits.
spec fn initial_model(k: int, flags: i32) -> BitModel {
    let (t, m) = initial_tm(k, flags);
    let lt: u32 = if flags == -1 || k < 4 || (flags == -2 && k == 22) { 0 } else { 1 };
    model_with(
        BitModel { t, m, s: 0, lt, lt0: if k < 24 { 16384u32 } else { 8192u32 }, prb0: 0, prb1: 0, tmsk: 0, ntm: 0 },
        t,
        m,
    )
}

/// The probability-table pointers that decoding starts with, for `flags`.
spec fn initial_ptbm(flags: i32) -> Seq<usize> {
    if flags == -1 {
        seq![0usize, 0, 0, 0, 0, 0, 0, 0, 0, 0, 0, 0, 0, 0]
    } else if flags == -2 {
        seq![8usize, 8, 8, 8, 8, 8, 8, 8, 8, 8, 18, 18, 18, 8]
    } else {
        seq![
            8usize,
            (8 + if (flags & 0x04) != 0 { 1int } else { 0 }) as usize,
            10,
            11,
            12,
            (12 + if (flags & 0x08) != 0 { 1int } else { 0 }) as usize,
            14,
            15,
            16,
            (16 + if (flags & 0x10) != 0 { 1int } else { 0 }) as usize,
            18,
            (18 + if (flags & 0x20) != 0 { 1int } else { 0 }) as usize,
            20,
            21
        ]
    }
}

} // verus!
