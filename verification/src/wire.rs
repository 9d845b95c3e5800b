//! Little-endian field readers and writers over byte sequences.
//!
//! The Livox wire format is little-endian throughout; these helpers state each
//! field's value over the bytes it occupies.

use vstd::prelude::*;

verus! {

/// The unsigned 16-bit value stored little-endian at `off`.
pub open spec fn le_u16(b: Seq<u8>, off: int) -> int {
    b[off] as int + 256 * (b[off + 1] as int)
}

/// The unsigned 32-bit value stored little-endian at `off`.
pub open spec fn le_u32(b: Seq<u8>, off: int) -> int {
    b[off] as int + 256 * (b[off + 1] as int) + 65536 * (b[off + 2] as int) + 16777216 * (
    b[off + 3] as int)
}

/// The two's-complement 16-bit value stored little-endian at `off`.
pub open spec fn le_i16(b: Seq<u8>, off: int) -> int {
    let u = le_u16(b, off);
    if u < 0x8000 {
        u
    } else {
        u - 0x1_0000
    }
}

/// The two's-complement 32-bit value stored little-endian at `off`.
pub open spec fn le_i32(b: Seq<u8>, off: int) -> int {
    let u = le_u32(b, off);
    if u < 0x8000_0000 {
        u
    } else {
        u - 0x1_0000_0000
    }
}

/// The two little-endian bytes of `x`.
pub open spec fn u16_bytes(x: u16) -> Seq<u8> {
    seq![(x % 256) as u8, (x / 256) as u8]
}

/// The four little-endian bytes of `x`.
pub open spec fn u32_bytes(x: u32) -> Seq<u8> {
    seq![
        (x % 256) as u8,
        ((x / 256) % 256) as u8,
        ((x / 65536) % 256) as u8,
        (x / 16777216) as u8,
    ]
}

/// Reads the little-endian `u16` at `off`.
pub fn read_u16(b: &[u8], off: usize) -> (r: u16)
    requires
        off + 2 <= b@.len(),
    ensures
        r as int == le_u16(b@, off as int),
{
    b[off] as u16 + 256 * (b[off + 1] as u16)
}

/// Reads the little-endian `u32` at `off`.
pub fn read_u32(b: &[u8], off: usize) -> (r: u32)
    requires
        off + 4 <= b@.len(),
    ensures
        r as int == le_u32(b@, off as int),
{
    b[off] as u32 + 256 * (b[off + 1] as u32) + 65536 * (b[off + 2] as u32) + 16777216 * (
    b[off + 3] as u32)
}

/// Reads the little-endian two's-complement `i16` at `off`.
pub fn read_i16(b: &[u8], off: usize) -> (r: i16)
    requires
        off + 2 <= b@.len(),
    ensures
        r as int == le_i16(b@, off as int),
{
    let u = read_u16(b, off);
    if u < 0x8000 {
        u as i16
    } else {
        (u as i32 - 0x1_0000) as i16
    }
}

/// Reads the little-endian two's-complement `i32` at `off`.
pub fn read_i32(b: &[u8], off: usize) -> (r: i32)
    requires
        off + 4 <= b@.len(),
    ensures
        r as int == le_i32(b@, off as int),
{
    let u = read_u32(b, off);
    if u < 0x8000_0000 {
        u as i32
    } else {
        (u as i64 - 0x1_0000_0000) as i32
    }
}

/// Appends the two little-endian bytes of `x`.
pub fn push_u16(out: &mut Vec<u8>, x: u16)
    ensures
        final(out)@ == old(out)@ + u16_bytes(x),
{
    out.push((x % 256) as u8);
    out.push((x / 256) as u8);
}

/// Appends the four little-endian bytes of `x`.
pub fn push_u32(out: &mut Vec<u8>, x: u32)
    ensures
        final(out)@ == old(out)@ + u32_bytes(x),
{
    out.push((x % 256) as u8);
    out.push(((x / 256) % 256) as u8);
    out.push(((x / 65536) % 256) as u8);
    out.push((x / 16777216) as u8);
}

/// Appends every byte of `bytes`.
pub fn push_all(out: &mut Vec<u8>, bytes: &[u8])
    ensures
        final(out)@ == old(out)@ + bytes@,
{
    let mut i: usize = 0;
    while i < bytes.len()
        invariant
            i <= bytes@.len(),
            out@ == old(out)@ + bytes@.take(i as int),
        decreases bytes@.len() - i,
    {
        out.push(bytes[i]);
        i = i + 1;
        assert(bytes@.take(i as int) == bytes@.take(i - 1) + seq![bytes@[i - 1]]);
    }
    assert(bytes@.take(i as int) == bytes@);
}

/// Decoding the bytes of `x` gives `x` back.
pub proof fn lemma_u16_bytes_roundtrip(x: u16, b: Seq<u8>, off: int)
    requires
        0 <= off,
        off + 2 <= b.len(),
        b.subrange(off, off + 2) == u16_bytes(x),
    ensures
        le_u16(b, off) == x as int,
{
    assert(b[off] == u16_bytes(x)[0]);
    assert(b[off + 1] == u16_bytes(x)[1]);
}

/// Decoding the bytes of `x` gives `x` back.
pub proof fn lemma_u32_bytes_roundtrip(x: u32, b: Seq<u8>, off: int)
    requires
        0 <= off,
        off + 4 <= b.len(),
        b.subrange(off, off + 4) == u32_bytes(x),
    ensures
        le_u32(b, off) == x as int,
{
    assert(b[off] == u32_bytes(x)[0]);
    assert(b[off + 1] == u32_bytes(x)[1]);
    assert(b[off + 2] == u32_bytes(x)[2]);
    assert(b[off + 3] == u32_bytes(x)[3]);
}

/// Multi-byte fields are little-endian: the byte at `off` is the least significant,
/// and a signed field is negative exactly when the top bit of its last byte is set.
pub proof fn lemma_little_endian_fields(b: Seq<u8>, off: int)
    ensures
        le_u16(b, off) == b[off] as int + 256 * b[off + 1] as int,
        le_u32(b, off) == b[off] as int + 256 * b[off + 1] as int + 65536 * b[off + 2] as int
            + 16777216 * b[off + 3] as int,
        le_i16(b, off) == if b[off + 1] < 128 {
            b[off] as int + 256 * b[off + 1] as int
        } else {
            b[off] as int + 256 * b[off + 1] as int - 65536
        },
        le_i32(b, off) == if b[off + 3] < 128 {
            le_u32(b, off)
        } else {
            le_u32(b, off) - 4294967296
        },
        0 <= le_u16(b, off) < 65536,
        0 <= le_u32(b, off) < 4294967296,
        -32768 <= le_i16(b, off) < 32768,
        -2147483648 <= le_i32(b, off) < 2147483648,
{
}

/// Writing puts the least significant byte first.
pub proof fn lemma_written_bytes_little_endian(x: u16, y: u32)
    ensures
        u16_bytes(x).len() == 2,
        u16_bytes(x)[0] as int == x as int % 256,
        u16_bytes(x)[1] as int == x as int / 256,
        u32_bytes(y).len() == 4,
        u32_bytes(y)[0] as int == y as int % 256,
        u32_bytes(y)[1] as int == (y as int / 256) % 256,
        u32_bytes(y)[2] as int == (y as int / 65536) % 256,
        u32_bytes(y)[3] as int == y as int / 16777216,
{
}

} // verus!
