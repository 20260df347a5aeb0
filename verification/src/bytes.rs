//! Little-endian primitives of the wire format.
//!
//! A 32-bit float is carried as its IEEE-754 bit pattern in a `u32`, so a
//! float field reads and writes exactly like an unsigned field.

use vstd::prelude::*;

verus! {

/// The unsigned 32-bit value that the first four bytes of `s` spell, least
/// significant byte first.
pub open spec fn spec_u32_from_le(s: Seq<u8>) -> u32
    recommends
        s.len() >= 4,
{
    (s[0] as int + 256 * (s[1] as int) + 65536 * (s[2] as int) + 16777216 * (s[3] as int)) as u32
}

/// The unsigned value that the four bytes of `s` from `off` spell.
pub open spec fn spec_u32_at(s: Seq<u8>, off: int) -> u32 {
    spec_u32_from_le(s.subrange(off, off + 4))
}

/// The four bytes that spell `v`, least significant byte first.
#[verifier::opaque]
pub open spec fn spec_u32_to_le(v: u32) -> Seq<u8> {
    seq![
        (v as int % 256) as u8,
        (v as int / 256 % 256) as u8,
        (v as int / 65536 % 256) as u8,
        (v as int / 16777216) as u8,
    ]
}

/// The signed value with the two's-complement bit pattern `u`.
pub open spec fn spec_i32_from_bits(u: u32) -> i32 {
    if u < 0x8000_0000 {
        u as i32
    } else {
        (u as int - 0x1_0000_0000) as i32
    }
}

/// The two's-complement bit pattern of `i`.
pub open spec fn spec_i32_to_bits(i: i32) -> u32 {
    if i >= 0 {
        i as u32
    } else {
        (i as int + 0x1_0000_0000) as u32
    }
}

/// Writing a value and reading it back gives the value.
pub proof fn lemma_u32_le_write_read(v: u32)
    ensures
        spec_u32_to_le(v).len() == 4,
        spec_u32_from_le(spec_u32_to_le(v)) == v,
{
    reveal(spec_u32_to_le);
}

/// Reading four bytes and writing the value back gives the four bytes.
pub proof fn lemma_u32_le_read_write(s: Seq<u8>)
    requires
        s.len() == 4,
    ensures
        spec_u32_to_le(spec_u32_from_le(s)) == s,
{
    reveal(spec_u32_to_le);
    let a = s[0] as int;
    let b = s[1] as int;
    let c = s[2] as int;
    let d = s[3] as int;
    let v = a + 256 * b + 65536 * c + 16777216 * d;
    assert(0 <= v < 0x1_0000_0000);
    assert(v % 256 == a);
    assert(v / 256 == b + 256 * c + 65536 * d);
    assert(v / 65536 == c + 256 * d);
    assert(v / 16777216 == d);
    assert(spec_u32_to_le(spec_u32_from_le(s)) =~= s);
}

/// The bit pattern of a signed value determines it, and the other way round.
pub proof fn lemma_i32_bits_inverse(u: u32, i: i32)
    ensures
        spec_i32_to_bits(spec_i32_from_bits(u)) == u,
        spec_i32_from_bits(spec_i32_to_bits(i)) == i,
{
}

/// Reads an unsigned 32-bit value from the first four bytes of `data`.
pub fn bytes_to_u32(data: &[u8]) -> (r: u32)
    requires
        data@.len() >= 4,
    ensures
        r == spec_u32_from_le(data@),
{
    let b0: u32 = data[0] as u32;
    let b1: u32 = data[1] as u32;
    let b2: u32 = data[2] as u32;
    let b3: u32 = data[3] as u32;
    b0 + 256 * b1 + 65536 * b2 + 16777216 * b3
}

/// Reads an unsigned 32-bit value from the four bytes of `data` that start
/// at `off`.
pub fn u32_at(data: &[u8], off: usize) -> (r: u32)
    requires
        off + 4 <= data@.len(),
    ensures
        r == spec_u32_at(data@, off as int),
{
    let b0: u32 = data[off] as u32;
    let b1: u32 = data[off + 1] as u32;
    let b2: u32 = data[off + 2] as u32;
    let b3: u32 = data[off + 3] as u32;
    b0 + 256 * b1 + 65536 * b2 + 16777216 * b3
}

/// Reinterprets a 32-bit pattern as a signed value.
pub fn u32_to_i32(u: u32) -> (r: i32)
    ensures
        r == spec_i32_from_bits(u),
{
    if u < 0x8000_0000 {
        u as i32
    } else {
        let low: i32 = (u - 0x8000_0000) as i32;
        low - 0x7FFF_FFFF - 1
    }
}

/// Reinterprets a signed value as its 32-bit pattern.
pub fn i32_to_u32(i: i32) -> (r: u32)
    ensures
        r == spec_i32_to_bits(i),
{
    if i >= 0 {
        i as u32
    } else {
        let low: u32 = (i + 0x7FFF_FFFF + 1) as u32;
        low + 0x8000_0000
    }
}

/// Reads a signed 32-bit value from the first four bytes of `data`.
pub fn bytes_to_i32(data: &[u8]) -> (r: i32)
    requires
        data@.len() >= 4,
    ensures
        r == spec_i32_from_bits(spec_u32_from_le(data@)),
{
    u32_to_i32(bytes_to_u32(data))
}

/// Reads the bit pattern of a 32-bit float from the first four bytes of
/// `data`.
pub fn bytes_to_f32_bits(data: &[u8]) -> (r: u32)
    requires
        data@.len() >= 4,
    ensures
        r == spec_u32_from_le(data@),
{
    bytes_to_u32(data)
}

/// Appends the four little-endian bytes of `v` to `out`.
pub fn push_u32_le(out: &mut Vec<u8>, v: u32)
    ensures
        final(out)@ == old(out)@ + spec_u32_to_le(v),
{
    let ghost before = out@;
    proof {
        reveal(spec_u32_to_le);
    }
    out.push((v % 256) as u8);
    out.push((v / 256 % 256) as u8);
    out.push((v / 65536 % 256) as u8);
    out.push((v / 16777216) as u8);
    assert(out@ =~= before + spec_u32_to_le(v));
}

/// Appends every byte of `src` to `out`.
pub fn push_bytes(out: &mut Vec<u8>, src: &[u8])
    ensures
        final(out)@ == old(out)@ + src@,
{
    let ghost before = out@;
    let mut i: usize = 0;
    while i < src.len()
        invariant
            i <= src@.len(),
            out@ == before + src@.subrange(0, i as int),
        decreases src@.len() - i,
    {
        out.push(src[i]);
        i += 1;
        assert(out@ =~= before + src@.subrange(0, i as int));
    }
    assert(src@.subrange(0, src@.len() as int) =~= src@);
}

/// A copy of the bytes of `data` from `start` up to `end`.
pub fn copy_range(data: &[u8], start: usize, end: usize) -> (r: Vec<u8>)
    requires
        start <= end <= data@.len(),
    ensures
        r@ == data@.subrange(start as int, end as int),
{
    let mut out: Vec<u8> = Vec::new();
    let mut i: usize = start;
    while i < end
        invariant
            start <= i <= end <= data@.len(),
            out@ == data@.subrange(start as int, i as int),
        decreases end - i,
    {
        out.push(data[i]);
        i += 1;
        assert(out@ =~= data@.subrange(start as int, i as int));
    }
    out
}

} // verus!
