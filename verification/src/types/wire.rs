//! Little-endian byte layout of the fixed-width integers that make up an atom.

use vstd::prelude::*;

verus! {

/// Little-endian bytes of a 16-bit value.
pub open spec fn le_u16(v: u16) -> Seq<u8> {
    seq![(v % 256) as u8, (v / 256) as u8]
}

/// Little-endian bytes of a 32-bit value.
pub open spec fn le_u32(v: u32) -> Seq<u8> {
    seq![
        (v % 256) as u8,
        ((v / 256) % 256) as u8,
        ((v / 65536) % 256) as u8,
        (v / 16777216) as u8,
    ]
}

/// Little-endian bytes of a 64-bit value.
pub open spec fn le_u64(v: u64) -> Seq<u8> {
    le_u32((v % 4294967296) as u32) + le_u32((v / 4294967296) as u32)
}

/// The 16-bit value stored little-endian at `b[i..i+2]`.
pub open spec fn read_u16(b: Seq<u8>, i: int) -> u16 {
    (b[i] + 256 * b[i + 1]) as u16
}

/// The 32-bit value stored little-endian at `b[i..i+4]`.
pub open spec fn read_u32(b: Seq<u8>, i: int) -> u32 {
    (b[i] + 256 * b[i + 1] + 65536 * b[i + 2] + 16777216 * b[i + 3]) as u32
}

/// The 64-bit value stored little-endian at `b[i..i+8]`.
pub open spec fn read_u64(b: Seq<u8>, i: int) -> u64 {
    (read_u32(b, i) + 4294967296 * read_u32(b, i + 4)) as u64
}

pub proof fn lemma_u16_roundtrip(v: u16)
    ensures
        read_u16(le_u16(v), 0) == v,
{
    assert((v % 256) + 256 * (v / 256) == v) by (nonlinear_arith);
}

pub proof fn lemma_u32_roundtrip(v: u32)
    ensures
        read_u32(le_u32(v), 0) == v,
{
    assert((v % 256) + 256 * ((v / 256) % 256) + 65536 * ((v / 65536) % 256) + 16777216 * (v
        / 16777216) == v) by (bit_vector);
}

pub proof fn lemma_u64_roundtrip(v: u64)
    ensures
        read_u64(le_u64(v), 0) == v,
{
    let lo = (v % 4294967296) as u32;
    let hi = (v / 4294967296) as u32;
    lemma_u32_roundtrip(lo);
    lemma_u32_roundtrip(hi);
    let s = le_u64(v);
    assert(s.subrange(0, 4) =~= le_u32(lo));
    assert(s.subrange(4, 8) =~= le_u32(hi));
    assert(read_u32(s, 0) == read_u32(le_u32(lo), 0));
    assert(read_u32(s, 4) == read_u32(le_u32(hi), 0));
    assert(v % 4294967296 + 4294967296 * (v / 4294967296) == v) by (nonlinear_arith);
}

pub proof fn lemma_u16_bytes(b0: u8, b1: u8)
    ensures
        le_u16((b0 + 256 * b1) as u16) == seq![b0, b1],
{
    let v = (b0 + 256 * b1) as u16;
    assert(v % 256 == b0 && v / 256 == b1) by (nonlinear_arith)
        requires
            v == b0 + 256 * b1,
            b0 < 256,
            b1 < 256,
    ;
    assert(le_u16(v) =~= seq![b0, b1]);
}

pub proof fn lemma_u32_bytes(b0: u8, b1: u8, b2: u8, b3: u8)
    ensures
        le_u32((b0 + 256 * b1 + 65536 * b2 + 16777216 * b3) as u32) == seq![b0, b1, b2, b3],
{
    let v = (b0 + 256 * b1 + 65536 * b2 + 16777216 * b3) as u32;
    assert(v == b0 + 256 * b1 + 65536 * b2 + 16777216 * b3);
    assert(v % 256 == b0 && (v / 256) % 256 == b1 && (v / 65536) % 256 == b2 && v / 16777216
        == b3) by (bit_vector)
        requires
            v == b0 + 256 * b1 + 65536 * b2 + 16777216 * b3,
    ;
    assert(le_u32(v) =~= seq![b0, b1, b2, b3]);
}

/// Little-endian bytes of `v`.
pub fn u16_to_le(v: u16) -> (r: [u8; 2])
    ensures
        r@ == le_u16(v),
{
    let r = [(v % 256) as u8, (v / 256) as u8];
    assert(r@ =~= le_u16(v));
    r
}

/// Little-endian bytes of `v`.
pub fn u32_to_le(v: u32) -> (r: [u8; 4])
    ensures
        r@ == le_u32(v),
{
    let r = [
        (v % 256) as u8,
        ((v / 256) % 256) as u8,
        ((v / 65536) % 256) as u8,
        (v / 16777216) as u8,
    ];
    assert(r@ =~= le_u32(v));
    r
}

/// The 16-bit value stored little-endian at `b[i..i+2]`.
pub fn u16_from_le(b: &[u8], i: usize) -> (r: u16)
    requires
        i + 2 <= b@.len(),
    ensures
        r == read_u16(b@, i as int),
{
    b[i] as u16 + 256 * (b[i + 1] as u16)
}

/// The 32-bit value stored little-endian at `b[i..i+4]`.
pub fn u32_from_le(b: &[u8], i: usize) -> (r: u32)
    requires
        i + 4 <= b@.len(),
    ensures
        r == read_u32(b@, i as int),
{
    b[i] as u32 + 256 * (b[i + 1] as u32) + 65536 * (b[i + 2] as u32) + 16777216 * (b[i
        + 3] as u32)
}

/// The 64-bit value stored little-endian at `b[i..i+8]`.
pub fn u64_from_le(b: &[u8], i: usize) -> (r: u64)
    requires
        i + 8 <= b@.len(),
    ensures
        r == read_u64(b@, i as int),
{
    let len = b.len();
    assert(i + 8 <= len);
    let lo = u32_from_le(b, i) as u64;
    let hi = u32_from_le(b, i + 4) as u64;
    lo + 4294967296 * hi
}

} // verus!
