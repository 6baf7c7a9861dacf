//! Little-endian byte layouts of the fixed-size values that travel in a packet,
//! and the facts that tie each layout to its decoding.
use vstd::prelude::*;

verus! {

/// The four little-endian bytes of a `u32`.
pub open spec fn u32_le(v: u32) -> Seq<u8> {
    seq![
        (v % 256) as u8,
        ((v / 256) % 256) as u8,
        ((v / 65536) % 256) as u8,
        ((v / 16777216) % 256) as u8,
    ]
}

/// The `u32` whose little-endian bytes are the first four of `b`.
pub open spec fn u32_from_le(b: Seq<u8>) -> u32 {
    (b[0] + 256 * b[1] + 65536 * b[2] + 16777216 * b[3]) as u32
}

/// The eight little-endian bytes of a `u64`.
pub open spec fn u64_le(v: u64) -> Seq<u8> {
    u32_le((v % 4294967296) as u32) + u32_le((v / 4294967296) as u32)
}

/// The `u64` whose little-endian bytes are the first eight of `b`.
pub open spec fn u64_from_le(b: Seq<u8>) -> u64 {
    (u32_from_le(b) + 4294967296 * u32_from_le(b.subrange(4, 8))) as u64
}

/// The little-endian bytes of an `i32`: those of its two's complement.
pub open spec fn i32_le(v: i32) -> Seq<u8> {
    u32_le(v as u32)
}

pub open spec fn i32_from_le(b: Seq<u8>) -> i32 {
    u32_from_le(b) as i32
}

/// The little-endian bytes of an `i64`: those of its two's complement.
pub open spec fn i64_le(v: i64) -> Seq<u8> {
    u64_le(v as u64)
}

pub open spec fn i64_from_le(b: Seq<u8>) -> i64 {
    u64_from_le(b) as i64
}

/// A `bool` travels as one byte, 1 for `true` and 0 for `false`.
pub open spec fn bool_byte(b: bool) -> Seq<u8> {
    seq![if b { 1u8 } else { 0u8 }]
}

/// A byte string travels as its length (a `u32`) followed by its bytes.
pub open spec fn len_prefixed(bytes: Seq<u8>) -> Seq<u8> {
    u32_le(bytes.len() as u32) + bytes
}

pub proof fn lemma_u32_roundtrip(v: u32)
    ensures
        u32_le(v).len() == 4,
        u32_from_le(u32_le(v)) == v,
{
    assert((v % 256) + 256 * ((v / 256) % 256) + 65536 * ((v / 65536) % 256) + 16777216 * ((v
        / 16777216) % 256) == v) by (bit_vector);
}

pub proof fn lemma_u64_roundtrip(v: u64)
    ensures
        u64_le(v).len() == 8,
        u64_from_le(u64_le(v)) == v,
{
    let lo = (v % 4294967296) as u32;
    let hi = (v / 4294967296) as u32;
    lemma_u32_roundtrip(lo);
    lemma_u32_roundtrip(hi);
    assert(u64_le(v).subrange(4, 8) =~= u32_le(hi));
    assert(u64_le(v).subrange(0, 4) =~= u32_le(lo));
    assert(u32_from_le(u64_le(v)) == u32_from_le(u32_le(lo)));
    assert(lo + 4294967296 * hi == v) by (bit_vector)
        requires
            lo == (v % 4294967296) as u32,
            hi == (v / 4294967296) as u32,
    ;
}

pub proof fn lemma_i32_roundtrip(v: i32)
    ensures
        i32_le(v).len() == 4,
        i32_from_le(i32_le(v)) == v,
{
    lemma_u32_roundtrip(v as u32);
    assert((v as u32) as i32 == v) by (bit_vector);
}

pub proof fn lemma_i64_roundtrip(v: i64)
    ensures
        i64_le(v).len() == 8,
        i64_from_le(i64_le(v)) == v,
{
    lemma_u64_roundtrip(v as u64);
    assert((v as u64) as i64 == v) by (bit_vector);
}

} // verus!
