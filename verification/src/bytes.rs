//! Fixed-width integers as byte sequences, in the byte orders the wire formats use.
use vstd::prelude::*;

verus! {

/// The four bytes of `x`, most significant first.
pub open spec fn be_bytes_u32(x: u32) -> Seq<u8> {
    seq![(x >> 24) as u8, ((x >> 16) & 0xff) as u8, ((x >> 8) & 0xff) as u8, (x & 0xff) as u8]
}

/// The integer whose bytes, most significant first, are `b[0..4]`.
pub open spec fn be_value_u32(b: Seq<u8>) -> u32 {
    (b[0] as u32) << 24 | (b[1] as u32) << 16 | (b[2] as u32) << 8 | (b[3] as u32)
}

/// The four bytes of `x`, least significant first.
pub open spec fn le_bytes_u32(x: u32) -> Seq<u8> {
    seq![(x & 0xff) as u8, ((x >> 8) & 0xff) as u8, ((x >> 16) & 0xff) as u8, (x >> 24) as u8]
}

/// The integer whose bytes, least significant first, are `b[0..4]`.
pub open spec fn le_value_u32(b: Seq<u8>) -> u32 {
    (b[0] as u32) | (b[1] as u32) << 8 | (b[2] as u32) << 16 | (b[3] as u32) << 24
}

/// The two bytes of `x`, least significant first.
pub open spec fn le_bytes_u16(x: u16) -> Seq<u8> {
    seq![(x & 0xff) as u8, (x >> 8) as u8]
}

/// The integer whose bytes, least significant first, are `b[0..2]`.
pub open spec fn le_value_u16(b: Seq<u8>) -> u16 {
    (b[0] as u16) | (b[1] as u16) << 8
}

/// The two bytes of `x` in two's complement, most significant first.
pub open spec fn be_bytes_i16(x: i16) -> Seq<u8> {
    seq![((x as u16) >> 8) as u8, ((x as u16) & 0xff) as u8]
}

/// The two's-complement integer whose bytes, most significant first, are `b[0..2]`.
pub open spec fn be_value_i16(b: Seq<u8>) -> i16 {
    ((b[0] as u16) << 8 | (b[1] as u16)) as i16
}

/// Reading back the big-endian bytes of a `u32` gives the `u32`.
pub proof fn lemma_be_u32_roundtrip(x: u32)
    ensures
        be_bytes_u32(x).len() == 4,
        be_value_u32(be_bytes_u32(x)) == x,
{
    let b0 = (x >> 24) as u8;
    let b1 = ((x >> 16) & 0xff) as u8;
    let b2 = ((x >> 8) & 0xff) as u8;
    let b3 = (x & 0xff) as u8;
    assert((((x >> 24) as u8) as u32) << 24 | ((((x >> 16) & 0xff) as u8) as u32) << 16 | ((((x
        >> 8) & 0xff) as u8) as u32) << 8 | (((x & 0xff) as u8) as u32) == x) by (bit_vector);
}

/// Reading back the little-endian bytes of a `u32` gives the `u32`.
pub proof fn lemma_le_u32_roundtrip(x: u32)
    ensures
        le_bytes_u32(x).len() == 4,
        le_value_u32(le_bytes_u32(x)) == x,
{
    assert(((x & 0xff) as u8) as u32 | ((((x >> 8) & 0xff) as u8) as u32) << 8 | ((((x >> 16)
        & 0xff) as u8) as u32) << 16 | (((x >> 24) as u8) as u32) << 24 == x) by (bit_vector);
}

/// The big-endian bytes of the value read from four bytes are those bytes.
pub proof fn lemma_be_u32_bytes_roundtrip(b: Seq<u8>)
    requires
        b.len() == 4,
    ensures
        be_bytes_u32(be_value_u32(b)) =~= b,
{
    let b0 = b[0];
    let b1 = b[1];
    let b2 = b[2];
    let b3 = b[3];
    let x = be_value_u32(b);
    assert(x == (b0 as u32) << 24 | (b1 as u32) << 16 | (b2 as u32) << 8 | (b3 as u32));
    assert(x == (b0 as u32) << 24 | (b1 as u32) << 16 | (b2 as u32) << 8 | (b3 as u32) ==> (x
        >> 24) as u8 == b0 && ((x >> 16) & 0xff) as u8 == b1 && ((x >> 8) & 0xff) as u8 == b2 && (x
        & 0xff) as u8 == b3) by (bit_vector);
}

/// The little-endian bytes of the value read from four bytes are those bytes.
pub proof fn lemma_le_u32_bytes_roundtrip(b: Seq<u8>)
    requires
        b.len() == 4,
    ensures
        le_bytes_u32(le_value_u32(b)) =~= b,
{
    let b0 = b[0];
    let b1 = b[1];
    let b2 = b[2];
    let b3 = b[3];
    let x = le_value_u32(b);
    assert(x == (b0 as u32) | (b1 as u32) << 8 | (b2 as u32) << 16 | (b3 as u32) << 24);
    assert(x == (b0 as u32) | (b1 as u32) << 8 | (b2 as u32) << 16 | (b3 as u32) << 24 ==> (x
        & 0xff) as u8 == b0 && ((x >> 8) & 0xff) as u8 == b1 && ((x >> 16) & 0xff) as u8 == b2 && (x
        >> 24) as u8 == b3) by (bit_vector);
}

/// Reading back the little-endian bytes of a `u16` gives the `u16`.
pub proof fn lemma_le_u16_roundtrip(x: u16)
    ensures
        le_bytes_u16(x).len() == 2,
        le_value_u16(le_bytes_u16(x)) == x,
{
    assert(((x & 0xff) as u8) as u16 | (((x >> 8) as u8) as u16) << 8 == x) by (bit_vector);
}

/// Reading back the big-endian bytes of an `i16` gives the `i16`.
pub proof fn lemma_be_i16_roundtrip(x: i16)
    ensures
        be_bytes_i16(x).len() == 2,
        be_value_i16(be_bytes_i16(x)) == x,
{
    assert(((((((x as u16) >> 8) as u8) as u16) << 8 | ((((x as u16) & 0xff) as u8) as u16))
        as i16) == x) by (bit_vector);
}

/// The big-endian bytes of `x` are its base-256 digits, most significant first.
pub proof fn lemma_be_u32_digits(x: u32)
    ensures
        be_bytes_u32(x)[0] as int * 0x1000000 + be_bytes_u32(x)[1] as int * 0x10000
            + be_bytes_u32(x)[2] as int * 0x100 + be_bytes_u32(x)[3] as int == x as int,
{
    assert(((x >> 24) as u8) as u32 * 0x1000000u32 + (((x >> 16) & 0xff) as u8) as u32
        * 0x10000u32 + (((x >> 8) & 0xff) as u8) as u32 * 0x100u32 + ((x & 0xff) as u8) as u32
        == x) by (bit_vector);
}

/// The value read from four big-endian bytes is their base-256 number.
pub proof fn lemma_be_u32_value_digits(b0: u8, b1: u8, b2: u8, b3: u8)
    ensures
        be_value_u32(seq![b0, b1, b2, b3]) as int == b0 as int * 0x1000000 + b1 as int * 0x10000
            + b2 as int * 0x100 + b3 as int,
{
    assert((b0 as u32) << 24 | (b1 as u32) << 16 | (b2 as u32) << 8 | (b3 as u32) == (b0 as u32)
        * 0x1000000u32 + (b1 as u32) * 0x10000u32 + (b2 as u32) * 0x100u32 + (b3 as u32))
        by (bit_vector);
}

/// The little-endian bytes of `x` are its base-256 digits, least significant first.
pub proof fn lemma_le_u32_digits(x: u32)
    ensures
        le_bytes_u32(x)[0] as int + le_bytes_u32(x)[1] as int * 0x100 + le_bytes_u32(x)[2] as int
            * 0x10000 + le_bytes_u32(x)[3] as int * 0x1000000 == x as int,
{
    assert(((x & 0xff) as u8) as u32 + (((x >> 8) & 0xff) as u8) as u32 * 0x100u32 + (((x >> 16)
        & 0xff) as u8) as u32 * 0x10000u32 + ((x >> 24) as u8) as u32 * 0x1000000u32 == x)
        by (bit_vector);
}

/// The value read from four little-endian bytes is their base-256 number.
pub proof fn lemma_le_u32_value_digits(b0: u8, b1: u8, b2: u8, b3: u8)
    ensures
        le_value_u32(seq![b0, b1, b2, b3]) as int == b0 as int + b1 as int * 0x100 + b2 as int
            * 0x10000 + b3 as int * 0x1000000,
{
    assert((b0 as u32) | (b1 as u32) << 8 | (b2 as u32) << 16 | (b3 as u32) << 24 == (b0 as u32)
        + (b1 as u32) * 0x100u32 + (b2 as u32) * 0x10000u32 + (b3 as u32) * 0x1000000u32)
        by (bit_vector);
}

/// The little-endian bytes of `x` are its base-256 digits, least significant first.
pub proof fn lemma_le_u16_digits(x: u16)
    ensures
        le_bytes_u16(x)[0] as int + le_bytes_u16(x)[1] as int * 0x100 == x as int,
{
    assert(((x & 0xff) as u8) as u16 + ((x >> 8) as u8) as u16 * 0x100u16 == x) by (bit_vector);
}

/// The value read from two little-endian bytes is their base-256 number.
pub proof fn lemma_le_u16_value_digits(b0: u8, b1: u8)
    ensures
        le_value_u16(seq![b0, b1]) as int == b0 as int + b1 as int * 0x100,
{
    assert((b0 as u16) | (b1 as u16) << 8 == (b0 as u16) + (b1 as u16) * 0x100u16) by (bit_vector);
}

/// The big-endian bytes of `x`.
pub fn u32_to_be_bytes(x: u32) -> (r: [u8; 4])
    ensures
        r@ == be_bytes_u32(x),
{
    let r = [(x >> 24) as u8, ((x >> 16) & 0xff) as u8, ((x >> 8) & 0xff) as u8, (x & 0xff) as u8];
    assert(r@ =~= be_bytes_u32(x));
    r
}

/// The integer whose big-endian bytes are `b0, b1, b2, b3`.
pub fn u32_from_be_bytes(b0: u8, b1: u8, b2: u8, b3: u8) -> (r: u32)
    ensures
        r == be_value_u32(seq![b0, b1, b2, b3]),
{
    (b0 as u32) << 24 | (b1 as u32) << 16 | (b2 as u32) << 8 | (b3 as u32)
}

/// The little-endian bytes of `x`.
pub fn u32_to_le_bytes(x: u32) -> (r: [u8; 4])
    ensures
        r@ == le_bytes_u32(x),
{
    let r = [(x & 0xff) as u8, ((x >> 8) & 0xff) as u8, ((x >> 16) & 0xff) as u8, (x >> 24) as u8];
    assert(r@ =~= le_bytes_u32(x));
    r
}

/// The integer whose little-endian bytes are `b0, b1, b2, b3`.
pub fn u32_from_le_bytes(b0: u8, b1: u8, b2: u8, b3: u8) -> (r: u32)
    ensures
        r == le_value_u32(seq![b0, b1, b2, b3]),
{
    (b0 as u32) | (b1 as u32) << 8 | (b2 as u32) << 16 | (b3 as u32) << 24
}

/// The little-endian bytes of `x`.
pub fn u16_to_le_bytes(x: u16) -> (r: [u8; 2])
    ensures
        r@ == le_bytes_u16(x),
{
    let r = [(x & 0xff) as u8, (x >> 8) as u8];
    assert(r@ =~= le_bytes_u16(x));
    r
}

/// The integer whose little-endian bytes are `b0, b1`.
pub fn u16_from_le_bytes(b0: u8, b1: u8) -> (r: u16)
    ensures
        r == le_value_u16(seq![b0, b1]),
{
    (b0 as u16) | (b1 as u16) << 8
}

} // verus!
