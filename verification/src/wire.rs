//! Integers in network byte order.

use vstd::prelude::*;

verus! {

/// The two bytes of `v`, most significant first.
pub open spec fn be16(v: u16) -> Seq<u8> {
    seq![(v / 0x100) as u8, (v % 0x100) as u8]
}

/// The four bytes of `v`, most significant first.
pub open spec fn be32(v: u32) -> Seq<u8> {
    seq![
        (v / 0x100_0000) as u8,
        (v / 0x1_0000 % 0x100) as u8,
        (v / 0x100 % 0x100) as u8,
        (v % 0x100) as u8,
    ]
}

/// The unsigned number with the bit pattern of `v` in two's complement.
pub open spec fn twos(v: i32) -> u32 {
    if v >= 0 {
        v as u32
    } else {
        (v + 0x1_0000_0000) as u32
    }
}

/// The signed number whose two's complement bit pattern is `u`.
pub open spec fn untwos(u: u32) -> i32 {
    if u < 0x8000_0000 {
        u as i32
    } else {
        (u - 0x1_0000_0000) as i32
    }
}

/// The four bytes of `v` in two's complement, most significant first.
pub open spec fn be_i32(v: i32) -> Seq<u8> {
    be32(twos(v))
}

/// The eight bytes of `v`, most significant first.
pub open spec fn be64(v: u64) -> Seq<u8> {
    be32((v / 0x1_0000_0000) as u32) + be32((v % 0x1_0000_0000) as u32)
}

/// The number that eight bytes at `index` spell, most significant first.
pub open spec fn u64_at(bytes: Seq<u8>, index: int) -> u64 {
    (u32_at(bytes, index) * 0x1_0000_0000 + u32_at(bytes, index + 4)) as u64
}

/// The list of 16-bit numbers as bytes, two for each, most significant
/// first.
pub open spec fn be16s(values: Seq<u16>) -> Seq<u8> {
    Seq::new(2 * values.len(), |i: int| be16(values[i / 2])[i % 2])
}

/// The list of 16-bit numbers that `bytes` hold, two bytes each.
pub open spec fn u16s_of(bytes: Seq<u8>) -> Seq<u16> {
    Seq::new((bytes.len() / 2) as nat, |i: int| u16_at(bytes, 2 * i))
}

/// The number that two bytes at `index` spell, most significant first.
pub open spec fn u16_at(bytes: Seq<u8>, index: int) -> u16 {
    (bytes[index] * 0x100 + bytes[index + 1]) as u16
}

/// The number that four bytes at `index` spell, most significant first.
pub open spec fn u32_at(bytes: Seq<u8>, index: int) -> u32 {
    (bytes[index] * 0x100_0000 + bytes[index + 1] * 0x1_0000 + bytes[index + 2] * 0x100
        + bytes[index + 3]) as u32
}

/// The signed number that four bytes at `index` spell in two's complement.
pub open spec fn i32_at(bytes: Seq<u8>, index: int) -> i32 {
    untwos(u32_at(bytes, index))
}

/// The bytes written for a 16-bit number are its big-endian representation:
/// two bytes whose value, most significant first, is the number.
pub proof fn lemma_be16_round_trip(v: u16)
    ensures
        be16(v).len() == 2,
        be16(v)[0] * 0x100 + be16(v)[1] == v,
        u16_at(be16(v), 0) == v,
{
}

/// The bytes written for a 32-bit number are its big-endian representation:
/// four bytes whose value, most significant first, is the number.
pub proof fn lemma_be32_round_trip(v: u32)
    ensures
        be32(v).len() == 4,
        be32(v)[0] * 0x100_0000 + be32(v)[1] * 0x1_0000 + be32(v)[2] * 0x100 + be32(v)[3] == v,
        u32_at(be32(v), 0) == v,
{
}

/// The bytes written for a signed 32-bit number are the big-endian
/// representation of its two's complement bit pattern, and read back as the
/// number.
pub proof fn lemma_be_i32_round_trip(v: i32)
    ensures
        be_i32(v).len() == 4,
        untwos(twos(v)) == v,
        i32_at(be_i32(v), 0) == v,
{
    lemma_be32_round_trip(twos(v));
}

/// The bytes written for a 64-bit number read back as the number.
pub proof fn lemma_be64_round_trip(v: u64)
    ensures
        be64(v).len() == 8,
        u64_at(be64(v), 0) == v,
{
    let high = (v / 0x1_0000_0000) as u32;
    let low = (v % 0x1_0000_0000) as u32;
    lemma_be32_round_trip(high);
    lemma_be32_round_trip(low);
    let bytes = be64(v);
    assert(bytes[0] == be32(high)[0] && bytes[1] == be32(high)[1] && bytes[2] == be32(high)[2]
        && bytes[3] == be32(high)[3]);
    assert(bytes[4] == be32(low)[0] && bytes[5] == be32(low)[1] && bytes[6] == be32(low)[2]
        && bytes[7] == be32(low)[3]);
    assert(u32_at(bytes, 0) == high);
    assert(u32_at(bytes, 4) == low);
}

/// The bytes written for a list of 16-bit numbers read back as the list.
pub proof fn lemma_be16s_round_trip(values: Seq<u16>)
    ensures
        be16s(values).len() == 2 * values.len(),
        u16s_of(be16s(values)) == values,
{
    let bytes = be16s(values);
    assert(bytes.len() / 2 == values.len());
    assert forall|i: int| 0 <= i < values.len() implies #[trigger] u16s_of(bytes)[i]
        == values[i] by {
        assert((2 * i) / 2 == i && (2 * i) % 2 == 0);
        assert((2 * i + 1) / 2 == i && (2 * i + 1) % 2 == 1);
        lemma_be16_round_trip(values[i]);
    }
    assert(u16s_of(bytes) =~= values);
}

/// Two bytes are the big-endian representation of the number they spell.
pub proof fn lemma_u16_at_be(bytes: Seq<u8>, index: int)
    requires
        0 <= index,
        index + 2 <= bytes.len(),
    ensures
        be16(u16_at(bytes, index)) == bytes.subrange(index, index + 2),
{
    assert(be16(u16_at(bytes, index)) =~= bytes.subrange(index, index + 2));
}

/// Four bytes are the big-endian representation of the number they spell.
pub proof fn lemma_u32_at_be(bytes: Seq<u8>, index: int)
    requires
        0 <= index,
        index + 4 <= bytes.len(),
    ensures
        be32(u32_at(bytes, index)) == bytes.subrange(index, index + 4),
        twos(untwos(u32_at(bytes, index))) == u32_at(bytes, index),
{
    let b0 = bytes[index] as int;
    let b1 = bytes[index + 1] as int;
    let b2 = bytes[index + 2] as int;
    let b3 = bytes[index + 3] as int;
    let v = u32_at(bytes, index) as int;
    assert(v == b0 * 0x100_0000 + (b1 * 0x1_0000 + b2 * 0x100 + b3));
    assert(v / 0x100_0000 == b0);
    let v2 = b0 * 0x100 + b1;
    assert(v == v2 * 0x1_0000 + (b2 * 0x100 + b3));
    assert(v / 0x1_0000 == v2);
    assert(v2 % 0x100 == b1);
    let v3 = v2 * 0x100 + b2;
    assert(v == v3 * 0x100 + b3);
    assert(v / 0x100 == v3);
    assert(v3 % 0x100 == b2);
    assert(v % 0x100 == b3);
    assert(be32(u32_at(bytes, index)) =~= bytes.subrange(index, index + 4));
}

/// The number spelled by two bytes, most significant first.
pub fn u16_from_be(hi: u8, lo: u8) -> (v: u16)
    ensures
        v == hi * 0x100 + lo,
{
    (hi as u16) * 0x100 + (lo as u16)
}

/// The number spelled by four bytes, most significant first.
pub fn u32_from_be(b0: u8, b1: u8, b2: u8, b3: u8) -> (v: u32)
    ensures
        v == b0 * 0x100_0000 + b1 * 0x1_0000 + b2 * 0x100 + b3,
{
    (b0 as u32) * 0x100_0000 + (b1 as u32) * 0x1_0000 + (b2 as u32) * 0x100 + (b3 as u32)
}

/// The number spelled by two 32-bit halves, most significant first.
pub fn u64_from_be(high: u32, low: u32) -> (v: u64)
    ensures
        v == high * 0x1_0000_0000 + low,
{
    (high as u64) * 0x1_0000_0000 + (low as u64)
}

/// The signed number with the two's complement bit pattern `u`.
pub fn i32_from_bits(u: u32) -> (v: i32)
    ensures
        v == untwos(u),
{
    if u < 0x8000_0000 {
        u as i32
    } else {
        let low: i32 = (u - 0x8000_0000) as i32;
        low + i32::MIN
    }
}

/// The two's complement bit pattern of `v`.
pub fn i32_to_bits(v: i32) -> (u: u32)
    ensures
        u == twos(v),
{
    if v >= 0 {
        v as u32
    } else {
        let low: u32 = (v - i32::MIN) as u32;
        low + 0x8000_0000
    }
}

} // verus!
