//! Little-endian codec of the primitive wire types.
//!
//! A register holds a `u8`, a `u16` or a single-precision number, in one, two
//! or four bytes, least significant byte first. A single-precision number
//! travels as the four bytes of its IEEE-754 bit pattern. The codec copies
//! bits and never interprets them, so the pattern itself is what this crate
//! holds: see [`Binary32`].

use vstd::prelude::*;

verus! {

/// The number that the first byte of `b` spells.
pub open spec fn u8_from_wire(b: Seq<u8>) -> int {
    b[0] as int
}

/// The one byte of `x`.
pub open spec fn u8_wire(x: u8) -> Seq<u8> {
    seq![x]
}

/// The number that the first two bytes of `b` spell, least significant first.
pub open spec fn u16_from_wire(b: Seq<u8>) -> int {
    b[0] + 256 * b[1]
}

/// The two bytes of `x`, least significant first.
pub open spec fn u16_wire(x: u16) -> Seq<u8> {
    seq![(x % 256) as u8, (x / 256) as u8]
}

/// The number that the first four bytes of `b` spell, least significant first.
pub open spec fn u32_from_wire(b: Seq<u8>) -> int {
    b[0] + 256 * b[1] + 65536 * b[2] + 16777216 * b[3]
}

/// The four bytes of `x`, least significant first.
pub open spec fn u32_wire(x: u32) -> Seq<u8> {
    seq![
        (x % 256) as u8,
        (x / 256 % 256) as u8,
        (x / 65536 % 256) as u8,
        (x / 16777216) as u8,
    ]
}

/// Decodes a `u8` from its wire byte.
pub fn u8_from_le_bytes(bytes: [u8; 1]) -> (x: u8)
    ensures
        x == u8_from_wire(bytes@),
        u8_wire(x) == bytes@,
{
    proof {
        lemma_u8_encode_decode(bytes@);
    }
    bytes[0]
}

/// Encodes a `u8` as its wire byte.
pub fn u8_to_le_bytes(x: u8) -> (bytes: [u8; 1])
    ensures
        bytes@ == u8_wire(x),
        u8_from_wire(bytes@) == x,
{
    let bytes: [u8; 1] = [x];
    assert(bytes@ =~= u8_wire(x));
    bytes
}

/// Decodes a `u16` from its two wire bytes.
pub fn u16_from_le_bytes(bytes: [u8; 2]) -> (x: u16)
    ensures
        x == u16_from_wire(bytes@),
        u16_wire(x) == bytes@,
{
    proof {
        lemma_u16_encode_decode(bytes@);
    }
    let b0: u16 = bytes[0] as u16;
    let b1: u16 = bytes[1] as u16;
    b0 + 256 * b1
}

/// Encodes a `u16` as its two wire bytes.
pub fn u16_to_le_bytes(x: u16) -> (bytes: [u8; 2])
    ensures
        bytes@ == u16_wire(x),
        u16_from_wire(bytes@) == x,
{
    let bytes: [u8; 2] = [(x % 256) as u8, (x / 256) as u8];
    assert(bytes@ =~= u16_wire(x));
    bytes
}

/// A single-precision number, held as its IEEE-754 bit pattern.
///
/// Two values are equal when their patterns are: the two zeros differ, and a
/// NaN equals itself, payload included. No pattern is refused.
#[derive(Clone, Copy, Debug, PartialEq, Eq, Structural)]
pub struct Binary32 {
    pub bits: u32,
}

impl Binary32 {
    /// The value that the first four bytes of `b` spell.
    pub open spec fn from_wire(b: Seq<u8>) -> Binary32 {
        Binary32 { bits: u32_from_wire(b) as u32 }
    }

    /// The four wire bytes of the value.
    pub open spec fn wire(self) -> Seq<u8> {
        u32_wire(self.bits)
    }

    /// The value with the given bit pattern.
    pub fn from_bits(bits: u32) -> (v: Binary32)
        ensures
            v.bits == bits,
    {
        Binary32 { bits }
    }

    /// The bit pattern of the value.
    pub fn to_bits(&self) -> (bits: u32)
        ensures
            bits == self.bits,
    {
        self.bits
    }

    /// Decodes a value from its four wire bytes.
    pub fn from_le_bytes(bytes: [u8; 4]) -> (v: Binary32)
        ensures
            v == Binary32::from_wire(bytes@),
            v.wire() == bytes@,
    {
        proof {
            lemma_binary32_encode_decode(bytes@);
        }
        let b0: u32 = bytes[0] as u32;
        let b1: u32 = bytes[1] as u32;
        let b2: u32 = bytes[2] as u32;
        let b3: u32 = bytes[3] as u32;
        Binary32 { bits: b0 + 256 * b1 + 65536 * b2 + 16777216 * b3 }
    }

    /// Encodes the value as its four wire bytes.
    pub fn to_le_bytes(&self) -> (bytes: [u8; 4])
        ensures
            bytes@ == self.wire(),
            Binary32::from_wire(bytes@) == *self,
    {
        proof {
            lemma_binary32_decode_encode(*self);
        }
        let x: u32 = self.bits;
        let bytes: [u8; 4] = [
            (x % 256) as u8,
            (x / 256 % 256) as u8,
            (x / 65536 % 256) as u8,
            (x / 16777216) as u8,
        ];
        assert(bytes@ =~= self.wire());
        bytes
    }
}

/// Encoding a `u8` and decoding the byte gives the number back.
pub proof fn lemma_u8_decode_encode(x: u8)
    ensures
        u8_wire(x).len() == 1,
        u8_from_wire(u8_wire(x)) == x,
{
}

/// Decoding one byte and encoding the number gives the byte back.
pub proof fn lemma_u8_encode_decode(b: Seq<u8>)
    requires
        b.len() == 1,
    ensures
        u8_wire(u8_from_wire(b) as u8) == b,
{
    assert(u8_wire(u8_from_wire(b) as u8) =~= b);
}

/// Encoding a `u16` and decoding the bytes gives the number back.
pub proof fn lemma_u16_decode_encode(x: u16)
    ensures
        u16_wire(x).len() == 2,
        u16_from_wire(u16_wire(x)) == x,
{
}

/// Decoding two bytes and encoding the number gives the bytes back.
pub proof fn lemma_u16_encode_decode(b: Seq<u8>)
    requires
        b.len() == 2,
    ensures
        0 <= u16_from_wire(b) <= u16::MAX,
        u16_wire(u16_from_wire(b) as u16) == b,
{
    assert(u16_wire(u16_from_wire(b) as u16) =~= b);
}

/// Encoding a `u32` and decoding the bytes gives the number back.
pub proof fn lemma_u32_decode_encode(x: u32)
    ensures
        u32_wire(x).len() == 4,
        u32_from_wire(u32_wire(x)) == x,
{
    let high = x / 256;
    assert(x == x % 256 + 256 * high);
    let higher = high / 256;
    assert(high == high % 256 + 256 * higher);
    assert(higher == x / 65536 && higher / 256 == x / 16777216);
    assert(higher == higher % 256 + 256 * (higher / 256));
}

/// Decoding four bytes and encoding the number gives the bytes back.
pub proof fn lemma_u32_encode_decode(b: Seq<u8>)
    requires
        b.len() == 4,
    ensures
        0 <= u32_from_wire(b) <= u32::MAX,
        u32_wire(u32_from_wire(b) as u32) == b,
{
    let x = u32_from_wire(b);
    let high = b[1] + 256 * b[2] + 65536 * b[3];
    assert(x == b[0] + 256 * high);
    assert(x % 256 == b[0] && x / 256 == high);
    let higher = b[2] + 256 * b[3];
    assert(high == b[1] + 256 * higher);
    assert(high % 256 == b[1] && high / 256 == higher);
    assert(x / 65536 == higher && x / 16777216 == b[3]);
    assert(u32_wire(x as u32) =~= b);
}

/// Encoding a single-precision value and decoding the bytes gives the same
/// bit pattern back, whatever the pattern stands for.
pub proof fn lemma_binary32_decode_encode(v: Binary32)
    ensures
        v.wire().len() == 4,
        Binary32::from_wire(v.wire()) == v,
{
    lemma_u32_decode_encode(v.bits);
}

/// Decoding four bytes as a single-precision value and encoding it gives the
/// bytes back.
pub proof fn lemma_binary32_encode_decode(b: Seq<u8>)
    requires
        b.len() == 4,
    ensures
        Binary32::from_wire(b).wire() == b,
{
    lemma_u32_encode_decode(b);
}

} // verus!
