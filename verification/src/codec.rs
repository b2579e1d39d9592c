//! Little-endian value codec.
//!
//! Every sensor field travels as a fixed-width little-endian byte string:
//! one unsigned byte (battery percentage), an unsigned or signed 16-bit
//! word (voltage, levels, temperature), or an unsigned 32-bit word (status
//! and error counter). Decoding fails with [`Error::InvalidData`], carrying
//! the offending bytes, exactly when the buffer is shorter than the field's
//! width; longer buffers are read at their prefix. Encoding produces the
//! exact inverse layout, and the round-trip laws are proved below.

use vstd::prelude::*;

use crate::error::Error;

verus! {

/// The unsigned value of the first two bytes read little-endian.
pub open spec fn u16_le(b: Seq<u8>) -> int {
    b[0] + 0x100 * b[1]
}

/// The unsigned value of the first four bytes read little-endian.
pub open spec fn u32_le(b: Seq<u8>) -> int {
    b[0] + 0x100 * b[1] + 0x1_0000 * b[2] + 0x100_0000 * b[3]
}

/// The two's-complement value of the first two bytes read little-endian.
pub open spec fn i16_le(b: Seq<u8>) -> int {
    if u16_le(b) >= 0x8000 {
        u16_le(b) - 0x1_0000
    } else {
        u16_le(b)
    }
}

/// The two-byte little-endian layout of an unsigned 16-bit value.
pub open spec fn u16_le_bytes(v: int) -> Seq<u8> {
    seq![(v % 0x100) as u8, ((v / 0x100) % 0x100) as u8]
}

/// The four-byte little-endian layout of an unsigned 32-bit value.
pub open spec fn u32_le_bytes(v: int) -> Seq<u8> {
    seq![
        (v % 0x100) as u8,
        ((v / 0x100) % 0x100) as u8,
        ((v / 0x1_0000) % 0x100) as u8,
        ((v / 0x100_0000) % 0x100) as u8,
    ]
}

/// The two-byte little-endian layout of a signed 16-bit value, two's
/// complement.
pub open spec fn i16_le_bytes(v: int) -> Seq<u8> {
    u16_le_bytes(if v < 0 { v + 0x1_0000 } else { v })
}

/// An exact copy of a byte buffer, used to retain offending bytes in
/// [`Error::InvalidData`].
fn copied_bytes(src: &Vec<u8>) -> (r: Vec<u8>)
    ensures
        r@ == src@,
{
    let mut out: Vec<u8> = Vec::new();
    let mut i: usize = 0;
    while i < src.len()
        invariant
            i <= src@.len(),
            out@ == src@.subrange(0, i as int),
        decreases src@.len() - i,
    {
        out.push(src[i]);
        i = i + 1;
    }
    proof {
        assert(out@ =~= src@);
    }
    out
}

/// Decodes a one-byte unsigned field (battery percentage).
pub fn decode_u8(raw: &Vec<u8>) -> (r: Result<u8, Error>)
    ensures
        raw@.len() >= 1 ==> r == Ok::<u8, Error>(raw@[0]),
        raw@.len() < 1 ==> (r matches Err(Error::InvalidData(b)) && b@ == raw@),
{
    if raw.len() >= 1 {
        Ok(raw[0])
    } else {
        Err(Error::InvalidData(copied_bytes(raw)))
    }
}

/// Decodes an unsigned 16-bit little-endian field (voltage, water levels).
pub fn decode_u16(raw: &Vec<u8>) -> (r: Result<u16, Error>)
    ensures
        raw@.len() >= 2 ==> (r matches Ok(v) && v == u16_le(raw@)),
        raw@.len() < 2 ==> (r matches Err(Error::InvalidData(b)) && b@ == raw@),
{
    if raw.len() >= 2 {
        let lo = raw[0] as u16;
        let hi = raw[1] as u16;
        Ok(lo + hi * 0x100)
    } else {
        Err(Error::InvalidData(copied_bytes(raw)))
    }
}

/// Decodes a signed 16-bit little-endian field (temperature).
pub fn decode_i16(raw: &Vec<u8>) -> (r: Result<i16, Error>)
    ensures
        raw@.len() >= 2 ==> (r matches Ok(v) && v == i16_le(raw@)),
        raw@.len() < 2 ==> (r matches Err(Error::InvalidData(b)) && b@ == raw@),
{
    match decode_u16(raw) {
        Ok(u) => {
            let wide: i32 = u as i32;
            let v: i32 = if wide >= 0x8000 {
                wide - 0x1_0000
            } else {
                wide
            };
            Ok(v as i16)
        },
        Err(e) => Err(e),
    }
}

/// Decodes an unsigned 32-bit little-endian field (status, error counter).
pub fn decode_u32(raw: &Vec<u8>) -> (r: Result<u32, Error>)
    ensures
        raw@.len() >= 4 ==> (r matches Ok(v) && v == u32_le(raw@)),
        raw@.len() < 4 ==> (r matches Err(Error::InvalidData(b)) && b@ == raw@),
{
    if raw.len() >= 4 {
        let b0 = raw[0] as u32;
        let b1 = raw[1] as u32;
        let b2 = raw[2] as u32;
        let b3 = raw[3] as u32;
        Ok(b0 + b1 * 0x100 + b2 * 0x1_0000 + b3 * 0x100_0000)
    } else {
        Err(Error::InvalidData(copied_bytes(raw)))
    }
}

/// Encodes a one-byte unsigned field as its single byte.
pub fn encode_u8(v: u8) -> (r: Vec<u8>)
    ensures
        r@ == seq![v],
{
    let mut out: Vec<u8> = Vec::new();
    out.push(v);
    proof {
        assert(out@ =~= seq![v]);
    }
    out
}

/// Encodes an unsigned 16-bit value as its two-byte little-endian layout.
pub fn encode_u16(v: u16) -> (r: Vec<u8>)
    ensures
        r@ == u16_le_bytes(v as int),
        u16_le(r@) == v,
{
    let mut out: Vec<u8> = Vec::new();
    out.push((v % 0x100) as u8);
    out.push((v / 0x100) as u8);
    proof {
        assert(out@ =~= u16_le_bytes(v as int));
        lemma_u16_round_trip(v);
    }
    out
}

/// Encodes a signed 16-bit value as its two-byte little-endian two's
/// complement layout.
pub fn encode_i16(v: i16) -> (r: Vec<u8>)
    ensures
        r@ == i16_le_bytes(v as int),
        i16_le(r@) == v,
{
    let unsigned: u16 = if v >= 0 {
        v as u16
    } else {
        ((v as i32) + 0x1_0000) as u16
    };
    let out = encode_u16(unsigned);
    proof {
        lemma_i16_round_trip(v);
    }
    out
}

/// Encodes an unsigned 32-bit value as its four-byte little-endian layout.
/// The status-clear command is `encode_u32(0)`, four zero bytes.
pub fn encode_u32(v: u32) -> (r: Vec<u8>)
    ensures
        r@ == u32_le_bytes(v as int),
        u32_le(r@) == v,
{
    let mut out: Vec<u8> = Vec::new();
    out.push((v % 0x100) as u8);
    out.push(((v / 0x100) % 0x100) as u8);
    out.push(((v / 0x1_0000) % 0x100) as u8);
    out.push((v / 0x100_0000) as u8);
    proof {
        assert(out@ =~= u32_le_bytes(v as int));
        lemma_u32_round_trip(v);
    }
    out
}

/// The first `n` little-endian base-256 digits of `v`: the general layout
/// behind the fixed-width encoders, also used for the 16-byte form of a UUID
/// inside advertising data.
pub open spec fn le_bytes(v: nat, n: nat) -> Seq<u8>
    decreases n,
{
    if n == 0 {
        Seq::empty()
    } else {
        seq![(v % 0x100) as u8] + le_bytes(v / 0x100, (n - 1) as nat)
    }
}

/// Produces the first `n` little-endian base-256 digits of `v`.
pub fn le_bytes_of(v: u128, n: usize) -> (r: Vec<u8>)
    ensures
        r@ == le_bytes(v as nat, n as nat),
    decreases n,
{
    let mut out: Vec<u8> = Vec::new();
    if n == 0 {
        proof {
            assert(out@ =~= le_bytes(v as nat, 0));
        }
        return out;
    }
    out.push((v % 0x100) as u8);
    let mut rest = le_bytes_of(v / 0x100, n - 1);
    out.append(&mut rest);
    proof {
        assert(out@ =~= le_bytes(v as nat, n as nat));
    }
    out
}

/// Round-trip law: decoding the encoding of any unsigned 16-bit value gives
/// the value back.
pub proof fn lemma_u16_round_trip(v: u16)
    ensures
        u16_le(u16_le_bytes(v as int)) == v,
{
}

/// Round-trip law: decoding the encoding of any signed 16-bit value gives
/// the value back.
pub proof fn lemma_i16_round_trip(v: i16)
    ensures
        i16_le(i16_le_bytes(v as int)) == v,
{
}

/// Round-trip law: decoding the encoding of any unsigned 32-bit value gives
/// the value back.
pub proof fn lemma_u32_round_trip(v: u32)
    ensures
        u32_le(u32_le_bytes(v as int)) == v,
{
}

/// Inverse law: encoding a decoded four-byte buffer reproduces its bytes, so
/// the codec loses nothing in either direction.
pub proof fn lemma_u32_bytes_round_trip(b: Seq<u8>)
    requires
        b.len() == 4,
    ensures
        u32_le_bytes(u32_le(b)) == b,
{
    let b0 = b[0] as int;
    let b1 = b[1] as int;
    let b2 = b[2] as int;
    let b3 = b[3] as int;
    let n = u32_le(b);
    let m1 = b1 + 0x100 * b2 + 0x1_0000 * b3;
    let m2 = b2 + 0x100 * b3;
    assert(n == m1 * 0x100 + b0) by {
        assert(m1 * 0x100 == 0x100 * b1 + 0x1_0000 * b2 + 0x100_0000 * b3);
    }
    vstd::arithmetic::div_mod::lemma_fundamental_div_mod_converse(n, 0x100, m1, b0);
    assert(m1 == m2 * 0x100 + b1) by {
        assert(m2 * 0x100 == 0x100 * b2 + 0x1_0000 * b3);
    }
    vstd::arithmetic::div_mod::lemma_fundamental_div_mod_converse(m1, 0x100, m2, b1);
    assert(m2 == b3 * 0x100 + b2);
    vstd::arithmetic::div_mod::lemma_fundamental_div_mod_converse(m2, 0x100, b3, b2);
    assert((n / 0x100) / 0x100 == n / 0x1_0000) by {
        vstd::arithmetic::div_mod::lemma_div_denominator(n, 0x100, 0x100);
    }
    assert((n / 0x1_0000) / 0x100 == n / 0x100_0000) by {
        vstd::arithmetic::div_mod::lemma_div_denominator(n, 0x1_0000, 0x100);
    }
    assert(u32_le_bytes(u32_le(b)) =~= b);
}

} // verus!
