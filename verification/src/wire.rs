//! Big-endian integers as they stand on the wire.
//!
//! Every number of the protocol is written most significant byte first; signed
//! numbers are written in two's complement. The functions here are the only
//! place where bytes and numbers are turned into each other.

use vstd::prelude::*;

verus! {

/// The two bytes of `x`, most significant first.
pub open spec fn be16(x: u16) -> Seq<u8> {
    seq![(x / 0x100) as u8, (x % 0x100) as u8]
}

/// The four bytes of `x`, most significant first.
pub open spec fn be32(x: u32) -> Seq<u8> {
    seq![
        (x / 0x100_0000) as u8,
        (x / 0x1_0000 % 0x100) as u8,
        (x / 0x100 % 0x100) as u8,
        (x % 0x100) as u8,
    ]
}

/// The eight bytes of `x`, most significant first.
pub open spec fn be64(x: u64) -> Seq<u8> {
    be32((x / 0x1_0000_0000) as u32) + be32((x % 0x1_0000_0000) as u32)
}

/// The number that the first two bytes of `s` spell.
pub open spec fn from_be16(s: Seq<u8>) -> u16 {
    (s[0] * 0x100 + s[1]) as u16
}

/// The number that the first four bytes of `s` spell.
pub open spec fn from_be32(s: Seq<u8>) -> u32 {
    (s[0] * 0x100_0000 + s[1] * 0x1_0000 + s[2] * 0x100 + s[3]) as u32
}

/// The number that the first eight bytes of `s` spell.
pub open spec fn from_be64(s: Seq<u8>) -> u64 {
    (from_be32(s.subrange(0, 4)) * 0x1_0000_0000 + from_be32(s.subrange(4, 8))) as u64
}

/// Two's complement of an 8-bit number.
pub open spec fn twos8(x: i8) -> u8 {
    if x < 0 { (x + 0x100) as u8 } else { x as u8 }
}

/// Two's complement of a 16-bit number.
pub open spec fn twos16(x: i16) -> u16 {
    if x < 0 { (x + 0x1_0000) as u16 } else { x as u16 }
}

/// Two's complement of a 32-bit number.
pub open spec fn twos32(x: i32) -> u32 {
    if x < 0 { (x + 0x1_0000_0000) as u32 } else { x as u32 }
}

/// Two's complement of a 64-bit number.
pub open spec fn twos64(x: i64) -> u64 {
    if x < 0 { (x + 0x1_0000_0000_0000_0000) as u64 } else { x as u64 }
}

/// The signed number that `u` is the two's complement of.
pub open spec fn signed8(u: u8) -> i8 {
    if u >= 0x80 { (u - 0x100) as i8 } else { u as i8 }
}

/// The signed number that `u` is the two's complement of.
pub open spec fn signed16(u: u16) -> i16 {
    if u >= 0x8000 { (u - 0x1_0000) as i16 } else { u as i16 }
}

/// The signed number that `u` is the two's complement of.
pub open spec fn signed32(u: u32) -> i32 {
    if u >= 0x8000_0000 { (u - 0x1_0000_0000) as i32 } else { u as i32 }
}

/// The signed number that `u` is the two's complement of.
pub open spec fn signed64(u: u64) -> i64 {
    if u >= 0x8000_0000_0000_0000 { (u - 0x1_0000_0000_0000_0000) as i64 } else { u as i64 }
}

/// Reading back what was written gives the number that was written, at every
/// width.
#[verifier::rlimit(50)]
pub proof fn lemma_be_round_trip(a: u16, b: u32, c: u64)
    ensures
        be16(a).len() == 2,
        be32(b).len() == 4,
        be64(c).len() == 8,
        from_be16(be16(a)) == a,
        from_be32(be32(b)) == b,
        from_be64(be64(c)) == c,
{
    let hi: u32 = (c / 0x1_0000_0000) as u32;
    let lo: u32 = (c % 0x1_0000_0000) as u32;
    assert(from_be32(be32(hi)) == hi);
    assert(from_be32(be32(lo)) == lo);
    assert(be64(c).subrange(0, 4) =~= be32(hi));
    assert(be64(c).subrange(4, 8) =~= be32(lo));
}

/// Writing what was read gives back the bytes that were read (two bytes).
pub proof fn lemma_be16_unique(s: Seq<u8>)
    requires
        s.len() == 2,
    ensures
        be16(from_be16(s)) == s,
{
    assert(be16(from_be16(s)) =~= s);
}

/// Writing what was read gives back the bytes that were read (four bytes).
#[verifier::rlimit(50)]
pub proof fn lemma_be32_unique(s: Seq<u8>)
    requires
        s.len() == 4,
    ensures
        be32(from_be32(s)) == s,
{
    let x = from_be32(s);
    let (a, b, c, d) = (s[0] as int, s[1] as int, s[2] as int, s[3] as int);
    assert(x == a * 0x100_0000 + b * 0x1_0000 + c * 0x100 + d);
    assert(x / 0x100_0000 == a);
    assert(x / 0x1_0000 % 0x100 == b);
    assert(x / 0x100 % 0x100 == c);
    assert(x % 0x100 == d);
    assert(be32(x) =~= s);
}

/// Writing what was read gives back the bytes that were read (eight bytes).
#[verifier::rlimit(50)]
pub proof fn lemma_be64_unique(s: Seq<u8>)
    requires
        s.len() == 8,
    ensures
        be64(from_be64(s)) == s,
{
    let h = s.subrange(0, 4);
    let l = s.subrange(4, 8);
    lemma_be32_unique(h);
    lemma_be32_unique(l);
    let x = from_be64(s);
    let (hn, ln) = (from_be32(h) as int, from_be32(l) as int);
    assert(x == hn * 0x1_0000_0000 + ln);
    assert(x / 0x1_0000_0000 == hn);
    assert(x % 0x1_0000_0000 == ln);
    assert(be64(x) =~= h + l);
    assert(h + l =~= s);
}

/// Two's complement loses nothing: `signed*` undoes `twos*` and the other way
/// round.
pub proof fn lemma_twos_round_trip(a: i8, b: i16, c: i32, d: i64)
    ensures
        signed8(twos8(a)) == a,
        signed16(twos16(b)) == b,
        signed32(twos32(c)) == c,
        signed64(twos64(d)) == d,
{
}

/// `twos*` undoes `signed*`.
pub proof fn lemma_signed_round_trip(a: u8, b: u16, c: u32, d: u64)
    ensures
        twos8(signed8(a)) == a,
        twos16(signed16(b)) == b,
        twos32(signed32(c)) == c,
        twos64(signed64(d)) == d,
{
}

/// Computes the two's complement of `x`.
pub fn i8_bits(x: i8) -> (u: u8)
    ensures
        u == twos8(x),
{
    if x < 0 {
        let low: u8 = (x - i8::MIN) as u8;
        low + 0x80u8
    } else {
        x as u8
    }
}

/// Computes the two's complement of `x`.
pub fn i16_bits(x: i16) -> (u: u16)
    ensures
        u == twos16(x),
{
    if x < 0 {
        let low: u16 = (x - i16::MIN) as u16;
        low + 0x8000u16
    } else {
        x as u16
    }
}

/// Computes the two's complement of `x`.
pub fn i32_bits(x: i32) -> (u: u32)
    ensures
        u == twos32(x),
{
    if x < 0 {
        let low: u32 = (x - i32::MIN) as u32;
        low + 0x8000_0000u32
    } else {
        x as u32
    }
}

/// Computes the two's complement of `x`.
pub fn i64_bits(x: i64) -> (u: u64)
    ensures
        u == twos64(x),
{
    if x < 0 {
        let low: u64 = (x - i64::MIN) as u64;
        low + 0x8000_0000_0000_0000u64
    } else {
        x as u64
    }
}

/// Computes the signed number that `u` is the two's complement of.
pub fn i8_from_bits(u: u8) -> (x: i8)
    ensures
        x == signed8(u),
{
    if u >= 0x80u8 {
        let low: i8 = (u - 0x80u8) as i8;
        low + i8::MIN
    } else {
        u as i8
    }
}

/// Computes the signed number that `u` is the two's complement of.
pub fn i16_from_bits(u: u16) -> (x: i16)
    ensures
        x == signed16(u),
{
    if u >= 0x8000u16 {
        let low: i16 = (u - 0x8000u16) as i16;
        low + i16::MIN
    } else {
        u as i16
    }
}

/// Computes the signed number that `u` is the two's complement of.
pub fn i32_from_bits(u: u32) -> (x: i32)
    ensures
        x == signed32(u),
{
    if u >= 0x8000_0000u32 {
        let low: i32 = (u - 0x8000_0000u32) as i32;
        low + i32::MIN
    } else {
        u as i32
    }
}

/// Computes the signed number that `u` is the two's complement of.
pub fn i64_from_bits(u: u64) -> (x: i64)
    ensures
        x == signed64(u),
{
    if u >= 0x8000_0000_0000_0000u64 {
        let low: i64 = (u - 0x8000_0000_0000_0000u64) as i64;
        low + i64::MIN
    } else {
        u as i64
    }
}

/// Appends the two bytes of `x` to `buffer`.
pub fn put_u16(buffer: &mut Vec<u8>, x: u16)
    ensures
        final(buffer)@ == old(buffer)@ + be16(x),
{
    buffer.push((x / 0x100) as u8);
    buffer.push((x % 0x100) as u8);
    assert(buffer@ =~= old(buffer)@ + be16(x));
}

/// Appends the four bytes of `x` to `buffer`.
pub fn put_u32(buffer: &mut Vec<u8>, x: u32)
    ensures
        final(buffer)@ == old(buffer)@ + be32(x),
{
    buffer.push((x / 0x100_0000) as u8);
    buffer.push((x / 0x1_0000 % 0x100) as u8);
    buffer.push((x / 0x100 % 0x100) as u8);
    buffer.push((x % 0x100) as u8);
    assert(buffer@ =~= old(buffer)@ + be32(x));
}

/// Appends the eight bytes of `x` to `buffer`.
pub fn put_u64(buffer: &mut Vec<u8>, x: u64)
    ensures
        final(buffer)@ == old(buffer)@ + be64(x),
{
    put_u32(buffer, (x / 0x1_0000_0000) as u32);
    put_u32(buffer, (x % 0x1_0000_0000) as u32);
    assert(buffer@ =~= old(buffer)@ + be64(x));
}

/// Reads the two bytes of `bytes` that start at `at` as one number.
pub fn get_u16(bytes: &[u8], at: usize) -> (x: u16)
    requires
        at + 2 <= bytes@.len(),
    ensures
        x == from_be16(bytes@.subrange(at as int, at + 2)),
{
    let hi: u16 = bytes[at] as u16;
    let lo: u16 = bytes[at + 1] as u16;
    hi * 0x100 + lo
}

/// Reads the four bytes of `bytes` that start at `at` as one number.
pub fn get_u32(bytes: &[u8], at: usize) -> (x: u32)
    requires
        at + 4 <= bytes@.len(),
    ensures
        x == from_be32(bytes@.subrange(at as int, at + 4)),
{
    let a: u32 = bytes[at] as u32;
    let b: u32 = bytes[at + 1] as u32;
    let c: u32 = bytes[at + 2] as u32;
    let d: u32 = bytes[at + 3] as u32;
    a * 0x100_0000 + b * 0x1_0000 + c * 0x100 + d
}

/// Reads the eight bytes of `bytes` that start at `at` as one number.
pub fn get_u64(bytes: &[u8], at: usize) -> (x: u64)
    requires
        at + 8 <= bytes@.len(),
    ensures
        x == from_be64(bytes@.subrange(at as int, at + 8)),
{
    let len: usize = bytes.len();
    assert(at + 8 <= len);
    let hi: u64 = get_u32(bytes, at) as u64;
    let lo: u64 = get_u32(bytes, at + 4) as u64;
    proof {
        let s = bytes@.subrange(at as int, at + 8);
        assert(s.subrange(0, 4) =~= bytes@.subrange(at as int, at + 4));
        assert(s.subrange(4, 8) =~= bytes@.subrange(at + 4, at + 8));
    }
    hi * 0x1_0000_0000 + lo
}

} // verus!
