//! Fixed-width integers in network byte order: what the bytes mean, and the
//! readers that take them off the front of a byte slice.

use vstd::prelude::*;

verus! {

/// The two's-complement pattern of `v` in a word of `modulus` values, as a
/// number in `0 .. modulus`.
pub open spec fn pattern(v: int, modulus: int) -> int {
    if v < 0 {
        v + modulus
    } else {
        v
    }
}

/// The signed value whose pattern in a word of `modulus` values is `u`.
pub open spec fn signed(u: int, modulus: int) -> int {
    if 2 * u >= modulus {
        u - modulus
    } else {
        u
    }
}

/// The number that the first byte of `s` spells.
pub open spec fn be_u8(s: Seq<u8>) -> int {
    s[0] as int
}

/// The number that the first two bytes of `s` spell, high-order byte first.
pub open spec fn be_u16(s: Seq<u8>) -> int {
    s[0] * 0x100 + s[1]
}

/// The number that the first four bytes of `s` spell, high-order byte first.
pub open spec fn be_u32(s: Seq<u8>) -> int {
    s[0] * 0x100_0000 + s[1] * 0x1_0000 + s[2] * 0x100 + s[3]
}

/// The number that the first eight bytes of `s` spell, high-order byte first.
pub open spec fn be_u64(s: Seq<u8>) -> int {
    s[0] * 0x100_0000_0000_0000 + s[1] * 0x1_0000_0000_0000 + s[2] * 0x100_0000_0000 + s[3]
        * 0x1_0000_0000 + s[4] * 0x100_0000 + s[5] * 0x1_0000 + s[6] * 0x100 + s[7]
}

/// The two bytes of the pattern `x`, high-order byte first.
pub open spec fn bytes_of_u16(x: int) -> Seq<u8> {
    seq![(x / 0x100) as u8, (x % 0x100) as u8]
}

/// The four bytes of the pattern `x`, high-order byte first.
pub open spec fn bytes_of_u32(x: int) -> Seq<u8> {
    seq![
        (x / 0x100_0000) as u8,
        (x / 0x1_0000 % 0x100) as u8,
        (x / 0x100 % 0x100) as u8,
        (x % 0x100) as u8,
    ]
}

/// The eight bytes of the pattern `x`, high-order byte first.
pub open spec fn bytes_of_u64(x: int) -> Seq<u8> {
    seq![
        (x / 0x100_0000_0000_0000) as u8,
        (x / 0x1_0000_0000_0000 % 0x100) as u8,
        (x / 0x100_0000_0000 % 0x100) as u8,
        (x / 0x1_0000_0000 % 0x100) as u8,
        (x / 0x100_0000 % 0x100) as u8,
        (x / 0x1_0000 % 0x100) as u8,
        (x / 0x100 % 0x100) as u8,
        (x % 0x100) as u8,
    ]
}

/// `byteorder`'s `ReadBytesExt::read_u8` on a cursor over `bytes`: the first
/// byte, or nothing where `bytes` is empty.
#[verifier::external_body]
pub(crate) fn read_u8(bytes: &[u8]) -> (r: Option<u8>)
    ensures
        r == (if bytes@.len() >= 1 {
            Some(bytes@[0])
        } else {
            None::<u8>
        }),
{
    byteorder::ReadBytesExt::read_u8(&mut std::io::Cursor::new(bytes)).ok()
}

/// `byteorder`'s `ReadBytesExt::read_i8` on a cursor over `bytes`: the first
/// byte taken as a two's-complement value, or nothing where `bytes` is empty.
#[verifier::external_body]
pub(crate) fn read_i8(bytes: &[u8]) -> (r: Option<i8>)
    ensures
        r == (if bytes@.len() >= 1 {
            Some(signed(be_u8(bytes@), 0x100) as i8)
        } else {
            None::<i8>
        }),
{
    byteorder::ReadBytesExt::read_i8(&mut std::io::Cursor::new(bytes)).ok()
}

/// `byteorder`'s `ReadBytesExt::read_u16` in network order on a cursor over
/// `bytes`: the big-endian value of the first two bytes, or nothing where
/// fewer than two are there.
#[verifier::external_body]
pub(crate) fn read_u16(bytes: &[u8]) -> (r: Option<u16>)
    ensures
        r == (if bytes@.len() >= 2 {
            Some(be_u16(bytes@) as u16)
        } else {
            None::<u16>
        }),
{
    byteorder::ReadBytesExt::read_u16::<byteorder::NetworkEndian>(
        &mut std::io::Cursor::new(bytes),
    ).ok()
}

/// `byteorder`'s `ReadBytesExt::read_i16` in network order on a cursor over
/// `bytes`: the big-endian value of the first two bytes taken as two's
/// complement, or nothing where fewer than two are there.
#[verifier::external_body]
pub(crate) fn read_i16(bytes: &[u8]) -> (r: Option<i16>)
    ensures
        r == (if bytes@.len() >= 2 {
            Some(signed(be_u16(bytes@), 0x1_0000) as i16)
        } else {
            None::<i16>
        }),
{
    byteorder::ReadBytesExt::read_i16::<byteorder::NetworkEndian>(
        &mut std::io::Cursor::new(bytes),
    ).ok()
}

/// `byteorder`'s `ReadBytesExt::read_i32` in network order on a cursor over
/// `bytes`: the big-endian value of the first four bytes taken as two's
/// complement, or nothing where fewer than four are there.
#[verifier::external_body]
pub(crate) fn read_i32(bytes: &[u8]) -> (r: Option<i32>)
    ensures
        r == (if bytes@.len() >= 4 {
            Some(signed(be_u32(bytes@), 0x1_0000_0000) as i32)
        } else {
            None::<i32>
        }),
{
    byteorder::ReadBytesExt::read_i32::<byteorder::NetworkEndian>(
        &mut std::io::Cursor::new(bytes),
    ).ok()
}

/// `byteorder`'s `ReadBytesExt::read_i64` in network order on a cursor over
/// `bytes`: the big-endian value of the first eight bytes taken as two's
/// complement, or nothing where fewer than eight are there.
#[verifier::external_body]
pub(crate) fn read_i64(bytes: &[u8]) -> (r: Option<i64>)
    ensures
        r == (if bytes@.len() >= 8 {
            Some(signed(be_u64(bytes@), 0x1_0000_0000_0000_0000) as i64)
        } else {
            None::<i64>
        }),
{
    byteorder::ReadBytesExt::read_i64::<byteorder::NetworkEndian>(
        &mut std::io::Cursor::new(bytes),
    ).ok()
}

/// `String::from_utf8`: the string that `bytes` encode, or nothing where
/// they are not UTF-8.
#[verifier::external_body]
pub(crate) fn string_from_utf8(bytes: Vec<u8>) -> (r: Option<String>)
    ensures
        r is Some <==> vstd::utf8::valid_utf8(bytes@),
        r matches Some(s) ==> s@ == vstd::utf8::decode_utf8(bytes@),
{
    String::from_utf8(bytes).ok()
}

/// The pattern of a 16-bit value.
pub(crate) proof fn lemma_word16(v: i16)
    ensures
        (v as u16) == pattern(v as int, 0x1_0000),
{
    assert(v < 0 ==> (v as u16) == v + 0x1_0000) by (bit_vector);
    assert(v >= 0 ==> (v as u16) == v) by (bit_vector);
}

/// The pattern of a 32-bit value.
pub(crate) proof fn lemma_word32(v: i32)
    ensures
        (v as u32) == pattern(v as int, 0x1_0000_0000),
{
    assert(v < 0 ==> (v as u32) == v + 0x1_0000_0000) by (bit_vector);
    assert(v >= 0 ==> (v as u32) == v) by (bit_vector);
}

/// The pattern of a 64-bit value.
pub(crate) proof fn lemma_word64(v: i64)
    ensures
        (v as u64) == pattern(v as int, 0x1_0000_0000_0000_0000),
{
    assert(v < 0 ==> (v as u64) == v + 0x1_0000_0000_0000_0000) by (bit_vector);
    assert(v >= 0 ==> (v as u64) == v) by (bit_vector);
}

/// The pattern of an 8-bit value.
pub(crate) proof fn lemma_word8(v: i8)
    ensures
        (v as u8) == pattern(v as int, 0x100),
{
    assert(v < 0 ==> (v as u8) == v + 0x100) by (bit_vector);
    assert(v >= 0 ==> (v as u8) == v) by (bit_vector);
}

/// The two bytes of a 16-bit pattern.
pub(crate) fn u16_bytes(x: u16) -> (r: Vec<u8>)
    ensures
        r@ == bytes_of_u16(x as int),
{
    let mut r: Vec<u8> = Vec::new();
    r.push((x / 0x100) as u8);
    r.push((x % 0x100) as u8);
    assert(r@ =~= bytes_of_u16(x as int));
    r
}

/// The four bytes of a 32-bit pattern.
pub(crate) fn u32_bytes(x: u32) -> (r: Vec<u8>)
    ensures
        r@ == bytes_of_u32(x as int),
{
    let mut r: Vec<u8> = Vec::new();
    r.push((x / 0x100_0000) as u8);
    r.push((x / 0x1_0000 % 0x100) as u8);
    r.push((x / 0x100 % 0x100) as u8);
    r.push((x % 0x100) as u8);
    assert(r@ =~= bytes_of_u32(x as int));
    r
}

/// The eight bytes of a 64-bit pattern.
pub(crate) fn u64_bytes(x: u64) -> (r: Vec<u8>)
    ensures
        r@ == bytes_of_u64(x as int),
{
    let mut r: Vec<u8> = Vec::new();
    r.push((x / 0x100_0000_0000_0000) as u8);
    r.push((x / 0x1_0000_0000_0000 % 0x100) as u8);
    r.push((x / 0x100_0000_0000 % 0x100) as u8);
    r.push((x / 0x1_0000_0000 % 0x100) as u8);
    r.push((x / 0x100_0000 % 0x100) as u8);
    r.push((x / 0x1_0000 % 0x100) as u8);
    r.push((x / 0x100 % 0x100) as u8);
    r.push((x % 0x100) as u8);
    assert(r@ =~= bytes_of_u64(x as int));
    r
}

/// Reading the bytes of a 16-bit pattern gives the pattern.
pub proof fn lemma_be_u16(x: int, rest: Seq<u8>)
    requires
        0 <= x < 0x1_0000,
    ensures
        be_u16(bytes_of_u16(x) + rest) == x,
        bytes_of_u16(x).len() == 2,
{
    let s = bytes_of_u16(x) + rest;
    assert(s[0] == bytes_of_u16(x)[0] && s[1] == bytes_of_u16(x)[1]);
}

/// Reading the bytes of a 32-bit pattern gives the pattern.
pub proof fn lemma_be_u32(x: int, rest: Seq<u8>)
    requires
        0 <= x < 0x1_0000_0000,
    ensures
        be_u32(bytes_of_u32(x) + rest) == x,
        bytes_of_u32(x).len() == 4,
{
    let b = bytes_of_u32(x);
    let s = b + rest;
    assert(s[0] == b[0] && s[1] == b[1] && s[2] == b[2] && s[3] == b[3]);
}

/// Reading the bytes of a 64-bit pattern gives the pattern.
pub proof fn lemma_be_u64(x: int, rest: Seq<u8>)
    requires
        0 <= x < 0x1_0000_0000_0000_0000,
    ensures
        be_u64(bytes_of_u64(x) + rest) == x,
        bytes_of_u64(x).len() == 8,
{
    let b = bytes_of_u64(x);
    let s = b + rest;
    assert(s[0] == b[0] && s[1] == b[1] && s[2] == b[2] && s[3] == b[3]);
    assert(s[4] == b[4] && s[5] == b[5] && s[6] == b[6] && s[7] == b[7]);
    let d1 = x / 0x100;
    let d2 = d1 / 0x100;
    let d3 = d2 / 0x100;
    let d4 = d3 / 0x100;
    let d5 = d4 / 0x100;
    let d6 = d5 / 0x100;
    let d7 = d6 / 0x100;
    vstd::arithmetic::div_mod::lemma_div_denominator(x, 0x100, 0x100);
    vstd::arithmetic::div_mod::lemma_div_denominator(x, 0x1_0000, 0x100);
    vstd::arithmetic::div_mod::lemma_div_denominator(x, 0x100_0000, 0x100);
    vstd::arithmetic::div_mod::lemma_div_denominator(x, 0x1_0000_0000, 0x100);
    vstd::arithmetic::div_mod::lemma_div_denominator(x, 0x100_0000_0000, 0x100);
    vstd::arithmetic::div_mod::lemma_div_denominator(x, 0x1_0000_0000_0000, 0x100);
    assert(d2 == x / 0x1_0000);
    assert(d3 == x / 0x100_0000);
    assert(d4 == x / 0x1_0000_0000);
    assert(d5 == x / 0x100_0000_0000);
    assert(d6 == x / 0x1_0000_0000_0000);
    assert(d7 == x / 0x100_0000_0000_0000);
    assert(d7 < 0x100);
    assert(s[7] == x % 0x100);
    assert(s[6] == d1 % 0x100);
    assert(s[5] == d2 % 0x100);
    assert(s[4] == d3 % 0x100);
    assert(s[3] == d4 % 0x100);
    assert(s[2] == d5 % 0x100);
    assert(s[1] == d6 % 0x100);
    assert(s[0] == d7);
}

} // verus!
