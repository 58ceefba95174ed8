//! The protocol's variable-length integer: a 32-bit two's-complement value
//! written seven bits per byte, low-order group first, with the high bit of
//! every byte but the last set. No encoding is longer than five bytes.

use vstd::prelude::*;

verus! {

/// Why a VarInt could not be read.
#[derive(Debug, Clone, Copy, PartialEq, Eq, Structural)]
pub enum JeValError {
    /// None of the first five bytes of the source ends the integer.
    OversizedVarInt,
    /// The source holds no byte at all.
    EmptySource,
}

/// The 32-bit pattern of `v`, as a number in `0 .. 2^32`.
pub open spec fn bits_of(v: i32) -> int {
    if v < 0 {
        v + 0x1_0000_0000
    } else {
        v as int
    }
}

/// The signed value whose 32-bit pattern is `u`, for `u` in `0 .. 2^32`.
pub open spec fn from_bits(u: int) -> i32 {
    if u >= 0x8000_0000 {
        (u - 0x1_0000_0000) as i32
    } else {
        u as i32
    }
}

/// `x` without its `k` low-order groups of seven bits, for `k` in `0 ..= 5`.
pub open spec fn drop_groups(x: int, k: int) -> int {
    if k <= 0 {
        x
    } else if k == 1 {
        x / 0x80
    } else if k == 2 {
        x / 0x4000
    } else if k == 3 {
        x / 0x20_0000
    } else if k == 4 {
        x / 0x1000_0000
    } else {
        x / 0x8_0000_0000
    }
}

/// How many bytes the pattern `x` takes on the wire.
pub open spec fn varint_len(x: int) -> nat {
    if x < 0x80 {
        1
    } else if x < 0x4000 {
        2
    } else if x < 0x20_0000 {
        3
    } else if x < 0x1000_0000 {
        4
    } else {
        5
    }
}

/// Byte `i` of the encoding of the pattern `x`: group `i`, with the
/// continuation flag on every byte but the last.
pub open spec fn varint_byte(x: int, i: int) -> u8 {
    let group = drop_groups(x, i) % 0x80;
    if i + 1 < varint_len(x) {
        (group + 0x80) as u8
    } else {
        group as u8
    }
}

/// The wire form of `v`.
pub open spec fn encode_varint(v: i32) -> Seq<u8> {
    Seq::new(varint_len(bits_of(v)), |i: int| varint_byte(bits_of(v), i))
}

/// Whether `b` says that another byte follows.
pub open spec fn continues(b: u8) -> bool {
    b >= 0x80
}

/// Index of the byte that ends the VarInt at the start of `s`: the first of
/// the first five bytes without the continuation flag; `-1` if there is none.
pub open spec fn varint_end(s: Seq<u8>) -> int {
    if s.len() > 0 && !continues(s[0]) {
        0
    } else if s.len() > 1 && !continues(s[1]) {
        1
    } else if s.len() > 2 && !continues(s[2]) {
        2
    } else if s.len() > 3 && !continues(s[3]) {
        3
    } else if s.len() > 4 && !continues(s[4]) {
        4
    } else {
        -1
    }
}

/// The seven payload bits of byte `i` of `s`, or 0 past its end.
pub open spec fn group_at(s: Seq<u8>, i: int) -> int {
    if 0 <= i < s.len() {
        (s[i] % 0x80) as int
    } else {
        0
    }
}

/// What the first `k` groups of `s` add up to, low-order group first, for
/// `k` in `0 ..= 5`.
pub open spec fn groups_sum(s: Seq<u8>, k: int) -> int {
    (if k > 0 { group_at(s, 0) } else { 0 })
    + (if k > 1 { 0x80 * group_at(s, 1) } else { 0 })
    + (if k > 2 { 0x4000 * group_at(s, 2) } else { 0 })
    + (if k > 3 { 0x20_0000 * group_at(s, 3) } else { 0 })
    + (if k > 4 { 0x1000_0000 * group_at(s, 4) } else { 0 })
}

/// What reading a VarInt from the start of `s` gives: the value and the
/// number of bytes it took. Bits of the fifth group beyond the 32nd are
/// dropped.
pub open spec fn decode_varint(s: Seq<u8>) -> Result<(i32, nat), JeValError> {
    if s.len() == 0 {
        Err(JeValError::EmptySource)
    } else if varint_end(s) < 0 {
        Err(JeValError::OversizedVarInt)
    } else {
        let n = varint_end(s) + 1;
        Ok((from_bits(groups_sum(s, n) % 0x1_0000_0000), n as nat))
    }
}

/// The part of `val` that a reader may look at when `read_len` bytes of it
/// are known to be filled.
pub open spec fn readable(val: Seq<u8>, read_len: nat) -> Seq<u8> {
    if read_len < val.len() {
        val.take(read_len as int)
    } else {
        val
    }
}

/// Whether `r` is the executable form of the outcome `expected`.
pub open spec fn decoded_as(
    r: Result<(i32, usize), JeValError>,
    expected: Result<(i32, nat), JeValError>,
) -> bool {
    match r {
        Ok((v, n)) => expected == Ok::<(i32, nat), JeValError>((v, n as nat)),
        Err(e) => expected == Err::<(i32, nat), JeValError>(e),
    }
}

proof fn lemma_bit_ops(x: u32)
    ensures
        x >> 7 == x / 0x80,
        (x & 0x7f) == x % 0x80,
        x < 0x80 ==> (x | 0x80) == x + 0x80,
{
    assert(x >> 7 == x / 0x80) by (bit_vector);
    assert((x & 0x7f) == x % 0x80) by (bit_vector);
    assert(x < 0x80 ==> (x | 0x80) == x + 0x80) by (bit_vector);
}

proof fn lemma_pattern(v: i32)
    ensures
        (v as u32) == bits_of(v),
{
    assert(v < 0 ==> (v as u32) == v + 0x1_0000_0000) by (bit_vector);
    assert(v >= 0 ==> (v as u32) == v) by (bit_vector);
}

proof fn lemma_signed(u: u32)
    ensures
        (u as i32) == from_bits(u as int),
{
    assert(u >= 0x8000_0000 ==> (u as i32) == u - 0x1_0000_0000) by (bit_vector);
    assert(u < 0x8000_0000 ==> (u as i32) == u) by (bit_vector);
}

/// Encodes `val` as a VarInt.
pub fn int_to_var_int(val: i32) -> (buf: Vec<u8>)
    ensures
        buf@ == encode_varint(val),
        1 <= buf@.len() <= 5,
{
    let x: u32 = val as u32;
    proof {
        lemma_pattern(val);
    }
    let mut rest: u32 = x;
    let mut buf: Vec<u8> = Vec::new();
    let mut k: usize = 0;
    while rest >= 0x80
        invariant
            k == buf@.len(),
            k + 1 <= varint_len(x as int),
            rest == drop_groups(x as int, k as int),
            forall|i: int| 0 <= i < k ==> buf@[i] == varint_byte(x as int, i),
        decreases rest,
    {
        proof {
            lemma_bit_ops(rest);
            lemma_bit_ops(rest & 0x7f);
        }
        let group: u32 = rest & 0x7f;
        let byte: u8 = (group | 0x80) as u8;
        buf.push(byte);
        rest = rest >> 7;
        k = k + 1;
    }
    buf.push(rest as u8);
    assert(buf@ =~= encode_varint(val));
    buf
}

/// Reads a VarInt from the first `read_len` bytes of `val` (from all of `val`
/// where it is shorter). Gives the value and the number of bytes it took.
///
/// At most five bytes are looked at. The source being empty is
/// `EmptySource`; no byte among its first five ending the integer is
/// `OversizedVarInt`.
pub fn var_int_to_int(val: &[u8], read_len: usize) -> (r: Result<(i32, usize), JeValError>)
    ensures
        decoded_as(r, decode_varint(readable(val@, read_len as nat))),
{
    let avail: usize = if read_len < val.len() { read_len } else { val.len() };
    let ghost src = readable(val@, read_len as nat);
    if avail == 0 {
        return Err(JeValError::EmptySource);
    }
    let limit: usize = if avail < 5 { avail } else { 5 };
    let mut acc: u64 = 0;
    let mut k: usize = 0;
    while k < limit
        invariant
            src == readable(val@, read_len as nat),
            avail == src.len(),
            avail <= val@.len(),
            limit <= avail,
            limit <= 5,
            k <= limit,
            forall|i: int| 0 <= i < avail ==> src[i] == val@[i],
            forall|i: int| 0 <= i < k ==> continues(#[trigger] src[i]),
            acc == groups_sum(src, k as int),
        decreases limit - k,
    {
        let byte: u8 = val[k];
        let group: u64 = (byte % 0x80) as u64;
        let term: u64 = if k == 0 {
            group
        } else if k == 1 {
            0x80 * group
        } else if k == 2 {
            0x4000 * group
        } else if k == 3 {
            0x20_0000 * group
        } else {
            0x1000_0000 * group
        };
        acc = acc + term;
        if byte < 0x80 {
            assert(varint_end(src) == k);
            let low: u32 = (acc % 0x1_0000_0000) as u32;
            proof {
                lemma_signed(low);
            }
            return Ok((low as i32, k + 1));
        }
        k = k + 1;
    }
    assert(varint_end(src) == -1);
    Err(JeValError::OversizedVarInt)
}

proof fn lemma_drop_step(x: int, k: int)
    requires
        0 <= x,
        0 <= k < 5,
    ensures
        drop_groups(x, k + 1) == drop_groups(x, k) / 0x80,
        0 <= drop_groups(x, k),
        drop_groups(x, k) == 0x80 * drop_groups(x, k + 1) + drop_groups(x, k) % 0x80,
{
    if k == 1 {
        vstd::arithmetic::div_mod::lemma_div_denominator(x, 0x80, 0x80);
    } else if k == 2 {
        vstd::arithmetic::div_mod::lemma_div_denominator(x, 0x4000, 0x80);
    } else if k == 3 {
        vstd::arithmetic::div_mod::lemma_div_denominator(x, 0x20_0000, 0x80);
    } else if k == 4 {
        vstd::arithmetic::div_mod::lemma_div_denominator(x, 0x1000_0000, 0x80);
    }
}

/// The groups of a pattern add up to the pattern.
proof fn lemma_groups_of_pattern(x: int, s: Seq<u8>)
    requires
        0 <= x < 0x1_0000_0000,
        s.len() >= varint_len(x),
        forall|i: int| 0 <= i < varint_len(x) ==> s[i] == varint_byte(x, i),
    ensures
        groups_sum(s, varint_len(x) as int) == x,
        varint_end(s) == varint_len(x) - 1,
{
    let n = varint_len(x) as int;
    lemma_drop_step(x, 0);
    lemma_drop_step(x, 1);
    lemma_drop_step(x, 2);
    lemma_drop_step(x, 3);
    lemma_drop_step(x, 4);
    assert forall|i: int| 0 <= i < n implies group_at(s, i) == drop_groups(x, i) % 0x80
        && continues(s[i]) == (i + 1 < n) by {
        assert(s[i] == varint_byte(x, i));
    }
    assert(drop_groups(x, n) == 0);
    assert(group_at(s, 0) == drop_groups(x, 0) % 0x80);
    if n > 1 {
        assert(group_at(s, 1) == drop_groups(x, 1) % 0x80);
        assert(continues(s[0]));
    }
    if n > 2 {
        assert(group_at(s, 2) == drop_groups(x, 2) % 0x80);
        assert(continues(s[1]));
    }
    if n > 3 {
        assert(group_at(s, 3) == drop_groups(x, 3) % 0x80);
        assert(continues(s[2]));
    }
    if n > 4 {
        assert(group_at(s, 4) == drop_groups(x, 4) % 0x80);
        assert(continues(s[3]));
    }
    assert(!continues(s[n - 1]));
}

/// Decoding what was encoded gives the value back, whatever follows it on
/// the wire, and reports as consumed exactly the bytes of the encoding, of
/// which there are at most five.
pub proof fn lemma_varint_round_trip(v: i32, rest: Seq<u8>)
    ensures
        decode_varint(encode_varint(v) + rest) == Ok::<(i32, nat), JeValError>(
            (v, encode_varint(v).len()),
        ),
        1 <= encode_varint(v).len() <= 5,
{
    let x = bits_of(v);
    let e = encode_varint(v);
    let s = e + rest;
    assert forall|i: int| 0 <= i < varint_len(x) implies s[i] == varint_byte(x, i) by {
        assert(s[i] == e[i]);
    }
    lemma_groups_of_pattern(x, s);
}

/// Reading a VarInt looks at the first five bytes of its source and at
/// nothing behind them: two sources that begin with the same five bytes
/// give the same outcome.
pub proof fn lemma_varint_looks_at_five(s: Seq<u8>, t: Seq<u8>)
    requires
        s.len() >= 5,
        t.len() >= 5,
        s.take(5) == t.take(5),
    ensures
        decode_varint(s) == decode_varint(t),
{
    assert forall|i: int| 0 <= i < 5 implies s[i] == t[i] by {
        assert(s[i] == s.take(5)[i]);
        assert(t[i] == t.take(5)[i]);
    }
}

/// Zero is the single byte 0.
pub proof fn lemma_varint_zero()
    ensures
        encode_varint(0) == seq![0u8],
{
    assert(encode_varint(0) =~= seq![0u8]);
}

} // verus!
