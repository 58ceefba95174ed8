//! The typed field codec: each primitive wire type with the bytes it is
//! written as and the bytes it is read from. Fixed-width numbers travel in
//! network byte order; a string is its UTF-8 bytes behind a VarInt that
//! counts them.

use crate::varint::{decode_varint, encode_varint, int_to_var_int, var_int_to_int, JeValError};
use crate::wire::{
    be_u16, be_u32, be_u64, be_u8, bytes_of_u16, bytes_of_u32, bytes_of_u64, lemma_be_u16,
    lemma_be_u32, lemma_be_u64, lemma_word16, lemma_word32, lemma_word64, lemma_word8, pattern,
    read_i16, read_i32, read_i64, read_i8, read_u16, read_u8, signed, string_from_utf8, u16_bytes,
    u32_bytes, u64_bytes,
};
use vstd::prelude::*;
use vstd::slice::{slice_subrange, slice_to_vec};
use vstd::string::StringSliceAdditionalSpecFns;
use vstd::utf8::{decode_utf8, encode_utf8, valid_utf8};

verus! {

/// Why a field could not be read.
#[derive(Debug, Clone, Copy, PartialEq, Eq, Structural)]
pub enum JeTypeError {
    /// Fewer bytes remain than the field takes.
    Truncated,
    /// The bytes of a string are not UTF-8.
    InvalidUtf8,
    /// The bytes stand for no value of the type: a boolean that is neither 0
    /// nor 1, a length below zero.
    InvalidValue,
    /// A VarInt that none of its first five bytes ends.
    OversizedVarInt,
}

/// A VarInt field.
#[derive(Debug, Default, Clone, Copy, PartialEq, Eq, Structural)]
pub struct JeVarInt(pub i32);

/// A VarLong field: the 64-bit sibling of the VarInt. It has no codec yet.
#[derive(Debug, Clone, Copy, PartialEq, Eq, Structural)]
pub struct JeVarLong(pub i64);

impl View for JeVarInt {
    type V = i32;

    open spec fn view(&self) -> i32 {
        self.0
    }
}

/// Whether `r` is the executable form of the outcome `expected`.
pub open spec fn parsed_as<T: View>(
    r: Result<(T, usize), JeTypeError>,
    expected: Result<(T::V, nat), JeTypeError>,
) -> bool {
    match r {
        Ok((v, n)) => expected == Ok::<(T::V, nat), JeTypeError>((v@, n as nat)),
        Err(e) => expected == Err::<(T::V, nat), JeTypeError>(e),
    }
}

/// A type that has a wire form.
pub trait JeType: Sized + View {
    /// Whether the wire can carry `v`: every length in it fits a VarInt.
    spec fn wire_ok(v: Self::V) -> bool;

    /// The bytes `v` is written as.
    spec fn wire(v: Self::V) -> Seq<u8>;

    /// What reading a value from the start of `bytes` gives: the value and
    /// the number of bytes it took, or the reason why there is none.
    spec fn parse(bytes: Seq<u8>) -> Result<(Self::V, nat), JeTypeError>;

    /// Reading what was written gives the value back, whatever follows it,
    /// and takes exactly the bytes written.
    proof fn lemma_round_trip(v: Self::V, rest: Seq<u8>)
        requires
            Self::wire_ok(v),
        ensures
            Self::parse(Self::wire(v) + rest) == Ok::<(Self::V, nat), JeTypeError>(
                (v, Self::wire(v).len()),
            ),
    ;

    /// A value never takes more bytes than there are, and what was read can
    /// be written.
    proof fn lemma_parse_within(bytes: Seq<u8>)
        ensures
            Self::parse(bytes) matches Ok((v, n)) ==> n <= bytes.len() && Self::wire_ok(v),
    ;

    /// Writes the value.
    fn to_vec_u8(&self) -> (r: Vec<u8>)
        requires
            Self::wire_ok(self@),
        ensures
            r@ == Self::wire(self@),
    ;

    /// Reads a value from the start of `be_bytes`.
    fn try_from_raw(be_bytes: &[u8]) -> (r: Result<(Self, usize), JeTypeError>)
        ensures
            parsed_as(r, Self::parse(be_bytes@)),
    ;
}

// Boolean
impl JeType for bool {
    open spec fn wire_ok(v: bool) -> bool {
        true
    }

    open spec fn wire(v: bool) -> Seq<u8> {
        if v {
            seq![1u8]
        } else {
            seq![0u8]
        }
    }

    open spec fn parse(bytes: Seq<u8>) -> Result<(bool, nat), JeTypeError> {
        if bytes.len() == 0 {
            Err(JeTypeError::Truncated)
        } else if bytes[0] == 1 {
            Ok((true, 1))
        } else if bytes[0] == 0 {
            Ok((false, 1))
        } else {
            Err(JeTypeError::InvalidValue)
        }
    }

    proof fn lemma_round_trip(v: bool, rest: Seq<u8>) {
        let s = Self::wire(v) + rest;
        assert(s[0] == Self::wire(v)[0]);
    }

    proof fn lemma_parse_within(bytes: Seq<u8>) {
    }

    fn to_vec_u8(&self) -> (r: Vec<u8>) {
        let mut r: Vec<u8> = Vec::new();
        if *self {
            r.push(1);
        } else {
            r.push(0);
        }
        assert(r@ =~= Self::wire(*self));
        r
    }

    fn try_from_raw(be_bytes: &[u8]) -> (r: Result<(Self, usize), JeTypeError>) {
        match read_u8(be_bytes) {
            Some(1) => Ok((true, 1)),
            Some(0) => Ok((false, 1)),
            Some(_) => Err(JeTypeError::InvalidValue),
            None => Err(JeTypeError::Truncated),
        }
    }
}

// Byte
impl JeType for i8 {
    open spec fn wire_ok(v: i8) -> bool {
        true
    }

    open spec fn wire(v: i8) -> Seq<u8> {
        seq![pattern(v as int, 0x100) as u8]
    }

    open spec fn parse(bytes: Seq<u8>) -> Result<(i8, nat), JeTypeError> {
        if bytes.len() < 1 {
            Err(JeTypeError::Truncated)
        } else {
            Ok((signed(be_u8(bytes), 0x100) as i8, 1))
        }
    }

    proof fn lemma_round_trip(v: i8, rest: Seq<u8>) {
        let s = Self::wire(v) + rest;
        assert(s[0] == Self::wire(v)[0]);
    }

    proof fn lemma_parse_within(bytes: Seq<u8>) {
    }

    fn to_vec_u8(&self) -> (r: Vec<u8>) {
        proof {
            lemma_word8(*self);
        }
        let mut r: Vec<u8> = Vec::new();
        r.push(*self as u8);
        assert(r@ =~= Self::wire(*self));
        r
    }

    fn try_from_raw(be_bytes: &[u8]) -> (r: Result<(Self, usize), JeTypeError>) {
        match read_i8(be_bytes) {
            Some(val) => Ok((val, 1)),
            None => Err(JeTypeError::Truncated),
        }
    }
}

// UByte
impl JeType for u8 {
    open spec fn wire_ok(v: u8) -> bool {
        true
    }

    open spec fn wire(v: u8) -> Seq<u8> {
        seq![v]
    }

    open spec fn parse(bytes: Seq<u8>) -> Result<(u8, nat), JeTypeError> {
        if bytes.len() < 1 {
            Err(JeTypeError::Truncated)
        } else {
            Ok((bytes[0], 1))
        }
    }

    proof fn lemma_round_trip(v: u8, rest: Seq<u8>) {
        let s = Self::wire(v) + rest;
        assert(s[0] == Self::wire(v)[0]);
    }

    proof fn lemma_parse_within(bytes: Seq<u8>) {
    }

    fn to_vec_u8(&self) -> (r: Vec<u8>) {
        let mut r: Vec<u8> = Vec::new();
        r.push(*self);
        assert(r@ =~= Self::wire(*self));
        r
    }

    fn try_from_raw(be_bytes: &[u8]) -> (r: Result<(Self, usize), JeTypeError>) {
        match read_u8(be_bytes) {
            Some(val) => Ok((val, 1)),
            None => Err(JeTypeError::Truncated),
        }
    }
}

// Short
impl JeType for i16 {
    open spec fn wire_ok(v: i16) -> bool {
        true
    }

    open spec fn wire(v: i16) -> Seq<u8> {
        bytes_of_u16(pattern(v as int, 0x1_0000))
    }

    open spec fn parse(bytes: Seq<u8>) -> Result<(i16, nat), JeTypeError> {
        if bytes.len() < 2 {
            Err(JeTypeError::Truncated)
        } else {
            Ok((signed(be_u16(bytes), 0x1_0000) as i16, 2))
        }
    }

    proof fn lemma_round_trip(v: i16, rest: Seq<u8>) {
        lemma_be_u16(pattern(v as int, 0x1_0000), rest);
    }

    proof fn lemma_parse_within(bytes: Seq<u8>) {
    }

    fn to_vec_u8(&self) -> (r: Vec<u8>) {
        proof {
            lemma_word16(*self);
        }
        u16_bytes(*self as u16)
    }

    fn try_from_raw(be_bytes: &[u8]) -> (r: Result<(Self, usize), JeTypeError>) {
        match read_i16(be_bytes) {
            Some(val) => Ok((val, 2)),
            None => Err(JeTypeError::Truncated),
        }
    }
}

// UShort
impl JeType for u16 {
    open spec fn wire_ok(v: u16) -> bool {
        true
    }

    open spec fn wire(v: u16) -> Seq<u8> {
        bytes_of_u16(v as int)
    }

    open spec fn parse(bytes: Seq<u8>) -> Result<(u16, nat), JeTypeError> {
        if bytes.len() < 2 {
            Err(JeTypeError::Truncated)
        } else {
            Ok((be_u16(bytes) as u16, 2))
        }
    }

    proof fn lemma_round_trip(v: u16, rest: Seq<u8>) {
        lemma_be_u16(v as int, rest);
    }

    proof fn lemma_parse_within(bytes: Seq<u8>) {
    }

    fn to_vec_u8(&self) -> (r: Vec<u8>) {
        u16_bytes(*self)
    }

    fn try_from_raw(be_bytes: &[u8]) -> (r: Result<(Self, usize), JeTypeError>) {
        match read_u16(be_bytes) {
            Some(val) => Ok((val, 2)),
            None => Err(JeTypeError::Truncated),
        }
    }
}

// Int
impl JeType for i32 {
    open spec fn wire_ok(v: i32) -> bool {
        true
    }

    open spec fn wire(v: i32) -> Seq<u8> {
        bytes_of_u32(pattern(v as int, 0x1_0000_0000))
    }

    open spec fn parse(bytes: Seq<u8>) -> Result<(i32, nat), JeTypeError> {
        if bytes.len() < 4 {
            Err(JeTypeError::Truncated)
        } else {
            Ok((signed(be_u32(bytes), 0x1_0000_0000) as i32, 4))
        }
    }

    proof fn lemma_round_trip(v: i32, rest: Seq<u8>) {
        lemma_be_u32(pattern(v as int, 0x1_0000_0000), rest);
    }

    proof fn lemma_parse_within(bytes: Seq<u8>) {
    }

    fn to_vec_u8(&self) -> (r: Vec<u8>) {
        proof {
            lemma_word32(*self);
        }
        u32_bytes(*self as u32)
    }

    fn try_from_raw(be_bytes: &[u8]) -> (r: Result<(Self, usize), JeTypeError>) {
        match read_i32(be_bytes) {
            Some(val) => Ok((val, 4)),
            None => Err(JeTypeError::Truncated),
        }
    }
}

// Long
impl JeType for i64 {
    open spec fn wire_ok(v: i64) -> bool {
        true
    }

    open spec fn wire(v: i64) -> Seq<u8> {
        bytes_of_u64(pattern(v as int, 0x1_0000_0000_0000_0000))
    }

    open spec fn parse(bytes: Seq<u8>) -> Result<(i64, nat), JeTypeError> {
        if bytes.len() < 8 {
            Err(JeTypeError::Truncated)
        } else {
            Ok((signed(be_u64(bytes), 0x1_0000_0000_0000_0000) as i64, 8))
        }
    }

    proof fn lemma_round_trip(v: i64, rest: Seq<u8>) {
        lemma_be_u64(pattern(v as int, 0x1_0000_0000_0000_0000), rest);
    }

    proof fn lemma_parse_within(bytes: Seq<u8>) {
    }

    fn to_vec_u8(&self) -> (r: Vec<u8>) {
        proof {
            lemma_word64(*self);
        }
        u64_bytes(*self as u64)
    }

    fn try_from_raw(be_bytes: &[u8]) -> (r: Result<(Self, usize), JeTypeError>) {
        match read_i64(be_bytes) {
            Some(val) => Ok((val, 8)),
            None => Err(JeTypeError::Truncated),
        }
    }
}

/// The field error that stands for a VarInt error inside a field.
pub open spec fn field_error(e: JeValError) -> JeTypeError {
    match e {
        JeValError::OversizedVarInt => JeTypeError::OversizedVarInt,
        JeValError::EmptySource => JeTypeError::Truncated,
    }
}

// VarInt
impl JeType for JeVarInt {
    open spec fn wire_ok(v: i32) -> bool {
        true
    }

    open spec fn wire(v: i32) -> Seq<u8> {
        encode_varint(v)
    }

    open spec fn parse(bytes: Seq<u8>) -> Result<(i32, nat), JeTypeError> {
        match decode_varint(bytes) {
            Ok((v, n)) => Ok((v, n)),
            Err(e) => Err(field_error(e)),
        }
    }

    proof fn lemma_round_trip(v: i32, rest: Seq<u8>) {
        crate::varint::lemma_varint_round_trip(v, rest);
    }

    proof fn lemma_parse_within(bytes: Seq<u8>) {
    }

    fn to_vec_u8(&self) -> (r: Vec<u8>) {
        int_to_var_int(self.0)
    }

    fn try_from_raw(be_bytes: &[u8]) -> (r: Result<(Self, usize), JeTypeError>) {
        match var_int_to_int(be_bytes, be_bytes.len()) {
            Ok((vi, read)) => Ok((JeVarInt(vi), read)),
            Err(JeValError::OversizedVarInt) => Err(JeTypeError::OversizedVarInt),
            Err(JeValError::EmptySource) => Err(JeTypeError::Truncated),
        }
    }
}

/// The largest count that a length prefix can state.
pub open spec fn max_len() -> int {
    0x7fff_ffff
}

/// What reading `count` raw bytes from the start of `bytes` gives.
pub open spec fn parse_bytes(bytes: Seq<u8>, count: nat) -> Result<(Seq<u8>, nat), JeTypeError> {
    if bytes.len() < count {
        Err(JeTypeError::Truncated)
    } else {
        Ok((bytes.take(count as int), count))
    }
}

/// What reading a length-prefixed run of bytes from the start of `bytes`
/// gives: the run without its prefix, and the bytes taken with the prefix.
pub open spec fn parse_prefixed(bytes: Seq<u8>) -> Result<(Seq<u8>, nat), JeTypeError> {
    match decode_varint(bytes) {
        Err(e) => Err(field_error(e)),
        Ok((len, k)) => if len < 0 {
            Err(JeTypeError::InvalidValue)
        } else if bytes.len() - k < len {
            Err(JeTypeError::Truncated)
        } else {
            Ok((bytes.subrange(k as int, k + len), (k + len) as nat))
        },
    }
}

/// A run of bytes behind the VarInt that counts them.
pub open spec fn prefixed(body: Seq<u8>) -> Seq<u8> {
    encode_varint(body.len() as i32) + body
}

/// Reading a prefixed run gives the run back, whatever follows it.
pub proof fn lemma_prefixed_round_trip(body: Seq<u8>, rest: Seq<u8>)
    requires
        body.len() <= max_len(),
    ensures
        parse_prefixed(prefixed(body) + rest) == Ok::<(Seq<u8>, nat), JeTypeError>(
            (body, prefixed(body).len()),
        ),
{
    let head = encode_varint(body.len() as i32);
    let s = prefixed(body) + rest;
    assert(s =~= head + (body + rest));
    crate::varint::lemma_varint_round_trip(body.len() as i32, body + rest);
    assert(s.subrange(head.len() as int, (head.len() + body.len()) as int) =~= body);
}

// String
impl JeType for String {
    open spec fn wire_ok(v: Seq<char>) -> bool {
        encode_utf8(v).len() <= max_len()
    }

    open spec fn wire(v: Seq<char>) -> Seq<u8> {
        prefixed(encode_utf8(v))
    }

    open spec fn parse(bytes: Seq<u8>) -> Result<(Seq<char>, nat), JeTypeError> {
        match parse_prefixed(bytes) {
            Err(e) => Err(e),
            Ok((body, n)) => if valid_utf8(body) {
                Ok((decode_utf8(body), n))
            } else {
                Err(JeTypeError::InvalidUtf8)
            },
        }
    }

    proof fn lemma_round_trip(v: Seq<char>, rest: Seq<u8>) {
        lemma_prefixed_round_trip(encode_utf8(v), rest);
        vstd::utf8::encode_utf8_valid_utf8(v);
        vstd::utf8::encode_utf8_decode_utf8(v);
    }

    proof fn lemma_parse_within(bytes: Seq<u8>) {
        if let Ok((body, n)) = parse_prefixed(bytes) {
            if valid_utf8(body) {
                vstd::utf8::decode_utf8_encode_utf8(body);
            }
        }
    }

    fn to_vec_u8(&self) -> (r: Vec<u8>) {
        let body: &[u8] = self.as_str().as_bytes();
        let mut r: Vec<u8> = int_to_var_int(body.len() as i32);
        r.extend_from_slice(body);
        r
    }

    fn try_from_raw(be_bytes: &[u8]) -> (r: Result<(Self, usize), JeTypeError>) {
        let (body, taken) = match prefixed_try_from_raw(be_bytes) {
            Ok(found) => found,
            Err(e) => { return Err(e); },
        };
        match string_from_utf8(body) {
            Some(str) => Ok((str, taken)),
            None => Err(JeTypeError::InvalidUtf8),
        }
    }
}

/// Whether the wire can carry the string `s`.
pub fn string_fits(s: &str) -> (b: bool)
    ensures
        b == String::wire_ok(s@),
{
    s.as_bytes().len() <= 0x7fff_ffff
}

/// Writes a byte array: its bytes and nothing else. The count travels in a
/// field of its own, which the packet declares.
pub fn bytes_to_vec_u8(data: &[u8]) -> (r: Vec<u8>)
    ensures
        r@ == data@,
{
    slice_to_vec(data)
}

/// Reads a byte array of `count` bytes from the start of `be_bytes`.
pub fn bytes_try_from_raw(be_bytes: &[u8], count: usize) -> (r: Result<
    (Vec<u8>, usize),
    JeTypeError,
>)
    ensures
        parsed_as(r, parse_bytes(be_bytes@, count as nat)),
{
    if be_bytes.len() < count {
        return Err(JeTypeError::Truncated);
    }
    let body: Vec<u8> = slice_to_vec(slice_subrange(be_bytes, 0, count));
    Ok((body, count))
}

/// Reads a run of bytes behind its VarInt count from the start of
/// `be_bytes`.
pub fn prefixed_try_from_raw(be_bytes: &[u8]) -> (r: Result<(Vec<u8>, usize), JeTypeError>)
    ensures
        parsed_as(r, parse_prefixed(be_bytes@)),
{
    let (len, len_read) = match var_int_to_int(be_bytes, be_bytes.len()) {
        Ok(found) => found,
        Err(JeValError::OversizedVarInt) => { return Err(JeTypeError::OversizedVarInt); },
        Err(JeValError::EmptySource) => { return Err(JeTypeError::Truncated); },
    };
    if len < 0 {
        return Err(JeTypeError::InvalidValue);
    }
    let count: usize = len as usize;
    if be_bytes.len() - len_read < count {
        return Err(JeTypeError::Truncated);
    }
    let body: Vec<u8> = slice_to_vec(slice_subrange(be_bytes, len_read, len_read + count));
    Ok((body, len_read + count))
}

} // verus!
