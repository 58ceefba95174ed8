//! The fixed-padded string: a string in a slot of constant width. On the
//! wire it is the width as a VarInt and then exactly that many bytes: the
//! string's UTF-8 bytes, cut off where they are too many and filled up with
//! zero bytes where they are too few.

use crate::types::{
    lemma_prefixed_round_trip, max_len, parse_prefixed, prefixed, prefixed_try_from_raw,
    JeTypeError,
};
use crate::varint::int_to_var_int;
use crate::wire::string_from_utf8;
use vstd::prelude::*;
use vstd::string::StringSliceAdditionalSpecFns;
use vstd::utf8::{decode_utf8, encode_utf8, valid_utf8};

verus! {

/// `count` zero bytes.
pub open spec fn zeros(count: nat) -> Seq<u8> {
    Seq::new(count, |i: int| 0u8)
}

/// `content` made to fill a slot of `width` bytes.
pub open spec fn fitted(content: Seq<u8>, width: nat) -> Seq<u8> {
    if content.len() >= width {
        content.take(width as int)
    } else {
        content + zeros((width - content.len()) as nat)
    }
}

/// What a slot holds without the zero bytes at its end.
pub open spec fn unpadded(slot: Seq<u8>) -> Seq<u8>
    decreases slot.len(),
{
    if slot.len() > 0 && slot.last() == 0 {
        unpadded(slot.drop_last())
    } else {
        slot
    }
}

/// The wire form of the string `v` in a slot of `width` bytes.
pub open spec fn padded_wire(v: Seq<char>, width: nat) -> Seq<u8> {
    prefixed(fitted(encode_utf8(v), width))
}

/// What reading a padded string from the start of `bytes` gives: the string
/// that the slot holds before the zero bytes at its end, and the bytes
/// taken.
pub open spec fn parse_padded(bytes: Seq<u8>) -> Result<(Seq<char>, nat), JeTypeError> {
    match parse_prefixed(bytes) {
        Err(e) => Err(e),
        Ok((slot, n)) => if valid_utf8(unpadded(slot)) {
            Ok((decode_utf8(unpadded(slot)), n))
        } else {
            Err(JeTypeError::InvalidUtf8)
        },
    }
}

/// Filling up with zero bytes and taking the zero bytes off again gives
/// back what does not itself end in a zero byte.
pub proof fn lemma_unpadded(content: Seq<u8>, count: nat)
    requires
        content.len() == 0 || content.last() != 0,
    ensures
        unpadded(content + zeros(count)) == content,
    decreases count,
{
    let slot = content + zeros(count);
    if count == 0 {
        assert(slot =~= content);
    } else {
        assert(slot.last() == 0);
        assert(slot.drop_last() =~= content + zeros((count - 1) as nat));
        lemma_unpadded(content, (count - 1) as nat);
    }
}

/// A string that fits its slot and does not end in the character zero is
/// read back as it was written, whatever follows it.
pub proof fn lemma_padded_round_trip(v: Seq<char>, width: nat, rest: Seq<u8>)
    requires
        encode_utf8(v).len() <= width <= max_len(),
        encode_utf8(v).len() == 0 || encode_utf8(v).last() != 0,
    ensures
        parse_padded(padded_wire(v, width) + rest) == Ok::<(Seq<char>, nat), JeTypeError>(
            (v, padded_wire(v, width).len()),
        ),
{
    let content = encode_utf8(v);
    let slot = fitted(content, width);
    lemma_prefixed_round_trip(slot, rest);
    if content.len() >= width {
        assert(slot =~= content);
        lemma_unpadded(content, 0);
        assert(content + zeros(0) =~= content);
    } else {
        lemma_unpadded(content, (width - content.len()) as nat);
    }
    vstd::utf8::encode_utf8_valid_utf8(v);
    vstd::utf8::encode_utf8_decode_utf8(v);
}

/// Writes the string `s` into a slot of `pad_width` bytes. There is no
/// wire form where the width does not fit a VarInt.
pub fn padded_to_vec_u8(s: &str, pad_width: usize) -> (r: Option<Vec<u8>>)
    ensures
        r is Some <==> pad_width <= max_len(),
        r matches Some(bytes) ==> bytes@ == padded_wire(s@, pad_width as nat),
{
    if pad_width > 0x7fff_ffff {
        return None;
    }
    let content: &[u8] = s.as_bytes();
    let mut r: Vec<u8> = int_to_var_int(pad_width as i32);
    let ghost head = r@;
    let ghost slot = fitted(content@, pad_width as nat);
    assert(r@ =~= head + slot.take(0));
    let mut i: usize = 0;
    while i < pad_width
        invariant
            i <= pad_width,
            content@ == encode_utf8(s@),
            slot == fitted(content@, pad_width as nat),
            slot.len() == pad_width,
            r@ == head + slot.take(i as int),
        decreases pad_width - i,
    {
        if i < content.len() {
            r.push(content[i]);
        } else {
            r.push(0);
        }
        assert(r@ =~= head + slot.take(i + 1));
        i = i + 1;
    }
    assert(slot.take(pad_width as int) =~= slot);
    Some(r)
}

/// The length of `slot` without the zero bytes at its end.
fn unpadded_len(slot: &[u8]) -> (n: usize)
    ensures
        n <= slot@.len(),
        slot@.take(n as int) == unpadded(slot@),
{
    let mut n: usize = slot.len();
    assert(slot@.take(n as int) =~= slot@);
    while n > 0 && slot[n - 1] == 0
        invariant
            n <= slot@.len(),
            unpadded(slot@.take(n as int)) == unpadded(slot@),
        decreases n,
    {
        assert(slot@.take(n as int).drop_last() =~= slot@.take(n - 1));
        n = n - 1;
    }
    n
}

/// Reads a padded string from the start of `be_bytes`.
pub fn padded_try_from_raw(be_bytes: &[u8]) -> (r: Result<(String, usize), JeTypeError>)
    ensures
        crate::types::parsed_as(r, parse_padded(be_bytes@)),
{
    let (mut slot, taken) = match prefixed_try_from_raw(be_bytes) {
        Ok(found) => found,
        Err(e) => { return Err(e); },
    };
    let n: usize = unpadded_len(slot.as_slice());
    slot.truncate(n);
    match string_from_utf8(slot) {
        Some(text) => Ok((text, taken)),
        None => Err(JeTypeError::InvalidUtf8),
    }
}

} // verus!
