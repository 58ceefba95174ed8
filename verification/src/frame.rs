//! Frames: the unit of transport. A frame is a VarInt that declares how many
//! bytes follow, then the packet id as a VarInt, then the payload; the
//! declared length counts the id and the payload.
//!
//! The writer builds the whole frame as one run of bytes, to go out in one
//! write. The reader works on the bytes received so far and says how many of
//! them belong to the frame at the front, so that nothing behind it is
//! touched.

use crate::varint::{
    decode_varint, encode_varint, int_to_var_int, lemma_varint_round_trip, var_int_to_int,
    JeValError,
};
use vstd::prelude::*;
use vstd::slice::{slice_subrange, slice_to_vec};

verus! {

/// What went wrong at the front of the received bytes.
#[derive(Debug, Clone, Copy, PartialEq, Eq, Structural)]
pub enum JeNetError {
    /// Fewer bytes are there than the frame declares: the rest has not come
    /// yet, or the stream broke off.
    IoError,
    /// The bytes at the front are no frame length: no VarInt, or one below 1.
    VarIntOverflow,
    /// Nothing is there: the peer has closed its side.
    EmptySocket,
    /// The frame is all there, but does not begin with a packet id.
    BadPacketId,
}

/// A failed read: what went wrong, and how many bytes to drop from the front
/// before reading on.
#[derive(Debug, Clone, Copy, PartialEq, Eq, Structural)]
pub struct JeFrameError {
    pub kind: JeNetError,
    pub skip: usize,
}

/// A frame taken off the front of the received bytes.
#[derive(Debug, Clone, PartialEq, Eq)]
pub struct JeFrame {
    /// The length that the frame declares.
    pub len: usize,
    /// All bytes of the frame, the length's own included.
    pub consumed: usize,
    pub id: i32,
    pub data: Vec<u8>,
}

/// What a frame holds.
pub struct FrameFields {
    pub len: nat,
    pub consumed: nat,
    pub id: i32,
    pub data: Seq<u8>,
}

impl View for JeFrame {
    type V = FrameFields;

    open spec fn view(&self) -> FrameFields {
        FrameFields {
            len: self.len as nat,
            consumed: self.consumed as nat,
            id: self.id,
            data: self.data@,
        }
    }
}

/// A failed read, with the bytes to drop as a natural number.
pub struct FrameFault {
    pub kind: JeNetError,
    pub skip: nat,
}

/// The length that the frame of a packet declares.
pub open spec fn declared_len(packet_id: i32, data: Seq<u8>) -> int {
    (encode_varint(packet_id).len() + data.len()) as int
}

/// Whether a packet fits a frame: its declared length fits a VarInt.
pub open spec fn frame_ok(packet_id: i32, data: Seq<u8>) -> bool {
    declared_len(packet_id, data) <= 0x7fff_ffff
}

/// The frame of a packet.
pub open spec fn frame(packet_id: i32, data: Seq<u8>) -> Seq<u8> {
    encode_varint(declared_len(packet_id, data) as i32) + encode_varint(packet_id) + data
}

/// What reading a frame's id and payload from the bytes that it declares
/// gives.
pub open spec fn read_body(body: Seq<u8>) -> Result<(i32, Seq<u8>), JeValError> {
    match decode_varint(body) {
        Err(e) => Err(e),
        Ok((id, j)) => Ok((id, body.skip(j as int))),
    }
}

/// What reading a frame from the front of the received bytes `s` gives.
pub open spec fn read_frame(s: Seq<u8>) -> Result<FrameFields, FrameFault> {
    if s.len() == 0 {
        Err(FrameFault { kind: JeNetError::EmptySocket, skip: 0 })
    } else {
        match decode_varint(s) {
            Err(_) => Err(FrameFault { kind: JeNetError::VarIntOverflow, skip: 1 }),
            Ok((len, k)) => if len < 1 {
                Err(FrameFault { kind: JeNetError::VarIntOverflow, skip: 1 })
            } else if s.len() < k + len {
                Err(FrameFault { kind: JeNetError::IoError, skip: 0 })
            } else {
                match read_body(s.subrange(k as int, k + len)) {
                    Err(_) => Err(
                        FrameFault { kind: JeNetError::BadPacketId, skip: (k + len) as nat },
                    ),
                    Ok((id, data)) => Ok(
                        FrameFields { len: len as nat, consumed: (k + len) as nat, id, data },
                    ),
                }
            },
        }
    }
}

/// What the first bytes of a frame say of its extent: how many bytes the
/// frame takes in all, its length's own included.
pub open spec fn frame_extent(s: Seq<u8>) -> Result<nat, FrameFault> {
    if s.len() == 0 {
        Err(FrameFault { kind: JeNetError::EmptySocket, skip: 0 })
    } else {
        match decode_varint(s) {
            Err(_) => Err(FrameFault { kind: JeNetError::VarIntOverflow, skip: 1 }),
            Ok((len, k)) => if len < 1 {
                Err(FrameFault { kind: JeNetError::VarIntOverflow, skip: 1 })
            } else {
                Ok((k + len) as nat)
            },
        }
    }
}

/// Whether `r` is the executable form of the outcome `expected`.
pub open spec fn frame_read_as(
    r: Result<JeFrame, JeFrameError>,
    expected: Result<FrameFields, FrameFault>,
) -> bool {
    match r {
        Ok(f) => expected == Ok::<FrameFields, FrameFault>(f@),
        Err(e) => expected == Err::<FrameFields, FrameFault>(
            FrameFault { kind: e.kind, skip: e.skip as nat },
        ),
    }
}

/// Builds the frame of a packet: the bytes to hand to the socket in one
/// write. There is none where the packet is too long for a frame.
pub fn frame_packet(packet_id: i32, data: &[u8]) -> (r: Option<Vec<u8>>)
    ensures
        r is Some <==> frame_ok(packet_id, data@),
        r matches Some(buf) ==> buf@ == frame(packet_id, data@),
{
    let mut packet_id_varint: Vec<u8> = int_to_var_int(packet_id);
    if data.len() > 0x7fff_ffff - packet_id_varint.len() {
        return None;
    }
    let len: usize = packet_id_varint.len() + data.len();
    let mut buf: Vec<u8> = int_to_var_int(len as i32);
    buf.append(&mut packet_id_varint);
    buf.extend_from_slice(data);
    Some(buf)
}

/// Takes a frame's id and payload apart: `body` is the bytes that the frame
/// declares.
pub fn split_body(body: &[u8]) -> (r: Result<(i32, Vec<u8>), JeValError>)
    ensures
        match r {
            Ok((id, data)) => read_body(body@) == Ok::<(i32, Seq<u8>), JeValError>((id, data@)),
            Err(e) => read_body(body@) == Err::<(i32, Seq<u8>), JeValError>(e),
        },
{
    match var_int_to_int(body, body.len()) {
        Ok((id, id_bytes_read)) => {
            let data: Vec<u8> = slice_to_vec(slice_subrange(body, id_bytes_read, body.len()));
            assert(data@ =~= body@.skip(id_bytes_read as int));
            Ok((id, data))
        },
        Err(e) => Err(e),
    }
}

/// Says from a look at the first bytes of a frame, five of them at most,
/// how many bytes the frame takes in all: so many are to be taken from the
/// stream, and none beyond.
///
/// `EmptySocket` where nothing is there. `VarIntOverflow` where the bytes
/// are no frame length: one byte is to be dropped.
pub fn frame_size(peek: &[u8]) -> (r: Result<usize, JeFrameError>)
    ensures
        match r {
            Ok(n) => frame_extent(peek@) == Ok::<nat, FrameFault>(n as nat),
            Err(e) => frame_extent(peek@) == Err::<nat, FrameFault>(
                FrameFault { kind: e.kind, skip: e.skip as nat },
            ),
        },
{
    if peek.len() == 0 {
        return Err(JeFrameError { kind: JeNetError::EmptySocket, skip: 0 });
    }
    match var_int_to_int(peek, peek.len()) {
        Ok((len, len_bytes_read)) => {
            if len < 1 {
                Err(JeFrameError { kind: JeNetError::VarIntOverflow, skip: 1 })
            } else {
                Ok(len_bytes_read + len as usize)
            }
        },
        Err(_) => Err(JeFrameError { kind: JeNetError::VarIntOverflow, skip: 1 }),
    }
}

/// A frame that is all there takes the bytes that its first bytes say.
pub proof fn lemma_extent_of_frame(s: Seq<u8>)
    ensures
        read_frame(s) matches Ok(f) ==> frame_extent(s) == Ok::<nat, FrameFault>(f.consumed),
        frame_extent(s) matches Err(e) ==> read_frame(s) == Err::<FrameFields, FrameFault>(e),
        frame_extent(s) matches Ok(n) ==> (read_frame(s) matches Err(e) ==> (e.kind
            == JeNetError::IoError && s.len() < n) || (e.kind == JeNetError::BadPacketId && e.skip
            == n)),
{
}

/// Reads the frame at the front of the bytes received so far.
///
/// `EmptySocket` where nothing is there. `VarIntOverflow` where the front is
/// no frame length: one byte is to be dropped. `IoError` where the frame
/// declares more bytes than are there: nothing is to be dropped.
/// `BadPacketId` where the declared bytes do not begin with a VarInt: the
/// whole frame is to be dropped. Otherwise the frame, with the number of
/// bytes that it takes.
pub fn read_from_je(buf: &[u8]) -> (r: Result<JeFrame, JeFrameError>)
    ensures
        frame_read_as(r, read_frame(buf@)),
        r matches Ok(f) ==> f.consumed <= buf@.len(),
        r matches Err(e) ==> e.skip <= buf@.len(),
{
    if buf.len() == 0 {
        return Err(JeFrameError { kind: JeNetError::EmptySocket, skip: 0 });
    }
    let (len, len_bytes_read) = match var_int_to_int(buf, buf.len()) {
        Ok(tup) => tup,
        Err(_) => { return Err(JeFrameError { kind: JeNetError::VarIntOverflow, skip: 1 }); },
    };
    if len < 1 {
        return Err(JeFrameError { kind: JeNetError::VarIntOverflow, skip: 1 });
    }
    let declared: usize = len as usize;
    if buf.len() - len_bytes_read < declared {
        return Err(JeFrameError { kind: JeNetError::IoError, skip: 0 });
    }
    let consumed: usize = len_bytes_read + declared;
    match split_body(slice_subrange(buf, len_bytes_read, consumed)) {
        Ok((id, data)) => Ok(JeFrame { len: declared, consumed, id, data }),
        Err(_) => Err(JeFrameError { kind: JeNetError::BadPacketId, skip: consumed }),
    }
}

/// A frame at the front of the received bytes is read back as the packet
/// that it was built from, and takes exactly its own bytes, whatever follows
/// it.
pub proof fn lemma_frame_round_trip(packet_id: i32, data: Seq<u8>, rest: Seq<u8>)
    requires
        frame_ok(packet_id, data),
    ensures
        read_frame(frame(packet_id, data) + rest) == Ok::<FrameFields, FrameFault>(
            FrameFields {
                len: declared_len(packet_id, data) as nat,
                consumed: frame(packet_id, data).len(),
                id: packet_id,
                data,
            },
        ),
{
    let len = declared_len(packet_id, data);
    let head = encode_varint(len as i32);
    let id = encode_varint(packet_id);
    let s = frame(packet_id, data) + rest;
    lemma_varint_round_trip(packet_id, data);
    lemma_varint_round_trip(len as i32, id + data + rest);
    assert(s =~= head + (id + data + rest));
    let k = head.len();
    assert(s.subrange(k as int, k + len) =~= id + data);
    assert((id + data).skip(id.len() as int) =~= data);
}

/// Two frames back to back are read as two frames, in order: the first from
/// the front, the second from what is left when the bytes of the first are
/// dropped.
pub proof fn lemma_frames_in_order(
    first_id: i32,
    first: Seq<u8>,
    second_id: i32,
    second: Seq<u8>,
    rest: Seq<u8>,
)
    requires
        frame_ok(first_id, first),
        frame_ok(second_id, second),
    ensures
        ({
            let all = frame(first_id, first) + frame(second_id, second) + rest;
            let left = all.skip(frame(first_id, first).len() as int);
            &&& read_frame(all) matches Ok(f) && f.id == first_id && f.data == first
                && f.consumed == frame(first_id, first).len()
            &&& read_frame(left) matches Ok(g) && g.id == second_id && g.data == second
                && g.consumed == frame(second_id, second).len()
        }),
{
    let a = frame(first_id, first);
    let b = frame(second_id, second);
    let all = a + b + rest;
    assert(all =~= a + (b + rest));
    lemma_frame_round_trip(first_id, first, b + rest);
    assert(all.skip(a.len() as int) =~= b + rest);
    lemma_frame_round_trip(second_id, second, rest);
}

} // verus!
