//! The packet schemas: each packet is a packet id and a fixed, ordered list
//! of typed fields. A packet is written as its fields one after the other
//! and read back field by field, in the order of declaration, stopping at
//! the first field that cannot be read.

use crate::types::{
    bytes_to_vec_u8, bytes_try_from_raw, parse_bytes, string_fits, JeType, JeTypeError, JeVarInt,
};
use vstd::prelude::*;
use vstd::slice::slice_subrange;

verus! {

/// The field at which reading a packet stopped, counted from 0 in the order
/// of declaration, and why.
#[derive(Debug, Clone, Copy, PartialEq, Eq, Structural)]
pub struct JePacketError {
    pub field: usize,
    pub cause: JeTypeError,
}

/// What reading field number `index`, of type `T`, gives where it starts at
/// offset `at` of `bytes`: its value and the offset behind it.
pub open spec fn field<T: JeType>(bytes: Seq<u8>, at: nat, index: usize) -> Result<
    (T::V, nat),
    JePacketError,
> {
    match T::parse(bytes.skip(at as int)) {
        Ok((v, n)) => Ok((v, at + n)),
        Err(e) => Err(JePacketError { field: index, cause: e }),
    }
}

/// What reading field number `index`, a byte array of `count` bytes, gives
/// where it starts at offset `at` of `bytes`. A count below zero is no
/// count.
pub open spec fn array_field(bytes: Seq<u8>, at: nat, count: int, index: usize) -> Result<
    (Seq<u8>, nat),
    JePacketError,
> {
    if count < 0 {
        Err(JePacketError { field: index, cause: JeTypeError::InvalidValue })
    } else {
        match parse_bytes(bytes.skip(at as int), count as nat) {
            Ok((v, n)) => Ok((v, at + n)),
            Err(e) => Err(JePacketError { field: index, cause: e }),
        }
    }
}

/// Whether `r` is the executable form of the outcome `expected` of reading a
/// field.
pub open spec fn field_read_as<T: View>(
    r: Result<(T, usize), JePacketError>,
    expected: Result<(T::V, nat), JePacketError>,
) -> bool {
    match r {
        Ok((v, next)) => expected == Ok::<(T::V, nat), JePacketError>((v@, next as nat)),
        Err(e) => expected == Err::<(T::V, nat), JePacketError>(e),
    }
}

/// Whether `r` is the executable form of the outcome `expected` of reading a
/// packet.
pub open spec fn packet_read_as<P: View>(
    r: Result<P, JePacketError>,
    expected: Result<P::V, JePacketError>,
) -> bool {
    match r {
        Ok(p) => expected == Ok::<P::V, JePacketError>(p@),
        Err(e) => expected == Err::<P::V, JePacketError>(e),
    }
}

/// Whether what follows offset `at` in `all` is `tail`.
pub open spec fn from_offset(all: Seq<u8>, at: nat, tail: Seq<u8>) -> bool {
    at <= all.len() && all.skip(at as int) == tail
}

/// Where the written form of a field, and behind it `tail`, follow offset
/// `at`, the field is read back from there as it was written, and `tail`
/// follows the offset behind it.
pub proof fn lemma_field<T: JeType>(all: Seq<u8>, at: nat, v: T::V, tail: Seq<u8>, index: usize)
    requires
        T::wire_ok(v),
        from_offset(all, at, T::wire(v) + tail),
    ensures
        field::<T>(all, at, index) == Ok::<(T::V, nat), JePacketError>(
            (v, at + T::wire(v).len()),
        ),
        from_offset(all, at + T::wire(v).len(), tail),
{
    let end = at + T::wire(v).len();
    assert(all.skip(end as int) =~= all.skip(at as int).skip(T::wire(v).len() as int));
    assert((T::wire(v) + tail).skip(T::wire(v).len() as int) =~= tail);
    T::lemma_round_trip(v, tail);
}

/// Where a byte array, and behind it `tail`, follow offset `at`, the array
/// is read back from there as it was written, and `tail` follows the offset
/// behind it.
pub proof fn lemma_array_field(all: Seq<u8>, at: nat, v: Seq<u8>, tail: Seq<u8>, index: usize)
    requires
        from_offset(all, at, v + tail),
    ensures
        array_field(all, at, v.len() as int, index) == Ok::<(Seq<u8>, nat), JePacketError>(
            (v, at + v.len()),
        ),
        from_offset(all, at + v.len(), tail),
{
    let end = at + v.len();
    assert(all.skip(end as int) =~= all.skip(at as int).skip(v.len() as int));
    assert((v + tail).skip(v.len() as int) =~= tail);
    assert((v + tail).take(v.len() as int) =~= v);
}

/// All of `all` follows its offset 0.
pub proof fn lemma_start(all: Seq<u8>)
    ensures
        from_offset(all, 0, all),
{
    assert(all.skip(0) =~= all);
}

/// Three runs of bytes can be joined from either end.
pub proof fn lemma_regroup(a: Seq<u8>, b: Seq<u8>, c: Seq<u8>)
    ensures
        a + b + c == a + (b + c),
{
    assert(a + b + c =~= a + (b + c));
}

/// Reads field number `index` at offset `at`.
pub fn read_field<T: JeType>(be_bytes: &[u8], at: usize, index: usize) -> (r: Result<
    (T, usize),
    JePacketError,
>)
    requires
        at <= be_bytes@.len(),
    ensures
        field_read_as(r, field::<T>(be_bytes@, at as nat, index)),
        r matches Ok((v, next)) ==> next <= be_bytes@.len() && T::wire_ok(v@),
{
    let tail = slice_subrange(be_bytes, at, be_bytes.len());
    assert(tail@ =~= be_bytes@.skip(at as int));
    proof {
        T::lemma_parse_within(tail@);
    }
    match T::try_from_raw(tail) {
        Ok((v, bytes_read)) => Ok((v, at + bytes_read)),
        Err(e) => Err(JePacketError { field: index, cause: e }),
    }
}

/// Reads field number `index`, a byte array of `count` bytes, at offset
/// `at`.
pub fn read_array_field(be_bytes: &[u8], at: usize, count: i32, index: usize) -> (r: Result<
    (Vec<u8>, usize),
    JePacketError,
>)
    requires
        at <= be_bytes@.len(),
    ensures
        field_read_as(r, array_field(be_bytes@, at as nat, count as int, index)),
        r matches Ok((v, next)) ==> next <= be_bytes@.len() && v@.len() == count,
{
    if count < 0 {
        return Err(JePacketError { field: index, cause: JeTypeError::InvalidValue });
    }
    let tail = slice_subrange(be_bytes, at, be_bytes.len());
    assert(tail@ =~= be_bytes@.skip(at as int));
    match bytes_try_from_raw(tail, count as usize) {
        Ok((v, bytes_read)) => Ok((v, at + bytes_read)),
        Err(e) => Err(JePacketError { field: index, cause: e }),
    }
}

/// Appends the wire form of `v` to `buf`.
pub fn write_field<T: JeType>(buf: &mut Vec<u8>, v: &T)
    requires
        T::wire_ok(v@),
    ensures
        final(buf)@ == old(buf)@ + T::wire(v@),
{
    let mut bytes: Vec<u8> = v.to_vec_u8();
    buf.append(&mut bytes);
}

/// Appends the bytes of the array `v` to `buf`.
pub fn write_array_field(buf: &mut Vec<u8>, v: &Vec<u8>)
    ensures
        final(buf)@ == old(buf)@ + v@,
{
    let mut bytes: Vec<u8> = bytes_to_vec_u8(v.as_slice());
    buf.append(&mut bytes);
}

/// A packet: a packet id and an ordered list of typed fields.
pub trait JePacket: Sized + View {
    /// The id that every packet of this type travels under.
    spec fn packet_id() -> i32;

    /// Whether the wire can carry the packet: each field can be written, and
    /// each count is the length of the array it counts.
    spec fn wire_ok(v: Self::V) -> bool;

    /// The payload: the fields in the order of declaration.
    spec fn wire(v: Self::V) -> Seq<u8>;

    /// What reading the fields from the start of `bytes` gives. Bytes
    /// behind the last field are not looked at.
    spec fn parse(bytes: Seq<u8>) -> Result<Self::V, JePacketError>;

    /// Reading a written payload gives the packet back, whatever follows
    /// it.
    proof fn lemma_round_trip(v: Self::V, rest: Seq<u8>)
        requires
            Self::wire_ok(v),
        ensures
            Self::parse(Self::wire(v) + rest) == Ok::<Self::V, JePacketError>(v),
    ;

    fn get_packet_id(&self) -> (id: JeVarInt)
        ensures
            id.0 == Self::packet_id(),
    ;

    /// Whether the wire can carry this packet.
    fn fits(&self) -> (b: bool)
        ensures
            b == Self::wire_ok(self@),
    ;

    /// Reads the packet from a frame's payload.
    fn try_from_raw(be_bytes: &[u8]) -> (r: Result<Self, JePacketError>)
        ensures
            packet_read_as(r, Self::parse(be_bytes@)),
            r matches Ok(p) ==> Self::wire_ok(p@),
    ;

    /// Writes the payload.
    fn to_vec_u8(&self) -> (r: Vec<u8>)
        requires
            Self::wire_ok(self@),
        ensures
            r@ == Self::wire(self@),
    ;
}

/// A packet of any type, as it travels: its id and its payload.
#[derive(Debug, Clone, PartialEq, Eq)]
pub struct JeGenericPacket {
    pub id: i32,
    pub data: Vec<u8>,
}

impl JeGenericPacket {
    /// The travelling form of `packet`.
    pub fn from_packet<P: JePacket>(packet: &P) -> (r: JeGenericPacket)
        requires
            P::wire_ok(packet@),
        ensures
            r.id == P::packet_id(),
            r.data@ == P::wire(packet@),
    {
        JeGenericPacket { id: packet.get_packet_id().0, data: packet.to_vec_u8() }
    }
}

/// A chat message, as the text of its document.
#[derive(Debug, Default, Clone, PartialEq, Eq)]
pub struct JeChat(pub String);

impl View for JeChat {
    type V = Seq<char>;

    open spec fn view(&self) -> Seq<char> {
        self.0@
    }
}

impl JeType for JeChat {
    open spec fn wire_ok(v: Seq<char>) -> bool {
        String::wire_ok(v)
    }

    open spec fn wire(v: Seq<char>) -> Seq<u8> {
        String::wire(v)
    }

    open spec fn parse(bytes: Seq<u8>) -> Result<(Seq<char>, nat), JeTypeError> {
        String::parse(bytes)
    }

    proof fn lemma_round_trip(v: Seq<char>, rest: Seq<u8>) {
        String::lemma_round_trip(v, rest);
    }

    proof fn lemma_parse_within(bytes: Seq<u8>) {
        String::lemma_parse_within(bytes);
    }

    fn to_vec_u8(&self) -> (r: Vec<u8>) {
        self.0.to_vec_u8()
    }

    fn try_from_raw(be_bytes: &[u8]) -> (r: Result<(Self, usize), JeTypeError>) {
        match String::try_from_raw(be_bytes) {
            Ok((text, bytes_read)) => Ok((JeChat(text), bytes_read)),
            Err(e) => Err(e),
        }
    }
}

/// Client to server, first packet of a connection.
#[derive(Debug, Default, Clone, PartialEq, Eq)]
pub struct JePacketHandshake {
    pub protocol_ver: JeVarInt,
    pub server_addr: String,
    pub server_port: u16,
    pub next_state: JeVarInt,
}

/// What a handshake holds.
pub struct HandshakeFields {
    pub protocol_ver: i32,
    pub server_addr: Seq<char>,
    pub server_port: u16,
    pub next_state: i32,
}

impl View for JePacketHandshake {
    type V = HandshakeFields;

    open spec fn view(&self) -> HandshakeFields {
        HandshakeFields {
            protocol_ver: self.protocol_ver.0,
            server_addr: self.server_addr@,
            server_port: self.server_port,
            next_state: self.next_state.0,
        }
    }
}

impl JePacket for JePacketHandshake {
    open spec fn packet_id() -> i32 {
        0x00
    }

    open spec fn wire_ok(v: HandshakeFields) -> bool {
        String::wire_ok(v.server_addr)
    }

    open spec fn wire(v: HandshakeFields) -> Seq<u8> {
        JeVarInt::wire(v.protocol_ver) + String::wire(v.server_addr) + u16::wire(v.server_port)
            + JeVarInt::wire(v.next_state)
    }

    open spec fn parse(bytes: Seq<u8>) -> Result<HandshakeFields, JePacketError> {
        match field::<JeVarInt>(bytes, 0, 0) {
            Err(e) => Err(e),
            Ok((protocol_ver, a)) => match field::<String>(bytes, a, 1) {
                Err(e) => Err(e),
                Ok((server_addr, b)) => match field::<u16>(bytes, b, 2) {
                    Err(e) => Err(e),
                    Ok((server_port, c)) => match field::<JeVarInt>(bytes, c, 3) {
                        Err(e) => Err(e),
                        Ok((next_state, _)) => Ok(
                            HandshakeFields { protocol_ver, server_addr, server_port, next_state },
                        ),
                    },
                },
            },
        }
    }

    proof fn lemma_round_trip(v: HandshakeFields, rest: Seq<u8>) {
        let f0 = JeVarInt::wire(v.protocol_ver);
        let f1 = String::wire(v.server_addr);
        let f2 = u16::wire(v.server_port);
        let f3 = JeVarInt::wire(v.next_state);
        let all = Self::wire(v) + rest;
        let t3 = f3 + rest;
        let t2 = f2 + t3;
        let t1 = f1 + t2;
        lemma_regroup(f0 + f1 + f2, f3, rest);
        lemma_regroup(f0 + f1, f2, t3);
        lemma_regroup(f0, f1, t2);
        lemma_start(all);
        lemma_field::<JeVarInt>(all, 0, v.protocol_ver, t1, 0);
        let a = f0.len();
        lemma_field::<String>(all, a, v.server_addr, t2, 1);
        let b = a + f1.len();
        lemma_field::<u16>(all, b, v.server_port, t3, 2);
        let c = b + f2.len();
        lemma_field::<JeVarInt>(all, c, v.next_state, rest, 3);
    }

    fn get_packet_id(&self) -> (id: JeVarInt) {
        JeVarInt(0x00)
    }

    fn fits(&self) -> (b: bool) {
        string_fits(self.server_addr.as_str())
    }

    fn try_from_raw(be_bytes: &[u8]) -> (r: Result<Self, JePacketError>) {
        let (protocol_ver, a) = match read_field::<JeVarInt>(be_bytes, 0, 0) {
            Ok(found) => found,
            Err(e) => { return Err(e); },
        };
        let (server_addr, b) = match read_field::<String>(be_bytes, a, 1) {
            Ok(found) => found,
            Err(e) => { return Err(e); },
        };
        let (server_port, c) = match read_field::<u16>(be_bytes, b, 2) {
            Ok(found) => found,
            Err(e) => { return Err(e); },
        };
        let (next_state, _) = match read_field::<JeVarInt>(be_bytes, c, 3) {
            Ok(found) => found,
            Err(e) => { return Err(e); },
        };
        Ok(JePacketHandshake { protocol_ver, server_addr, server_port, next_state })
    }

    fn to_vec_u8(&self) -> (r: Vec<u8>) {
        let mut result: Vec<u8> = Vec::with_capacity(200);
        write_field(&mut result, &self.protocol_ver);
        write_field(&mut result, &self.server_addr);
        write_field(&mut result, &self.server_port);
        write_field(&mut result, &self.next_state);
        assert(result@ =~= Self::wire(self@));
        result
    }
}

} // verus!
