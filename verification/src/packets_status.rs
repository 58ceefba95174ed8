//! The packets of the status phase: the server's answer to a status
//! request, and the ping with its pong.

use crate::packets::{
    field, lemma_field, lemma_start, read_field, write_field, JePacket, JePacketError,
};
use crate::types::{string_fits, JeType, JeVarInt};
use vstd::prelude::*;

verus! {

/// Server to client: the status document.
#[derive(Debug, Default, Clone, PartialEq, Eq)]
pub struct JeHandshakeResponse {
    pub json: String,
}

impl View for JeHandshakeResponse {
    type V = Seq<char>;

    open spec fn view(&self) -> Seq<char> {
        self.json@
    }
}

impl JePacket for JeHandshakeResponse {
    open spec fn packet_id() -> i32 {
        0x00
    }

    open spec fn wire_ok(v: Seq<char>) -> bool {
        String::wire_ok(v)
    }

    open spec fn wire(v: Seq<char>) -> Seq<u8> {
        String::wire(v)
    }

    open spec fn parse(bytes: Seq<u8>) -> Result<Seq<char>, JePacketError> {
        match field::<String>(bytes, 0, 0) {
            Err(e) => Err(e),
            Ok((json, _)) => Ok(json),
        }
    }

    proof fn lemma_round_trip(v: Seq<char>, rest: Seq<u8>) {
        let all = Self::wire(v) + rest;
        lemma_start(all);
        lemma_field::<String>(all, 0, v, rest, 0);
    }

    fn get_packet_id(&self) -> (id: JeVarInt) {
        JeVarInt(0x00)
    }

    fn fits(&self) -> (b: bool) {
        string_fits(self.json.as_str())
    }

    fn try_from_raw(be_bytes: &[u8]) -> (r: Result<Self, JePacketError>) {
        match read_field::<String>(be_bytes, 0, 0) {
            Ok((json, _)) => Ok(JeHandshakeResponse { json }),
            Err(e) => Err(e),
        }
    }

    fn to_vec_u8(&self) -> (r: Vec<u8>) {
        let mut result: Vec<u8> = Vec::with_capacity(200);
        write_field(&mut result, &self.json);
        assert(result@ =~= Self::wire(self@));
        result
    }
}

/// Client to server: a number that the server is to send back.
#[derive(Debug, Default, Clone, Copy, PartialEq, Eq, Structural)]
pub struct JePacketPing {
    pub val: i64,
}

impl View for JePacketPing {
    type V = i64;

    open spec fn view(&self) -> i64 {
        self.val
    }
}

impl JePacket for JePacketPing {
    open spec fn packet_id() -> i32 {
        0x01
    }

    open spec fn wire_ok(v: i64) -> bool {
        true
    }

    open spec fn wire(v: i64) -> Seq<u8> {
        i64::wire(v)
    }

    open spec fn parse(bytes: Seq<u8>) -> Result<i64, JePacketError> {
        match field::<i64>(bytes, 0, 0) {
            Err(e) => Err(e),
            Ok((val, _)) => Ok(val),
        }
    }

    proof fn lemma_round_trip(v: i64, rest: Seq<u8>) {
        let all = Self::wire(v) + rest;
        lemma_start(all);
        lemma_field::<i64>(all, 0, v, rest, 0);
    }

    fn get_packet_id(&self) -> (id: JeVarInt) {
        JeVarInt(0x01)
    }

    fn fits(&self) -> (b: bool) {
        true
    }

    fn try_from_raw(be_bytes: &[u8]) -> (r: Result<Self, JePacketError>) {
        match read_field::<i64>(be_bytes, 0, 0) {
            Ok((val, _)) => Ok(JePacketPing { val }),
            Err(e) => Err(e),
        }
    }

    fn to_vec_u8(&self) -> (r: Vec<u8>) {
        let mut result: Vec<u8> = Vec::with_capacity(200);
        write_field(&mut result, &self.val);
        assert(result@ =~= Self::wire(self@));
        result
    }
}

/// Server to client: the number of the ping.
#[derive(Debug, Default, Clone, Copy, PartialEq, Eq, Structural)]
pub struct JePacketPong {
    pub val: i64,
}

impl View for JePacketPong {
    type V = i64;

    open spec fn view(&self) -> i64 {
        self.val
    }
}

impl JePacket for JePacketPong {
    open spec fn packet_id() -> i32 {
        0x01
    }

    open spec fn wire_ok(v: i64) -> bool {
        true
    }

    open spec fn wire(v: i64) -> Seq<u8> {
        i64::wire(v)
    }

    open spec fn parse(bytes: Seq<u8>) -> Result<i64, JePacketError> {
        match field::<i64>(bytes, 0, 0) {
            Err(e) => Err(e),
            Ok((val, _)) => Ok(val),
        }
    }

    proof fn lemma_round_trip(v: i64, rest: Seq<u8>) {
        let all = Self::wire(v) + rest;
        lemma_start(all);
        lemma_field::<i64>(all, 0, v, rest, 0);
    }

    fn get_packet_id(&self) -> (id: JeVarInt) {
        JeVarInt(0x01)
    }

    fn fits(&self) -> (b: bool) {
        true
    }

    fn try_from_raw(be_bytes: &[u8]) -> (r: Result<Self, JePacketError>) {
        match read_field::<i64>(be_bytes, 0, 0) {
            Ok((val, _)) => Ok(JePacketPong { val }),
            Err(e) => Err(e),
        }
    }

    fn to_vec_u8(&self) -> (r: Vec<u8>) {
        let mut result: Vec<u8> = Vec::with_capacity(200);
        write_field(&mut result, &self.val);
        assert(result@ =~= Self::wire(self@));
        result
    }
}

} // verus!
