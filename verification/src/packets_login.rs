//! The packets of the login phase.

use crate::packets::{
    array_field, field, lemma_array_field, lemma_field, lemma_regroup, lemma_start,
    read_array_field, read_field, write_array_field, write_field, JeChat, JePacket,
    JePacketError,
};
use crate::types::{string_fits, JeType, JeVarInt};
use vstd::prelude::*;

verus! {

/// Client to server: the name the player logs in under.
#[derive(Debug, Default, Clone, PartialEq, Eq)]
pub struct JeLoginStart {
    pub name: String,
}

impl View for JeLoginStart {
    type V = Seq<char>;

    open spec fn view(&self) -> Seq<char> {
        self.name@
    }
}

impl JePacket for JeLoginStart {
    open spec fn packet_id() -> i32 {
        0x00
    }

    open spec fn wire_ok(v: Seq<char>) -> bool {
        String::wire_ok(v)
    }

    open spec fn wire(v: Seq<char>) -> Seq<u8> {
        String::wire(v)
    }

    open spec fn parse(bytes: Seq<u8>) -> Result<Seq<char>, JePacketError> {
        match field::<String>(bytes, 0, 0) {
            Err(e) => Err(e),
            Ok((name, _)) => Ok(name),
        }
    }

    proof fn lemma_round_trip(v: Seq<char>, rest: Seq<u8>) {
        let all = Self::wire(v) + rest;
        lemma_start(all);
        lemma_field::<String>(all, 0, v, rest, 0);
    }

    fn get_packet_id(&self) -> (id: JeVarInt) {
        JeVarInt(0x00)
    }

    fn fits(&self) -> (b: bool) {
        string_fits(self.name.as_str())
    }

    fn try_from_raw(be_bytes: &[u8]) -> (r: Result<Self, JePacketError>) {
        match read_field::<String>(be_bytes, 0, 0) {
            Ok((name, _)) => Ok(JeLoginStart { name }),
            Err(e) => Err(e),
        }
    }

    fn to_vec_u8(&self) -> (r: Vec<u8>) {
        let mut result: Vec<u8> = Vec::with_capacity(200);
        write_field(&mut result, &self.name);
        assert(result@ =~= Self::wire(self@));
        result
    }
}

/// Server to client: the login is refused, and why.
#[derive(Debug, Default, Clone, PartialEq, Eq)]
pub struct JeLoginDisconnect {
    pub reason: JeChat,
}

impl View for JeLoginDisconnect {
    type V = Seq<char>;

    open spec fn view(&self) -> Seq<char> {
        self.reason@
    }
}

impl JePacket for JeLoginDisconnect {
    open spec fn packet_id() -> i32 {
        0x00
    }

    open spec fn wire_ok(v: Seq<char>) -> bool {
        JeChat::wire_ok(v)
    }

    open spec fn wire(v: Seq<char>) -> Seq<u8> {
        JeChat::wire(v)
    }

    open spec fn parse(bytes: Seq<u8>) -> Result<Seq<char>, JePacketError> {
        match field::<JeChat>(bytes, 0, 0) {
            Err(e) => Err(e),
            Ok((reason, _)) => Ok(reason),
        }
    }

    proof fn lemma_round_trip(v: Seq<char>, rest: Seq<u8>) {
        let all = Self::wire(v) + rest;
        lemma_start(all);
        lemma_field::<JeChat>(all, 0, v, rest, 0);
    }

    fn get_packet_id(&self) -> (id: JeVarInt) {
        JeVarInt(0x00)
    }

    fn fits(&self) -> (b: bool) {
        string_fits(self.reason.0.as_str())
    }

    fn try_from_raw(be_bytes: &[u8]) -> (r: Result<Self, JePacketError>) {
        match read_field::<JeChat>(be_bytes, 0, 0) {
            Ok((reason, _)) => Ok(JeLoginDisconnect { reason }),
            Err(e) => Err(e),
        }
    }

    fn to_vec_u8(&self) -> (r: Vec<u8>) {
        let mut result: Vec<u8> = Vec::with_capacity(200);
        write_field(&mut result, &self.reason);
        assert(result@ =~= Self::wire(self@));
        result
    }
}

/// Server to client: the request to switch to encryption.
#[derive(Debug, Default, Clone, PartialEq, Eq)]
pub struct JeEncRequest {
    pub server_id: String,
    pub pubkey_len: JeVarInt,
    pub pubkey: Vec<u8>,
    pub vtoken_len: JeVarInt,
    pub vtoken: Vec<u8>,
}

/// What an encryption request holds.
pub struct EncRequestFields {
    pub server_id: Seq<char>,
    pub pubkey_len: i32,
    pub pubkey: Seq<u8>,
    pub vtoken_len: i32,
    pub vtoken: Seq<u8>,
}

impl View for JeEncRequest {
    type V = EncRequestFields;

    open spec fn view(&self) -> EncRequestFields {
        EncRequestFields {
            server_id: self.server_id@,
            pubkey_len: self.pubkey_len.0,
            pubkey: self.pubkey@,
            vtoken_len: self.vtoken_len.0,
            vtoken: self.vtoken@,
        }
    }
}

impl JePacket for JeEncRequest {
    open spec fn packet_id() -> i32 {
        0x01
    }

    open spec fn wire_ok(v: EncRequestFields) -> bool {
        &&& String::wire_ok(v.server_id)
        &&& v.pubkey_len == v.pubkey.len()
        &&& v.vtoken_len == v.vtoken.len()
    }

    open spec fn wire(v: EncRequestFields) -> Seq<u8> {
        String::wire(v.server_id) + JeVarInt::wire(v.pubkey_len) + v.pubkey + JeVarInt::wire(
            v.vtoken_len,
        ) + v.vtoken
    }

    open spec fn parse(bytes: Seq<u8>) -> Result<EncRequestFields, JePacketError> {
        match field::<String>(bytes, 0, 0) {
            Err(e) => Err(e),
            Ok((server_id, a)) => match field::<JeVarInt>(bytes, a, 1) {
                Err(e) => Err(e),
                Ok((pubkey_len, b)) => match array_field(bytes, b, pubkey_len as int, 2) {
                    Err(e) => Err(e),
                    Ok((pubkey, c)) => match field::<JeVarInt>(bytes, c, 3) {
                        Err(e) => Err(e),
                        Ok((vtoken_len, d)) => match array_field(bytes, d, vtoken_len as int, 4) {
                            Err(e) => Err(e),
                            Ok((vtoken, _)) => Ok(
                                EncRequestFields {
                                    server_id,
                                    pubkey_len,
                                    pubkey,
                                    vtoken_len,
                                    vtoken,
                                },
                            ),
                        },
                    },
                },
            },
        }
    }

    proof fn lemma_round_trip(v: EncRequestFields, rest: Seq<u8>) {
        let f0 = String::wire(v.server_id);
        let f1 = JeVarInt::wire(v.pubkey_len);
        let f2 = v.pubkey;
        let f3 = JeVarInt::wire(v.vtoken_len);
        let f4 = v.vtoken;
        let all = Self::wire(v) + rest;
        let t4 = f4 + rest;
        let t3 = f3 + t4;
        let t2 = f2 + t3;
        let t1 = f1 + t2;
        lemma_regroup(f0 + f1 + f2 + f3, f4, rest);
        lemma_regroup(f0 + f1 + f2, f3, t4);
        lemma_regroup(f0 + f1, f2, t3);
        lemma_regroup(f0, f1, t2);
        lemma_start(all);
        lemma_field::<String>(all, 0, v.server_id, t1, 0);
        let a = f0.len();
        lemma_field::<JeVarInt>(all, a, v.pubkey_len, t2, 1);
        let b = a + f1.len();
        lemma_array_field(all, b, f2, t3, 2);
        let c = b + f2.len();
        lemma_field::<JeVarInt>(all, c, v.vtoken_len, t4, 3);
        let d = c + f3.len();
        lemma_array_field(all, d, f4, rest, 4);
    }

    fn get_packet_id(&self) -> (id: JeVarInt) {
        JeVarInt(0x01)
    }

    fn fits(&self) -> (b: bool) {
        string_fits(self.server_id.as_str()) && self.pubkey_len.0 >= 0
            && self.pubkey_len.0 as usize == self.pubkey.len() && self.vtoken_len.0 >= 0
            && self.vtoken_len.0 as usize == self.vtoken.len()
    }

    fn try_from_raw(be_bytes: &[u8]) -> (r: Result<Self, JePacketError>) {
        let (server_id, a) = match read_field::<String>(be_bytes, 0, 0) {
            Ok(found) => found,
            Err(e) => { return Err(e); },
        };
        let (pubkey_len, b) = match read_field::<JeVarInt>(be_bytes, a, 1) {
            Ok(found) => found,
            Err(e) => { return Err(e); },
        };
        let (pubkey, c) = match read_array_field(be_bytes, b, pubkey_len.0, 2) {
            Ok(found) => found,
            Err(e) => { return Err(e); },
        };
        let (vtoken_len, d) = match read_field::<JeVarInt>(be_bytes, c, 3) {
            Ok(found) => found,
            Err(e) => { return Err(e); },
        };
        let (vtoken, _) = match read_array_field(be_bytes, d, vtoken_len.0, 4) {
            Ok(found) => found,
            Err(e) => { return Err(e); },
        };
        Ok(JeEncRequest { server_id, pubkey_len, pubkey, vtoken_len, vtoken })
    }

    fn to_vec_u8(&self) -> (r: Vec<u8>) {
        let mut result: Vec<u8> = Vec::with_capacity(200);
        write_field(&mut result, &self.server_id);
        write_field(&mut result, &self.pubkey_len);
        write_array_field(&mut result, &self.pubkey);
        write_field(&mut result, &self.vtoken_len);
        write_array_field(&mut result, &self.vtoken);
        assert(result@ =~= Self::wire(self@));
        result
    }
}

/// Server to client: the login is done; the player's identity.
#[derive(Debug, Default, Clone, PartialEq, Eq)]
pub struct JeLoginSuccess {
    pub uuid: String,
    pub username: String,
}

impl View for JeLoginSuccess {
    type V = (Seq<char>, Seq<char>);

    open spec fn view(&self) -> (Seq<char>, Seq<char>) {
        (self.uuid@, self.username@)
    }
}

impl JePacket for JeLoginSuccess {
    open spec fn packet_id() -> i32 {
        0x02
    }

    open spec fn wire_ok(v: (Seq<char>, Seq<char>)) -> bool {
        String::wire_ok(v.0) && String::wire_ok(v.1)
    }

    open spec fn wire(v: (Seq<char>, Seq<char>)) -> Seq<u8> {
        String::wire(v.0) + String::wire(v.1)
    }

    open spec fn parse(bytes: Seq<u8>) -> Result<(Seq<char>, Seq<char>), JePacketError> {
        match field::<String>(bytes, 0, 0) {
            Err(e) => Err(e),
            Ok((uuid, a)) => match field::<String>(bytes, a, 1) {
                Err(e) => Err(e),
                Ok((username, _)) => Ok((uuid, username)),
            },
        }
    }

    proof fn lemma_round_trip(v: (Seq<char>, Seq<char>), rest: Seq<u8>) {
        let f0 = String::wire(v.0);
        let f1 = String::wire(v.1);
        let all = Self::wire(v) + rest;
        lemma_regroup(f0, f1, rest);
        lemma_start(all);
        lemma_field::<String>(all, 0, v.0, f1 + rest, 0);
        lemma_field::<String>(all, f0.len(), v.1, rest, 1);
    }

    fn get_packet_id(&self) -> (id: JeVarInt) {
        JeVarInt(0x02)
    }

    fn fits(&self) -> (b: bool) {
        string_fits(self.uuid.as_str()) && string_fits(self.username.as_str())
    }

    fn try_from_raw(be_bytes: &[u8]) -> (r: Result<Self, JePacketError>) {
        let (uuid, a) = match read_field::<String>(be_bytes, 0, 0) {
            Ok(found) => found,
            Err(e) => { return Err(e); },
        };
        let (username, _) = match read_field::<String>(be_bytes, a, 1) {
            Ok(found) => found,
            Err(e) => { return Err(e); },
        };
        Ok(JeLoginSuccess { uuid, username })
    }

    fn to_vec_u8(&self) -> (r: Vec<u8>) {
        let mut result: Vec<u8> = Vec::with_capacity(200);
        write_field(&mut result, &self.uuid);
        write_field(&mut result, &self.username);
        assert(result@ =~= Self::wire(self@));
        result
    }
}

} // verus!
