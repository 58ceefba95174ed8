//! Sessions: the state a connection is in, and the identity that a login
//! gives it.
//!
//! The login of a player who is to be checked against the account service
//! goes handshake, login start, encryption request, encryption response;
//! only the first three steps are laid down so far. A player who is not
//! checked is let in on login start.

use crate::packets::JePacket;
use crate::types::JeType;
use vstd::prelude::*;

verus! {

/// Where a connection stands in the protocol. It only ever moves forward.
#[derive(Debug, Clone, Copy, PartialEq, Eq, Structural)]
pub enum ConnectionState {
    Handshake,
    Status,
    Login,
    Play,
}

impl ConnectionState {
    /// The place of the state in the protocol's order.
    pub open spec fn rank(self) -> int {
        match self {
            ConnectionState::Handshake => 0,
            ConnectionState::Status => 1,
            ConnectionState::Login => 2,
            ConnectionState::Play => 3,
        }
    }

    /// The number of the state, as the handshake's `next_state` counts.
    pub fn number(self) -> (r: i32)
        ensures
            r == self.rank(),
    {
        match self {
            ConnectionState::Handshake => 0,
            ConnectionState::Status => 1,
            ConnectionState::Login => 2,
            ConnectionState::Play => 3,
        }
    }
}

/// Why a login failed.
#[derive(Debug, Clone, PartialEq, Eq)]
pub enum JeLoginError {
    PacketError,
    /// A failure below the protocol, in the words of whoever reports it.
    Internal(String),
}

/// What an encrypted session keeps of its key exchange.
#[derive(Debug, Clone, Copy, PartialEq, Eq)]
pub struct JeSessionEncrypt {
    pub vtoken: [u8; 4],
}

/// A session: an identity bound to one live connection. `send` names the
/// channel on which the connection takes what is to go out to the client.
#[derive(Debug, Clone, PartialEq, Eq)]
pub struct JeConnection {
    pub state: ConnectionState,
    pub enc: Option<JeSessionEncrypt>,
    pub uuid: u128,
    pub username: String,
    pub addr: String,
    pub send: u64,
    pub online: bool,
}

/// What a session holds.
pub struct SessionFields {
    pub state: ConnectionState,
    pub enc: Option<JeSessionEncrypt>,
    pub uuid: u128,
    pub username: Seq<char>,
    pub addr: Seq<char>,
    pub send: u64,
    pub online: bool,
}

impl DeepView for JeConnection {
    type V = SessionFields;

    open spec fn deep_view(&self) -> SessionFields {
        SessionFields {
            state: self.state,
            enc: self.enc,
            uuid: self.uuid,
            username: self.username@,
            addr: self.addr@,
            send: self.send,
            online: self.online,
        }
    }
}

/// Something for a session's outbound channel: the channel, and the packet
/// to put on it.
#[derive(Debug, Clone, PartialEq, Eq)]
pub struct Outbound {
    pub send: u64,
    pub packet_id: i32,
    pub data: Vec<u8>,
}

/// What an outbound message holds.
pub struct OutboundFields {
    pub send: u64,
    pub packet_id: i32,
    pub data: Seq<u8>,
}

impl DeepView for Outbound {
    type V = OutboundFields;

    open spec fn deep_view(&self) -> OutboundFields {
        OutboundFields { send: self.send, packet_id: self.packet_id, data: self.data@ }
    }
}

impl JeConnection {
    /// What to put on the session's channel to send it `packet`. Sessions
    /// that are encrypted cannot be served yet.
    pub fn send<T: JePacket>(&self, packet: &T) -> (r: Outbound)
        requires
            self.enc is None,
            T::wire_ok(packet@),
        ensures
            r.deep_view() == (OutboundFields {
                send: self.send,
                packet_id: T::packet_id(),
                data: T::wire(packet@),
            }),
    {
        Outbound {
            send: self.send,
            packet_id: packet.get_packet_id().0,
            data: packet.to_vec_u8(),
        }
    }

    /// What to put on the session's channel to send it the payload `data`
    /// under the id `packet_id`. Sessions that are encrypted cannot be
    /// served yet.
    pub fn send_raw(&self, packet_id: i32, data: &[u8]) -> (r: Outbound)
        requires
            self.enc is None,
        ensures
            r.deep_view() == (OutboundFields { send: self.send, packet_id, data: data@ }),
    {
        Outbound { send: self.send, packet_id, data: vstd::slice::slice_to_vec(data) }
    }

    /// A copy of the session.
    pub fn duplicate(&self) -> (r: JeConnection)
        ensures
            r.deep_view() == self.deep_view(),
    {
        JeConnection {
            state: self.state,
            enc: self.enc,
            uuid: self.uuid,
            username: self.username.clone(),
            addr: self.addr.clone(),
            send: self.send,
            online: self.online,
        }
    }
}

/// The string that `data` holds in wire form at its start.
pub fn jestring_to_string(data: &[u8]) -> (r: String)
    requires
        String::parse(data@) is Ok,
    ensures
        String::parse(data@) matches Ok((text, _)) && r@ == text,
{
    match String::try_from_raw(data) {
        Ok((text, _)) => text,
        Err(_) => String::new(),
    }
}

} // verus!
