//! What travels between the network side and the simulation loop: commands
//! one way, events the other.

use crate::packets::JePacket;
use vstd::prelude::*;

verus! {

/// A command from the simulation loop to the network side.
#[derive(Debug, Clone, PartialEq, Eq)]
pub enum NetSendMsg {
    /// A packet for every session.
    All(i32, Vec<u8>),
    /// A packet for the sessions named.
    Broadcast(Vec<u128>, i32, Vec<u8>),
    /// A packet for one session.
    Single(u128, i32, Vec<u8>),
    /// The session is to end, for the reason given.
    Disconnect(u128, String),
    /// The player is to stay out for so many seconds.
    DefiniteTimeout(u128, u64, String),
    /// The player is to stay out until told otherwise.
    IndefiniteTimeout(u128, String),
    UnsetTimeout(u128),
}

/// What has happened to a session.
#[derive(Debug, Clone, PartialEq, Eq)]
pub enum NetRecvInner {
    NewSession { username: String, online: bool },
    EndSession,
    Packet { id: i32, data: Vec<u8> },
}

/// An event from the network side to the simulation loop.
#[derive(Debug, Clone, PartialEq, Eq)]
pub struct NetRecvMsg {
    pub uuid: u128,
    pub inner: NetRecvInner,
}

/// What a command holds.
pub enum SendFields {
    All(i32, Seq<u8>),
    Broadcast(Seq<u128>, i32, Seq<u8>),
    Single(u128, i32, Seq<u8>),
    Disconnect(u128, Seq<char>),
    DefiniteTimeout(u128, u64, Seq<char>),
    IndefiniteTimeout(u128, Seq<char>),
    UnsetTimeout(u128),
}

impl DeepView for NetSendMsg {
    type V = SendFields;

    open spec fn deep_view(&self) -> SendFields {
        match self {
            NetSendMsg::All(id, data) => SendFields::All(*id, data@),
            NetSendMsg::Broadcast(to, id, data) => SendFields::Broadcast(to@, *id, data@),
            NetSendMsg::Single(to, id, data) => SendFields::Single(*to, *id, data@),
            NetSendMsg::Disconnect(to, reason) => SendFields::Disconnect(*to, reason@),
            NetSendMsg::DefiniteTimeout(to, secs, reason) => SendFields::DefiniteTimeout(
                *to,
                *secs,
                reason@,
            ),
            NetSendMsg::IndefiniteTimeout(to, reason) => SendFields::IndefiniteTimeout(
                *to,
                reason@,
            ),
            NetSendMsg::UnsetTimeout(to) => SendFields::UnsetTimeout(*to),
        }
    }
}

/// What has happened to a session, as plain values.
pub enum RecvInnerFields {
    NewSession { username: Seq<char>, online: bool },
    EndSession,
    Packet { id: i32, data: Seq<u8> },
}

impl DeepView for NetRecvInner {
    type V = RecvInnerFields;

    open spec fn deep_view(&self) -> RecvInnerFields {
        match self {
            NetRecvInner::NewSession { username, online } => RecvInnerFields::NewSession {
                username: username@,
                online: *online,
            },
            NetRecvInner::EndSession => RecvInnerFields::EndSession,
            NetRecvInner::Packet { id, data } => RecvInnerFields::Packet { id: *id, data: data@ },
        }
    }
}

/// What an event holds.
pub struct RecvFields {
    pub uuid: u128,
    pub inner: RecvInnerFields,
}

impl DeepView for NetRecvMsg {
    type V = RecvFields;

    open spec fn deep_view(&self) -> RecvFields {
        RecvFields { uuid: self.uuid, inner: self.inner.deep_view() }
    }
}

impl NetSendMsg {
    /// The command that sends the packet `packet_id` with the payload
    /// `data` to every session.
    pub fn all(packet_id: i32, data: &[u8]) -> (r: NetSendMsg)
        ensures
            r matches NetSendMsg::All(id, bytes) && id == packet_id && bytes@ == data@,
    {
        NetSendMsg::All(packet_id, vstd::slice::slice_to_vec(data))
    }

    /// The command that sends `packet` to the sessions `to`.
    pub fn broadcast<T: JePacket>(to: &[u128], packet: &T) -> (r: NetSendMsg)
        requires
            T::wire_ok(packet@),
        ensures
            r matches NetSendMsg::Broadcast(targets, id, bytes) && targets@ == to@
                && id == T::packet_id() && bytes@ == T::wire(packet@),
    {
        NetSendMsg::Broadcast(
            vstd::slice::slice_to_vec(to),
            packet.get_packet_id().0,
            packet.to_vec_u8(),
        )
    }

    /// The command that sends `packet` to the session `to`.
    pub fn single<T: JePacket>(to: u128, packet: &T) -> (r: NetSendMsg)
        requires
            T::wire_ok(packet@),
        ensures
            r matches NetSendMsg::Single(target, id, bytes) && target == to
                && id == T::packet_id() && bytes@ == T::wire(packet@),
    {
        NetSendMsg::Single(to, packet.get_packet_id().0, packet.to_vec_u8())
    }

    /// The command that ends the session `to` with the reason `msg`.
    pub fn disconnect(to: u128, msg: &str) -> (r: NetSendMsg)
        ensures
            r matches NetSendMsg::Disconnect(target, reason) && target == to && reason@ == msg@,
    {
        NetSendMsg::Disconnect(to, msg.to_owned())
    }

    /// The command that keeps `player` out: for `duration` seconds, or,
    /// where none is given, until told otherwise.
    pub fn timeout(player: u128, duration: Option<u64>, msg: &str) -> (r: NetSendMsg)
        ensures
            match duration {
                Some(dur) => r matches NetSendMsg::DefiniteTimeout(target, secs, reason)
                    && target == player && secs == dur && reason@ == msg@,
                None => r matches NetSendMsg::IndefiniteTimeout(target, reason)
                    && target == player && reason@ == msg@,
            },
    {
        if let Some(dur) = duration {
            NetSendMsg::DefiniteTimeout(player, dur, msg.to_owned())
        } else {
            NetSendMsg::IndefiniteTimeout(player, msg.to_owned())
        }
    }
}

} // verus!
