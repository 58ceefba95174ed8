//! The connection actor: the protocol state machine of one client.
//!
//! The actor owns no socket. Whoever runs it reads frames from the socket
//! and hands them in, and carries out what the actor answers: bytes to
//! write, a name to look up in the user records, a session to register, an
//! event for the simulation loop, the order to shut the socket down.

use crate::auth::{ConnectionState, JeConnection, SessionFields};
use crate::frame::{frame, frame_ok, frame_packet};
use crate::ident::{hyphenated, uuid_to_hyphenated};
use crate::msg::{NetRecvInner, NetRecvMsg, RecvFields, RecvInnerFields};
use crate::packets::{JeChat, JePacket, JePacketHandshake};
use crate::packets_login::{
    EncRequestFields, JeEncRequest, JeLoginDisconnect, JeLoginStart, JeLoginSuccess,
};
use crate::packets_play::{JeJoinGame, JoinGameFields, JePlayDisconnect};
use crate::packets_status::{JeHandshakeResponse, JePacketPing, JePacketPong};
use crate::records::UserRecord;
use crate::status::{decimal, decimal_string, ServerJsonStatus};
use crate::types::JeVarInt;
use vstd::prelude::*;
use vstd::string::StringExecFns;

verus! {

/// What a connection needs to know of the server: how players log in, what
/// to do with a packet that makes no sense, and the key material of the
/// encryption request.
#[derive(Debug, Clone, PartialEq, Eq)]
pub struct JeClientConfig {
    pub online_mode: bool,
    pub kick_invalid_packet: bool,
    pub pubkey: Vec<u8>,
    pub vtoken: Vec<u8>,
}

/// What the user records and the world have to say of a player who logs in.
#[derive(Debug, Clone, PartialEq, Eq)]
pub struct LoginGrant {
    pub user: UserRecord,
    pub join: JeJoinGame,
}

/// What the actor wants done.
#[derive(Debug, Clone, PartialEq, Eq)]
pub enum ClientAction {
    /// Write these bytes, a whole frame, to the socket in one write.
    Write(Vec<u8>),
    /// Look the offline player of this name up in the user records, or make
    /// the record, and hand in what was found.
    LoadUser(String),
    /// Hand the new session to the session registry.
    Register(JeConnection),
    /// Hand the event to the simulation loop.
    Emit(NetRecvMsg),
    /// Shut the socket down and end the task.
    Close,
}

/// An action, as plain values.
pub enum ActionFields {
    Write(Seq<u8>),
    LoadUser(Seq<char>),
    Register(SessionFields),
    Emit(RecvFields),
    Close,
}

impl DeepView for ClientAction {
    type V = ActionFields;

    open spec fn deep_view(&self) -> ActionFields {
        match self {
            ClientAction::Write(bytes) => ActionFields::Write(bytes@),
            ClientAction::LoadUser(name) => ActionFields::LoadUser(name@),
            ClientAction::Register(conn) => ActionFields::Register(conn.deep_view()),
            ClientAction::Emit(msg) => ActionFields::Emit(msg.deep_view()),
            ClientAction::Close => ActionFields::Close,
        }
    }
}

/// The actor of one connection.
#[derive(Debug, Clone, PartialEq, Eq)]
pub struct JeClient {
    pub state: ConnectionState,
    /// The session, once the login is done.
    pub conn: Option<JeConnection>,
    /// Whether the connection is still served.
    pub run: bool,
    /// The peer's address.
    pub addr: String,
    /// The channel on which the actor takes what is to go out.
    pub send: u64,
    /// The name that waits for the user records' answer.
    pub pending: Option<String>,
}

/// What an actor holds.
pub struct ClientFields {
    pub state: ConnectionState,
    pub conn: Option<SessionFields>,
    pub run: bool,
    pub addr: Seq<char>,
    pub send: u64,
    pub pending: Option<Seq<char>>,
}

impl DeepView for JeClient {
    type V = ClientFields;

    open spec fn deep_view(&self) -> ClientFields {
        ClientFields {
            state: self.state,
            conn: match self.conn {
                Some(c) => Some(c.deep_view()),
                None => None,
            },
            run: self.run,
            addr: self.addr@,
            send: self.send,
            pending: match self.pending {
                Some(name) => Some(name@),
                None => None,
            },
        }
    }
}

/// The state an actor is left in, and what it wants done, in order.
pub struct Step {
    pub next: ClientFields,
    pub actions: Seq<ActionFields>,
}

/// Nothing happens.
pub open spec fn stay(c: ClientFields) -> Step {
    Step { next: c, actions: Seq::empty() }
}

/// The answer that carries a packet: its frame; nothing where the packet
/// does not fit the wire.
pub open spec fn packet_reply<P: JePacket>(v: P::V) -> Seq<ActionFields> {
    if P::wire_ok(v) && frame_ok(P::packet_id(), P::wire(v)) {
        seq![ActionFields::Write(frame(P::packet_id(), P::wire(v)))]
    } else {
        Seq::empty()
    }
}

/// The event that tells the simulation loop of a session's end.
pub open spec fn end_of_session(uuid: u128) -> RecvFields {
    RecvFields { uuid, inner: RecvInnerFields::EndSession }
}

/// What ends a connection: word to the simulation loop where there is a
/// session, then the shutdown of the socket.
pub open spec fn closing(c: ClientFields) -> Seq<ActionFields> {
    match c.conn {
        Some(s) => seq![ActionFields::Emit(end_of_session(s.uuid)), ActionFields::Close],
        None => seq![ActionFields::Close],
    }
}

/// The actor when it no longer serves.
pub open spec fn closed(c: ClientFields) -> ClientFields {
    ClientFields { run: false, ..c }
}

/// The connection ends without a word to the client.
pub open spec fn hang_up(c: ClientFields) -> Step {
    Step { next: closed(c), actions: closing(c) }
}

/// `i` in decimal digits, with a minus sign where it is below zero.
pub open spec fn signed_decimal(i: int) -> Seq<char> {
    if i < 0 {
        "-"@ + decimal((-i) as nat)
    } else {
        decimal(i as nat)
    }
}

/// The reason given to a client that is removed for a packet that makes no
/// sense.
pub open spec fn kick_reason(state: ConnectionState, packet_id: i32) -> Seq<char> {
    "Invalid state "@ + decimal(state.rank() as nat) + " and packet id "@ + signed_decimal(
        packet_id as int,
    )
}

/// The reason given to a client whose record cannot be had.
pub open spec fn records_reason() -> Seq<char> {
    "Failed to access user records"@
}

/// The connection ends with a reason: the client is told where its state
/// has a packet for that, then the connection is closed.
pub open spec fn refuse(c: ClientFields, reason: Seq<char>) -> Step {
    let notice = match c.state {
        ConnectionState::Login => packet_reply::<JeLoginDisconnect>(reason),
        ConnectionState::Play => packet_reply::<JePlayDisconnect>(reason),
        _ => Seq::empty(),
    };
    Step { next: closed(c), actions: notice + closing(c) }
}

/// A packet that makes no sense in the actor's state, by its id or by its
/// payload: the client is removed where the server is set to do so, and
/// the packet is dropped where not.
pub open spec fn senseless(c: ClientFields, kick: bool, packet_id: i32) -> Step {
    if kick {
        refuse(c, kick_reason(c.state, packet_id))
    } else {
        stay(c)
    }
}

/// The encryption request of a server with the key `pubkey` and the token
/// `vtoken`.
pub open spec fn enc_request(pubkey: Seq<u8>, vtoken: Seq<u8>) -> EncRequestFields {
    EncRequestFields {
        server_id: Seq::empty(),
        pubkey_len: pubkey.len() as i32,
        pubkey,
        vtoken_len: vtoken.len() as i32,
        vtoken,
    }
}

/// What a frame does to an actor in the handshake state.
pub open spec fn handshake_step(c: ClientFields, kick: bool, packet_id: i32, data: Seq<u8>) -> Step {
    if packet_id != 0 {
        senseless(c, kick, packet_id)
    } else {
        match JePacketHandshake::parse(data) {
            Ok(h) => if h.next_state == 1 {
                Step {
                    next: ClientFields { state: ConnectionState::Status, ..c },
                    actions: Seq::empty(),
                }
            } else if h.next_state == 2 {
                Step {
                    next: ClientFields { state: ConnectionState::Login, ..c },
                    actions: Seq::empty(),
                }
            } else {
                hang_up(c)
            },
            Err(_) => hang_up(c),
        }
    }
}

/// What a frame does to an actor in the status state.
pub open spec fn status_step(
    c: ClientFields,
    kick: bool,
    document: Seq<char>,
    packet_id: i32,
    data: Seq<u8>,
) -> Step {
    if packet_id == 0 {
        Step { next: c, actions: packet_reply::<JeHandshakeResponse>(document) }
    } else if packet_id == 1 {
        match JePacketPing::parse(data) {
            Ok(val) => Step {
                next: closed(c),
                actions: packet_reply::<JePacketPong>(val) + closing(c),
            },
            Err(_) => senseless(c, kick, packet_id),
        }
    } else {
        senseless(c, kick, packet_id)
    }
}

/// What a frame does to an actor in the login state.
pub open spec fn login_step(
    c: ClientFields,
    kick: bool,
    online_mode: bool,
    pubkey: Seq<u8>,
    vtoken: Seq<u8>,
    packet_id: i32,
    data: Seq<u8>,
) -> Step {
    if packet_id != 0 {
        senseless(c, kick, packet_id)
    } else {
        match JeLoginStart::parse(data) {
            Ok(name) => if online_mode {
                Step { next: c, actions: packet_reply::<JeEncRequest>(enc_request(pubkey, vtoken)) }
            } else {
                Step {
                    next: ClientFields { pending: Some(name), ..c },
                    actions: seq![ActionFields::LoadUser(name)],
                }
            },
            Err(_) => senseless(c, kick, packet_id),
        }
    }
}

/// What a frame does to an actor in the play state: it goes to the
/// simulation loop as it is.
pub open spec fn play_step(c: ClientFields, packet_id: i32, data: Seq<u8>) -> Step {
    match c.conn {
        Some(s) => Step {
            next: c,
            actions: seq![
                ActionFields::Emit(
                    RecvFields {
                        uuid: s.uuid,
                        inner: RecvInnerFields::Packet { id: packet_id, data },
                    },
                ),
            ],
        },
        None => stay(c),
    }
}

/// What a frame with the id `packet_id` and the payload `data` does to an
/// actor. An actor that no longer serves does nothing.
pub open spec fn frame_step(
    c: ClientFields,
    kick: bool,
    online_mode: bool,
    pubkey: Seq<u8>,
    vtoken: Seq<u8>,
    document: Seq<char>,
    packet_id: i32,
    data: Seq<u8>,
) -> Step {
    if !c.run {
        stay(c)
    } else {
        match c.state {
            ConnectionState::Handshake => handshake_step(c, kick, packet_id, data),
            ConnectionState::Status => status_step(c, kick, document, packet_id, data),
            ConnectionState::Login => login_step(
                c,
                kick,
                online_mode,
                pubkey,
                vtoken,
                packet_id,
                data,
            ),
            ConnectionState::Play => play_step(c, packet_id, data),
        }
    }
}

/// The session that a login gives an actor.
pub open spec fn new_session(c: ClientFields, uuid: u128, username: Seq<char>) -> SessionFields {
    SessionFields {
        state: ConnectionState::Play,
        enc: None,
        uuid,
        username,
        addr: c.addr,
        send: c.send,
        online: false,
    }
}

/// Whether both packets that answer a login fit the wire.
pub open spec fn grant_fits(uuid: u128, username: Seq<char>, join: JoinGameFields) -> bool {
    &&& JeLoginSuccess::wire_ok((hyphenated(uuid), username))
    &&& frame_ok(
        JeLoginSuccess::packet_id(),
        JeLoginSuccess::wire((hyphenated(uuid), username)),
    )
    &&& JeJoinGame::wire_ok(join)
    &&& frame_ok(JeJoinGame::packet_id(), JeJoinGame::wire(join))
}

/// What the answer of the user records does to an actor that waits for it:
/// with a record and the world's word, the client is told of its login,
/// the session is registered, and the client is told to join the game;
/// without, the client is refused.
pub open spec fn resolve_step(
    c: ClientFields,
    grant: Option<(u128, Seq<char>, JoinGameFields)>,
) -> Step {
    if !c.run || c.state != ConnectionState::Login || c.pending is None {
        stay(c)
    } else {
        let waiting = ClientFields { pending: None, ..c };
        match grant {
            Some((uuid, username, join)) => if grant_fits(uuid, username, join) {
                let session = new_session(c, uuid, c.pending->0);
                Step {
                    next: ClientFields {
                        state: ConnectionState::Play,
                        conn: Some(session),
                        ..waiting
                    },
                    actions: seq![
                        ActionFields::Write(
                            frame(
                                JeLoginSuccess::packet_id(),
                                JeLoginSuccess::wire((hyphenated(uuid), username)),
                            ),
                        ),
                        ActionFields::Register(session),
                        ActionFields::Write(
                            frame(JeJoinGame::packet_id(), JeJoinGame::wire(join)),
                        ),
                    ],
                }
            } else {
                refuse(waiting, records_reason())
            },
            None => refuse(waiting, records_reason()),
        }
    }
}

/// What a packet from the actor's channel does to it: it is written to the
/// client where there is a session without encryption and the packet fits a
/// frame; the packet that removes a player from the game ends the
/// connection as well.
pub open spec fn outbound_step(c: ClientFields, packet_id: i32, data: Seq<u8>) -> Step {
    if !c.run {
        stay(c)
    } else {
        match c.conn {
            Some(s) => if s.enc is Some || !frame_ok(packet_id, data) {
                stay(c)
            } else if packet_id == JePlayDisconnect::packet_id() {
                Step {
                    next: closed(c),
                    actions: seq![ActionFields::Write(frame(packet_id, data))] + closing(c),
                }
            } else {
                Step { next: c, actions: seq![ActionFields::Write(frame(packet_id, data))] }
            },
            None => stay(c),
        }
    }
}

/// What the end of the stream does to an actor.
pub open spec fn peer_closed_step(c: ClientFields) -> Step {
    if !c.run {
        stay(c)
    } else {
        hang_up(c)
    }
}

/// Appends an action.
fn push_action(actions: &mut Vec<ClientAction>, action: ClientAction)
    ensures
        final(actions).deep_view() == old(actions).deep_view() + seq![action.deep_view()],
{
    actions.push(action);
    assert(actions.deep_view() =~= old(actions).deep_view() + seq![action.deep_view()]);
}

/// Appends the frame of a packet, where the packet fits the wire.
fn reply<P: JePacket>(actions: &mut Vec<ClientAction>, packet: &P)
    ensures
        final(actions).deep_view() == old(actions).deep_view() + packet_reply::<P>(packet@),
{
    if packet.fits() {
        let payload: Vec<u8> = packet.to_vec_u8();
        if let Some(bytes) = frame_packet(packet.get_packet_id().0, payload.as_slice()) {
            push_action(actions, ClientAction::Write(bytes));
            return ;
        }
    }
    assert(actions.deep_view() =~= old(actions).deep_view() + Seq::<ActionFields>::empty());
}

/// Writes the reason given for a packet that makes no sense.
fn kick_reason_string(state: ConnectionState, packet_id: i32) -> (r: String)
    ensures
        r@ == kick_reason(state, packet_id),
{
    let mut r: String = String::from_str("Invalid state ");
    r.append(decimal_string(state.number() as u64).as_str());
    r.append(" and packet id ");
    if packet_id < 0 {
        let size: i64 = -(packet_id as i64);
        r.append("-");
        r.append(decimal_string(size as u64).as_str());
        assert(r@ =~= kick_reason(state, packet_id));
    } else {
        r.append(decimal_string(packet_id as u64).as_str());
        assert(r@ =~= kick_reason(state, packet_id));
    }
    r
}

impl JeClient {
    /// The actor of a connection that has just been accepted from `addr`,
    /// with `send` as the channel for what is to go out.
    pub fn new(addr: String, send: u64) -> (r: JeClient)
        ensures
            r.deep_view() == (ClientFields {
                state: ConnectionState::Handshake,
                conn: None,
                run: true,
                addr: addr@,
                send,
                pending: None,
            }),
    {
        JeClient {
            state: ConnectionState::Handshake,
            conn: None,
            run: true,
            addr,
            send,
            pending: None,
        }
    }

    /// Appends what ends the connection, and stops serving.
    fn close(&mut self, actions: &mut Vec<ClientAction>)
        ensures
            final(self).deep_view() == closed(old(self).deep_view()),
            final(actions).deep_view() == old(actions).deep_view() + closing(
                old(self).deep_view(),
            ),
    {
        let ghost before = actions.deep_view();
        match &self.conn {
            Some(c) => {
                push_action(
                    actions,
                    ClientAction::Emit(NetRecvMsg { uuid: c.uuid, inner: NetRecvInner::EndSession }),
                );
            },
            None => {},
        }
        push_action(actions, ClientAction::Close);
        self.run = false;
        assert(actions.deep_view() =~= before + closing(old(self).deep_view()));
    }

    /// Ends the connection with a reason.
    fn refuse(&mut self, actions: &mut Vec<ClientAction>, reason: String)
        requires
            old(actions)@.len() == 0,
        ensures
            final(self).deep_view() == refuse(old(self).deep_view(), reason@).next,
            final(actions).deep_view() == refuse(old(self).deep_view(), reason@).actions,
    {
        match self.state {
            ConnectionState::Login => {
                reply(actions, &JeLoginDisconnect { reason: JeChat(reason) });
            },
            ConnectionState::Play => {
                reply(actions, &JePlayDisconnect { reason: JeChat(reason) });
            },
            _ => {},
        }
        let ghost notice = actions.deep_view();
        assert(notice =~= refuse(old(self).deep_view(), reason@).actions.take(
            notice.len() as int,
        ));
        self.close(actions);
        assert(actions.deep_view() =~= refuse(old(self).deep_view(), reason@).actions);
    }

    /// Deals with a packet that makes no sense in the actor's state.
    fn senseless(&mut self, actions: &mut Vec<ClientAction>, kick: bool, packet_id: i32)
        requires
            old(actions)@.len() == 0,
        ensures
            final(self).deep_view() == senseless(old(self).deep_view(), kick, packet_id).next,
            final(actions).deep_view() == senseless(
                old(self).deep_view(),
                kick,
                packet_id,
            ).actions,
    {
        if kick {
            let reason: String = kick_reason_string(self.state, packet_id);
            self.refuse(actions, reason);
        } else {
            assert(actions.deep_view() =~= Seq::<ActionFields>::empty());
        }
    }

    /// Takes a frame from the client.
    ///
    /// In the handshake state the handshake packet says where to go on:
    /// to the status state or to the login state; anything else in it, or a
    /// payload that is no handshake, ends the connection. In the status
    /// state a status request is answered with the status document, and a
    /// ping with its pong, which ends the connection. In the login state a
    /// login start is answered with an encryption request where players are
    /// checked, and with a question to the user records where not. In the
    /// play state the frame goes to the simulation loop. Whatever else
    /// comes is dropped, or has the client removed where the server is set
    /// to do so.
    pub fn on_frame(
        &mut self,
        cfg: &JeClientConfig,
        status: &ServerJsonStatus,
        packet_id: i32,
        data: &[u8],
    ) -> (actions: Vec<ClientAction>)
        ensures
            final(self).deep_view() == frame_step(
                old(self).deep_view(),
                cfg.kick_invalid_packet,
                cfg.online_mode,
                cfg.pubkey@,
                cfg.vtoken@,
                status.document(),
                packet_id,
                data@,
            ).next,
            actions.deep_view() == frame_step(
                old(self).deep_view(),
                cfg.kick_invalid_packet,
                cfg.online_mode,
                cfg.pubkey@,
                cfg.vtoken@,
                status.document(),
                packet_id,
                data@,
            ).actions,
    {
        let mut actions: Vec<ClientAction> = Vec::new();
        assert(actions.deep_view() =~= Seq::<ActionFields>::empty());
        if !self.run {
            return actions;
        }
        match self.state {
            ConnectionState::Handshake => {
                if packet_id != 0 {
                    self.senseless(&mut actions, cfg.kick_invalid_packet, packet_id);
                } else {
                    match JePacketHandshake::try_from_raw(data) {
                        Ok(pk_handshake) => {
                            if pk_handshake.next_state.0 == 1 {
                                self.state = ConnectionState::Status;
                            } else if pk_handshake.next_state.0 == 2 {
                                self.state = ConnectionState::Login;
                            } else {
                                self.close(&mut actions);
                            }
                        },
                        Err(_) => {
                            self.close(&mut actions);
                        },
                    }
                }
            },
            ConnectionState::Status => {
                if packet_id == 0 {
                    reply(&mut actions, &JeHandshakeResponse { json: status.to_json() });
                } else if packet_id == 1 {
                    match JePacketPing::try_from_raw(data) {
                        Ok(ping) => {
                            reply(&mut actions, &JePacketPong { val: ping.val });
                            self.close(&mut actions);
                        },
                        Err(_) => {
                            self.senseless(&mut actions, cfg.kick_invalid_packet, packet_id);
                        },
                    }
                } else {
                    self.senseless(&mut actions, cfg.kick_invalid_packet, packet_id);
                }
            },
            ConnectionState::Login => {
                if packet_id != 0 {
                    self.senseless(&mut actions, cfg.kick_invalid_packet, packet_id);
                } else {
                    match JeLoginStart::try_from_raw(data) {
                        Ok(pk_login_start) => {
                            if cfg.online_mode {
                                let request = JeEncRequest {
                                    server_id: String::new(),
                                    pubkey_len: JeVarInt(cfg.pubkey.len() as i32),
                                    pubkey: cfg.pubkey.clone(),
                                    vtoken_len: JeVarInt(cfg.vtoken.len() as i32),
                                    vtoken: cfg.vtoken.clone(),
                                };
                                assert(request@.pubkey =~= cfg.pubkey@);
                                assert(request@.vtoken =~= cfg.vtoken@);
                                assert(request@.server_id =~= Seq::<char>::empty());
                                assert(request@ == enc_request(cfg.pubkey@, cfg.vtoken@));
                                reply(&mut actions, &request);
                            } else {
                                let name: String = pk_login_start.name;
                                push_action(&mut actions, ClientAction::LoadUser(name.clone()));
                                self.pending = Some(name);
                            }
                        },
                        Err(_) => {
                            self.senseless(&mut actions, cfg.kick_invalid_packet, packet_id);
                        },
                    }
                }
            },
            ConnectionState::Play => {
                match &self.conn {
                    Some(c) => {
                        push_action(
                            &mut actions,
                            ClientAction::Emit(
                                NetRecvMsg {
                                    uuid: c.uuid,
                                    inner: NetRecvInner::Packet {
                                        id: packet_id,
                                        data: vstd::slice::slice_to_vec(data),
                                    },
                                },
                            ),
                        );
                    },
                    None => {},
                }
            },
        }
        actions
    }

    /// Takes the answer of the user records to the question that the login
    /// start of an unchecked player raised: the record and the world's
    /// join-game packet, or nothing where the record cannot be had.
    pub fn on_login_resolved(&mut self, grant: Option<LoginGrant>) -> (actions: Vec<ClientAction>)
        ensures
            final(self).deep_view() == resolve_step(
                old(self).deep_view(),
                match grant {
                    Some(g) => Some((g.user.session_uuid(), g.user.username@, g.join@)),
                    None => None,
                },
            ).next,
            actions.deep_view() == resolve_step(
                old(self).deep_view(),
                match grant {
                    Some(g) => Some((g.user.session_uuid(), g.user.username@, g.join@)),
                    None => None,
                },
            ).actions,
    {
        let mut actions: Vec<ClientAction> = Vec::new();
        assert(actions.deep_view() =~= Seq::<ActionFields>::empty());
        if !self.run || self.state != ConnectionState::Login {
            return actions;
        }
        let name: String = match self.pending.take() {
            Some(name) => name,
            None => { return actions; },
        };
        if let Some(g) = grant {
            let uuid: u128 = g.user.session_uuid();
            let success = JeLoginSuccess {
                uuid: uuid_to_hyphenated(uuid),
                username: g.user.username.clone(),
            };
            if success.fits() && g.join.fits() {
                let success_frame = frame_packet(0x02, success.to_vec_u8().as_slice());
                let join_frame = frame_packet(0x26, g.join.to_vec_u8().as_slice());
                if let (Some(first), Some(second)) = (success_frame, join_frame) {
                    let new_conn = JeConnection {
                        state: ConnectionState::Play,
                        enc: None,
                        uuid,
                        addr: self.addr.clone(),
                        username: name,
                        send: self.send,
                        online: false,
                    };
                    push_action(&mut actions, ClientAction::Write(first));
                    push_action(&mut actions, ClientAction::Register(new_conn.duplicate()));
                    push_action(&mut actions, ClientAction::Write(second));
                    self.state = ConnectionState::Play;
                    self.conn = Some(new_conn);
                    return actions;
                }
            }
        }
        self.refuse(&mut actions, String::from_str("Failed to access user records"));
        actions
    }

    /// Takes a packet from the actor's channel: something that the server
    /// wants the client to have.
    pub fn on_outbound(&mut self, packet_id: i32, data: &[u8]) -> (actions: Vec<ClientAction>)
        ensures
            final(self).deep_view() == outbound_step(old(self).deep_view(), packet_id, data@).next,
            actions.deep_view() == outbound_step(old(self).deep_view(), packet_id, data@).actions,
    {
        let mut actions: Vec<ClientAction> = Vec::new();
        assert(actions.deep_view() =~= Seq::<ActionFields>::empty());
        if !self.run {
            return actions;
        }
        let served: bool = match &self.conn {
            Some(c) => c.enc.is_none(),
            None => false,
        };
        if served {
            if let Some(bytes) = frame_packet(packet_id, data) {
                push_action(&mut actions, ClientAction::Write(bytes));
                if packet_id == 0x1b {
                    self.close(&mut actions);
                }
            }
        }
        actions
    }

    /// Takes the news that the client has closed its side, or that the
    /// stream has failed.
    pub fn on_peer_closed(&mut self) -> (actions: Vec<ClientAction>)
        ensures
            final(self).deep_view() == peer_closed_step(old(self).deep_view()).next,
            actions.deep_view() == peer_closed_step(old(self).deep_view()).actions,
    {
        let mut actions: Vec<ClientAction> = Vec::new();
        assert(actions.deep_view() =~= Seq::<ActionFields>::empty());
        if self.run {
            self.close(&mut actions);
        }
        actions
    }
}

/// An actor that no longer serves stays as it is and wants nothing done,
/// whatever comes.
pub proof fn lemma_closed_is_final(
    c: ClientFields,
    kick: bool,
    online_mode: bool,
    pubkey: Seq<u8>,
    vtoken: Seq<u8>,
    document: Seq<char>,
    packet_id: i32,
    data: Seq<u8>,
    grant: Option<(u128, Seq<char>, JoinGameFields)>,
)
    requires
        !c.run,
    ensures
        frame_step(c, kick, online_mode, pubkey, vtoken, document, packet_id, data) == stay(c),
        resolve_step(c, grant) == stay(c),
        outbound_step(c, packet_id, data) == stay(c),
        peer_closed_step(c) == stay(c),
{
}

/// Whatever comes, an actor never goes back in the protocol, and an actor
/// that has stopped serving never serves again.
pub proof fn lemma_state_moves_forward(
    c: ClientFields,
    kick: bool,
    online_mode: bool,
    pubkey: Seq<u8>,
    vtoken: Seq<u8>,
    document: Seq<char>,
    packet_id: i32,
    data: Seq<u8>,
    grant: Option<(u128, Seq<char>, JoinGameFields)>,
)
    ensures
        ({
            let next = frame_step(
                c,
                kick,
                online_mode,
                pubkey,
                vtoken,
                document,
                packet_id,
                data,
            ).next;
            next.state.rank() >= c.state.rank() && (next.run ==> c.run)
        }),
        ({
            let next = resolve_step(c, grant).next;
            next.state.rank() >= c.state.rank() && (next.run ==> c.run)
        }),
        ({
            let next = outbound_step(c, packet_id, data).next;
            next.state.rank() >= c.state.rank() && (next.run ==> c.run)
        }),
        ({
            let next = peer_closed_step(c).next;
            next.state.rank() >= c.state.rank() && (next.run ==> c.run)
        }),
{
}

/// A handshake that names a next state other than status and login ends
/// the connection, and no frame that follows is looked at.
pub proof fn lemma_bad_next_state_ends(
    c: ClientFields,
    kick: bool,
    online_mode: bool,
    pubkey: Seq<u8>,
    vtoken: Seq<u8>,
    document: Seq<char>,
    data: Seq<u8>,
    later_id: i32,
    later: Seq<u8>,
)
    requires
        c.run,
        c.state == ConnectionState::Handshake,
        JePacketHandshake::parse(data) matches Ok(h) && h.next_state != 1 && h.next_state != 2,
    ensures
        ({
            let first = frame_step(c, kick, online_mode, pubkey, vtoken, document, 0, data);
            &&& first == hang_up(c)
            &&& !first.next.run
            &&& first.actions.last() == ActionFields::Close
            &&& frame_step(
                first.next,
                kick,
                online_mode,
                pubkey,
                vtoken,
                document,
                later_id,
                later,
            ) == stay(first.next)
        }),
{
}

/// A ping in the status state is answered with a pong that carries the
/// number of the ping, and the connection ends.
pub proof fn lemma_ping_pong(
    c: ClientFields,
    kick: bool,
    online_mode: bool,
    pubkey: Seq<u8>,
    vtoken: Seq<u8>,
    document: Seq<char>,
    val: i64,
)
    requires
        c.run,
        c.state == ConnectionState::Status,
    ensures
        ({
            let step = frame_step(
                c,
                kick,
                online_mode,
                pubkey,
                vtoken,
                document,
                1,
                JePacketPing::wire(val),
            );
            &&& step.next == closed(c)
            &&& step.actions == seq![
                ActionFields::Write(frame(JePacketPong::packet_id(), JePacketPong::wire(val))),
            ] + closing(c)
        }),
{
    JePacketPing::lemma_round_trip(val, Seq::empty());
    assert(JePacketPing::wire(val) + Seq::<u8>::empty() =~= JePacketPing::wire(val));
    crate::varint::lemma_varint_round_trip(1, JePacketPong::wire(val));
}

/// The login of a player who is not checked: the login start raises the
/// question to the user records, and the answer to it gives the client the
/// word of its login, the registry one session under the UUID of the
/// record, and the client the join-game packet, in this order.
pub proof fn lemma_offline_login(
    c: ClientFields,
    kick: bool,
    pubkey: Seq<u8>,
    vtoken: Seq<u8>,
    document: Seq<char>,
    name: Seq<char>,
    uuid: u128,
    username: Seq<char>,
    join: JoinGameFields,
)
    requires
        c.run,
        c.state == ConnectionState::Login,
        JeLoginStart::wire_ok(name),
        grant_fits(uuid, username, join),
    ensures
        ({
            let asked = frame_step(
                c,
                kick,
                false,
                pubkey,
                vtoken,
                document,
                0,
                JeLoginStart::wire(name),
            );
            let answered = resolve_step(asked.next, Some((uuid, username, join)));
            &&& asked.actions == seq![ActionFields::LoadUser(name)]
            &&& asked.next == ClientFields { pending: Some(name), ..c }
            &&& answered.next.state == ConnectionState::Play
            &&& answered.next.conn == Some(new_session(c, uuid, name))
            &&& answered.actions == seq![
                ActionFields::Write(
                    frame(
                        JeLoginSuccess::packet_id(),
                        JeLoginSuccess::wire((hyphenated(uuid), username)),
                    ),
                ),
                ActionFields::Register(new_session(c, uuid, name)),
                ActionFields::Write(frame(JeJoinGame::packet_id(), JeJoinGame::wire(join))),
            ]
        }),
{
    JeLoginStart::lemma_round_trip(name, Seq::empty());
    assert(JeLoginStart::wire(name) + Seq::<u8>::empty() =~= JeLoginStart::wire(name));
}

} // verus!
