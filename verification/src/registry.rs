//! The session registry: the one owner of the map from a player's UUID to
//! the player's session.
//!
//! The registry decides and does not send. It takes a session that has just
//! logged in and answers with the event for the simulation loop; it takes a
//! command of the simulation loop and answers with what is to be put on
//! which session's channel. A command for a UUID that has no session is
//! answered with a note of that, and changes nothing.

use crate::auth::{JeConnection, OutboundFields, Outbound, SessionFields};
use crate::msg::{NetRecvInner, NetRecvMsg, NetSendMsg, RecvFields, RecvInnerFields, SendFields};
use crate::packets::{JeChat, JePacket};
use crate::packets_play::JePlayDisconnect;
use vstd::prelude::*;

verus! {

/// `hashbrown`'s hash map. Nothing is known of what is inside one but what
/// the functions that work on it say.
#[verifier::external_type_specification]
#[verifier::external_body]
#[verifier::reject_recursive_types(K)]
#[verifier::reject_recursive_types(V)]
#[verifier::reject_recursive_types(S)]
pub struct ExHashMap<K, V, S>(hashbrown::HashMap<K, V, S>);

/// The hasher that a `hashbrown` map has where none is chosen.
#[verifier::external_type_specification]
#[verifier::external_body]
pub struct ExDefaultHashBuilder(hashbrown::hash_map::DefaultHashBuilder);

/// The sessions that a map holds, each under its UUID.
pub uninterp spec fn sessions_in(map: hashbrown::HashMap<u128, JeConnection>) -> Map<
    u128,
    JeConnection,
>;

/// No session at all.
pub open spec fn no_sessions() -> Map<u128, JeConnection> {
    Map::empty()
}

/// `HashMap::new`: a map that holds nothing.
#[verifier::external_body]
fn map_new() -> (table: hashbrown::HashMap<u128, JeConnection>)
    ensures
        sessions_in(table) == no_sessions(),
{
    hashbrown::HashMap::new()
}

/// `HashMap::insert`: the map holds `conn` under `uuid`, in place of what it
/// held there, and everything else as before.
#[verifier::external_body]
fn map_insert(map: &mut hashbrown::HashMap<u128, JeConnection>, uuid: u128, conn: JeConnection)
    ensures
        sessions_in(*final(map)) == sessions_in(*old(map)).insert(uuid, conn),
{
    map.insert(uuid, conn);
}

/// `HashMap::get`: what the map holds under `uuid`, if anything.
#[verifier::external_body]
fn map_get(map: &hashbrown::HashMap<u128, JeConnection>, uuid: u128) -> (found: Option<
    &JeConnection,
>)
    ensures
        found is Some <==> sessions_in(*map).dom().contains(uuid),
        found matches Some(conn) ==> *conn == sessions_in(*map)[uuid],
{
    map.get(&uuid)
}

/// `HashMap::remove`: the map holds nothing under `uuid` and everything else
/// as before; what it held under `uuid`, if anything, is handed out.
#[verifier::external_body]
fn map_remove(map: &mut hashbrown::HashMap<u128, JeConnection>, uuid: u128) -> (prev: Option<
    JeConnection,
>)
    ensures
        sessions_in(*final(map)) == sessions_in(*old(map)).remove(uuid),
        prev is Some <==> sessions_in(*old(map)).dom().contains(uuid),
        prev matches Some(conn) ==> conn == sessions_in(*old(map))[uuid],
{
    map.remove(&uuid)
}

/// `HashMap::keys`, collected: every UUID under which the map holds
/// something, each once, in no order that could be told beforehand.
#[verifier::external_body]
fn map_keys(map: &hashbrown::HashMap<u128, JeConnection>) -> (keys: Vec<u128>)
    ensures
        keys@.no_duplicates(),
        keys@.to_set() == sessions_in(*map).dom(),
{
    map.keys().copied().collect()
}

/// What the registry wants done.
#[derive(Debug, Clone, PartialEq, Eq)]
pub enum RegistryAction {
    /// Put the packet on the session's channel.
    Deliver(Outbound),
    /// The UUID has no session: a mistake to note, and nothing else.
    UnknownTarget(u128),
    /// The session is encrypted, and such sessions cannot be served yet.
    Unserved(u128),
    /// Keep the player out: for so many seconds, or until told otherwise.
    SetTimeout(u128, Option<u64>, String),
    /// Let the player in again.
    UnsetTimeout(u128),
}

/// An action of the registry, as plain values.
pub enum RegistryActionFields {
    Deliver(OutboundFields),
    UnknownTarget(u128),
    Unserved(u128),
    SetTimeout(u128, Option<u64>, Seq<char>),
    UnsetTimeout(u128),
}

impl DeepView for RegistryAction {
    type V = RegistryActionFields;

    open spec fn deep_view(&self) -> RegistryActionFields {
        match self {
            RegistryAction::Deliver(out) => RegistryActionFields::Deliver(out.deep_view()),
            RegistryAction::UnknownTarget(uuid) => RegistryActionFields::UnknownTarget(*uuid),
            RegistryAction::Unserved(uuid) => RegistryActionFields::Unserved(*uuid),
            RegistryAction::SetTimeout(uuid, secs, reason) => RegistryActionFields::SetTimeout(
                *uuid,
                *secs,
                reason@,
            ),
            RegistryAction::UnsetTimeout(uuid) => RegistryActionFields::UnsetTimeout(*uuid),
        }
    }
}

/// What sending a packet to a session comes to.
pub open spec fn deliver_to(s: SessionFields, packet_id: i32, data: Seq<u8>) -> RegistryActionFields {
    if s.enc is None {
        RegistryActionFields::Deliver(OutboundFields { send: s.send, packet_id, data })
    } else {
        RegistryActionFields::Unserved(s.uuid)
    }
}

/// What sending a packet to a UUID comes to.
pub open spec fn route(
    sessions: Map<u128, SessionFields>,
    uuid: u128,
    packet_id: i32,
    data: Seq<u8>,
) -> RegistryActionFields {
    if sessions.dom().contains(uuid) {
        deliver_to(sessions[uuid], packet_id, data)
    } else {
        RegistryActionFields::UnknownTarget(uuid)
    }
}

/// What sending a packet to each of the UUIDs `to`, in turn, comes to.
pub open spec fn routes(
    sessions: Map<u128, SessionFields>,
    to: Seq<u128>,
    packet_id: i32,
    data: Seq<u8>,
) -> Seq<RegistryActionFields> {
    Seq::new(to.len(), |j: int| route(sessions, to[j], packet_id, data))
}

/// What a command that names one player comes to where the player has a
/// session `s`; `None` where the command is for all or for several.
pub open spec fn aimed(s: SessionFields, cmd: SendFields) -> Option<Seq<RegistryActionFields>> {
    match cmd {
        SendFields::Single(_, packet_id, data) => Some(seq![deliver_to(s, packet_id, data)]),
        SendFields::Disconnect(_, reason) => Some(
            if JePlayDisconnect::wire_ok(reason) {
                seq![deliver_to(s, JePlayDisconnect::packet_id(), JePlayDisconnect::wire(reason))]
            } else {
                Seq::empty()
            },
        ),
        SendFields::DefiniteTimeout(uuid, secs, reason) => Some(
            seq![RegistryActionFields::SetTimeout(uuid, Some(secs), reason)],
        ),
        SendFields::IndefiniteTimeout(uuid, reason) => Some(
            seq![RegistryActionFields::SetTimeout(uuid, None, reason)],
        ),
        SendFields::UnsetTimeout(uuid) => Some(seq![RegistryActionFields::UnsetTimeout(uuid)]),
        _ => None,
    }
}

/// The player that a command names, if it names one.
pub open spec fn target(cmd: SendFields) -> Option<u128> {
    match cmd {
        SendFields::Single(uuid, _, _) => Some(uuid),
        SendFields::Disconnect(uuid, _) => Some(uuid),
        SendFields::DefiniteTimeout(uuid, _, _) => Some(uuid),
        SendFields::IndefiniteTimeout(uuid, _) => Some(uuid),
        SendFields::UnsetTimeout(uuid) => Some(uuid),
        _ => None,
    }
}

/// The sessions that are left when a command has been carried out: all of
/// them, but for the session that a disconnect names.
pub open spec fn sessions_after(
    sessions: Map<u128, SessionFields>,
    cmd: SendFields,
) -> Map<u128, SessionFields> {
    match cmd {
        SendFields::Disconnect(uuid, _) => sessions.remove(uuid),
        _ => sessions,
    }
}

/// Whether `actions` is what the command `cmd` comes to on the sessions
/// `sessions`.
///
/// A command for one player who has no session comes to a note of that. A
/// command for several players comes to one action for each of them, in
/// the order of the command. A command for all comes to one action for
/// each session, in some order.
pub open spec fn carried_out(
    sessions: Map<u128, SessionFields>,
    cmd: SendFields,
    actions: Seq<RegistryActionFields>,
) -> bool {
    match cmd {
        SendFields::All(packet_id, data) => exists|order: Seq<u128>|
            #![auto]
            order.no_duplicates() && order.to_set() == sessions.dom() && actions == routes(
                sessions,
                order,
                packet_id,
                data,
            ),
        SendFields::Broadcast(to, packet_id, data) => actions == routes(
            sessions,
            to,
            packet_id,
            data,
        ),
        _ => {
            let uuid = target(cmd)->0;
            if sessions.dom().contains(uuid) {
                Some(actions) == aimed(sessions[uuid], cmd)
            } else {
                actions == seq![RegistryActionFields::UnknownTarget(uuid)]
            }
        },
    }
}

/// The event that tells the simulation loop of a new session.
pub open spec fn new_session_event(s: SessionFields) -> RecvFields {
    RecvFields {
        uuid: s.uuid,
        inner: RecvInnerFields::NewSession { username: s.username, online: s.online },
    }
}

/// The session registry.
pub struct SessionRegistry {
    map_uuid_conn: hashbrown::HashMap<u128, JeConnection>,
    async_net_active: bool,
}

impl SessionRegistry {
    /// The sessions that the registry holds, each under its UUID.
    pub closed spec fn sessions(&self) -> Map<u128, SessionFields> {
        Map::new(
            |uuid: u128| sessions_in(self.map_uuid_conn).dom().contains(uuid),
            |uuid: u128| sessions_in(self.map_uuid_conn)[uuid].deep_view(),
        )
    }

    /// Whether the registry still serves.
    pub closed spec fn active(&self) -> bool {
        self.async_net_active
    }

    /// A registry without sessions, which serves.
    pub fn new() -> (r: SessionRegistry)
        ensures
            r.sessions() == Map::<u128, SessionFields>::empty(),
            r.active(),
    {
        let r = SessionRegistry { map_uuid_conn: map_new(), async_net_active: true };
        assert(r.sessions() =~= Map::<u128, SessionFields>::empty());
        r
    }

    /// Whether the registry still serves.
    pub fn is_active(&self) -> (b: bool)
        ensures
            b == self.active(),
    {
        self.async_net_active
    }

    /// The session of `uuid`, if there is one.
    pub fn get(&self, uuid: u128) -> (found: Option<&JeConnection>)
        ensures
            found is Some <==> self.sessions().dom().contains(uuid),
            found matches Some(conn) ==> conn.deep_view() == self.sessions()[uuid],
    {
        map_get(&self.map_uuid_conn, uuid)
    }

    /// The UUIDs that have a session, each once.
    pub fn uuids(&self) -> (keys: Vec<u128>)
        ensures
            keys@.no_duplicates(),
            keys@.to_set() == self.sessions().dom(),
    {
        let keys = map_keys(&self.map_uuid_conn);
        assert(self.sessions().dom() =~= sessions_in(self.map_uuid_conn).dom());
        keys
    }

    /// Takes a session that has just logged in: it is held under its UUID,
    /// in place of a session that was held there, and the simulation loop
    /// is to hear of it.
    pub fn register(&mut self, new_conn: JeConnection) -> (event: NetRecvMsg)
        ensures
            final(self).sessions() == old(self).sessions().insert(
                new_conn.uuid,
                new_conn.deep_view(),
            ),
            final(self).active() == old(self).active(),
            event.deep_view() == new_session_event(new_conn.deep_view()),
    {
        let event = NetRecvMsg {
            uuid: new_conn.uuid,
            inner: NetRecvInner::NewSession {
                username: new_conn.username.clone(),
                online: new_conn.online,
            },
        };
        let uuid: u128 = new_conn.uuid;
        map_insert(&mut self.map_uuid_conn, uuid, new_conn);
        assert(self.sessions() =~= old(self).sessions().insert(uuid, new_conn.deep_view()));
        event
    }

    /// What sending a packet to the session of `uuid` comes to.
    fn route(&self, uuid: u128, packet_id: i32, data: &[u8]) -> (action: RegistryAction)
        ensures
            action.deep_view() == route(self.sessions(), uuid, packet_id, data@),
    {
        match map_get(&self.map_uuid_conn, uuid) {
            Some(conn) => {
                if conn.enc.is_none() {
                    RegistryAction::Deliver(conn.send_raw(packet_id, data))
                } else {
                    RegistryAction::Unserved(conn.uuid)
                }
            },
            None => RegistryAction::UnknownTarget(uuid),
        }
    }

    /// What sending a packet to each of the UUIDs `to`, in turn, comes to.
    fn routes(&self, to: &[u128], packet_id: i32, data: &[u8]) -> (actions: Vec<RegistryAction>)
        ensures
            actions.deep_view() == routes(self.sessions(), to@, packet_id, data@),
    {
        let mut actions: Vec<RegistryAction> = Vec::new();
        let mut i: usize = 0;
        while i < to.len()
            invariant
                i <= to@.len(),
                actions@.len() == i,
                forall|j: int|
                    0 <= j < i ==> (#[trigger] actions@[j]).deep_view() == route(
                        self.sessions(),
                        to@[j],
                        packet_id,
                        data@,
                    ),
            decreases to@.len() - i,
        {
            let action = self.route(to[i], packet_id, data);
            actions.push(action);
            i = i + 1;
        }
        assert(actions.deep_view() =~= routes(self.sessions(), to@, packet_id, data@));
        actions
    }

    /// Takes a command of the simulation loop.
    ///
    /// A packet for one session is put on its channel; a packet for all, on
    /// the channel of every session; a packet for several, on the channel
    /// of each that is named. A disconnect puts the packet that removes the
    /// player on the session's channel and drops the session. A timeout is
    /// handed on. Whatever names a UUID without a session is answered with
    /// a note of that, and leaves every session as it is.
    pub fn command(&mut self, net_msg: NetSendMsg) -> (actions: Vec<RegistryAction>)
        ensures
            carried_out(old(self).sessions(), net_msg.deep_view(), actions.deep_view()),
            final(self).sessions() == sessions_after(old(self).sessions(), net_msg.deep_view()),
            final(self).active() == old(self).active(),
    {
        match net_msg {
            NetSendMsg::All(packet_id, data) => {
                let order: Vec<u128> = self.uuids();
                let actions = self.routes(order.as_slice(), packet_id, data.as_slice());
                actions
            },
            NetSendMsg::Broadcast(to, packet_id, data) => {
                self.routes(to.as_slice(), packet_id, data.as_slice())
            },
            NetSendMsg::Single(uuid, packet_id, data) => {
                let mut actions: Vec<RegistryAction> = Vec::new();
                actions.push(self.route(uuid, packet_id, data.as_slice()));
                assert(actions.deep_view() =~= seq![
                    route(self.sessions(), uuid, packet_id, data@),
                ]);
                actions
            },
            NetSendMsg::Disconnect(uuid, reason) => {
                let mut actions: Vec<RegistryAction> = Vec::new();
                assert(actions.deep_view() =~= Seq::<RegistryActionFields>::empty());
                match map_remove(&mut self.map_uuid_conn, uuid) {
                    Some(conn) => {
                        let packet = JePlayDisconnect { reason: JeChat(reason) };
                        if packet.fits() {
                            if conn.enc.is_none() {
                                actions.push(RegistryAction::Deliver(conn.send(&packet)));
                            } else {
                                actions.push(RegistryAction::Unserved(conn.uuid));
                            }
                            assert(actions.deep_view() =~= seq![
                                deliver_to(
                                    conn.deep_view(),
                                    JePlayDisconnect::packet_id(),
                                    JePlayDisconnect::wire(reason@),
                                ),
                            ]);
                        }
                    },
                    None => {
                        actions.push(RegistryAction::UnknownTarget(uuid));
                        assert(actions.deep_view() =~= seq![
                            RegistryActionFields::UnknownTarget(uuid),
                        ]);
                    },
                }
                assert(self.sessions() =~= old(self).sessions().remove(uuid));
                actions
            },
            NetSendMsg::DefiniteTimeout(uuid, secs, reason) => {
                let mut actions: Vec<RegistryAction> = Vec::new();
                if map_get(&self.map_uuid_conn, uuid).is_some() {
                    actions.push(RegistryAction::SetTimeout(uuid, Some(secs), reason));
                    assert(actions.deep_view() =~= seq![
                        RegistryActionFields::SetTimeout(uuid, Some(secs), reason@),
                    ]);
                } else {
                    actions.push(RegistryAction::UnknownTarget(uuid));
                    assert(actions.deep_view() =~= seq![
                        RegistryActionFields::UnknownTarget(uuid),
                    ]);
                }
                actions
            },
            NetSendMsg::IndefiniteTimeout(uuid, reason) => {
                let mut actions: Vec<RegistryAction> = Vec::new();
                if map_get(&self.map_uuid_conn, uuid).is_some() {
                    actions.push(RegistryAction::SetTimeout(uuid, None, reason));
                    assert(actions.deep_view() =~= seq![
                        RegistryActionFields::SetTimeout(uuid, None, reason@),
                    ]);
                } else {
                    actions.push(RegistryAction::UnknownTarget(uuid));
                    assert(actions.deep_view() =~= seq![
                        RegistryActionFields::UnknownTarget(uuid),
                    ]);
                }
                actions
            },
            NetSendMsg::UnsetTimeout(uuid) => {
                let mut actions: Vec<RegistryAction> = Vec::new();
                if map_get(&self.map_uuid_conn, uuid).is_some() {
                    actions.push(RegistryAction::UnsetTimeout(uuid));
                    assert(actions.deep_view() =~= seq![RegistryActionFields::UnsetTimeout(uuid)]);
                } else {
                    actions.push(RegistryAction::UnknownTarget(uuid));
                    assert(actions.deep_view() =~= seq![
                        RegistryActionFields::UnknownTarget(uuid),
                    ]);
                }
                actions
            },
        }
    }

    /// Takes the signal to shut down: the registry no longer serves. Its
    /// sessions stay as they are, so that what is still to be written can
    /// be written.
    pub fn shutdown(&mut self)
        ensures
            !final(self).active(),
            final(self).sessions() == old(self).sessions(),
    {
        self.async_net_active = false;
    }
}

/// A command for one player who has no session changes nothing: every
/// session stays as it is, and all that comes of the command is the note
/// that the player is not known.
pub proof fn lemma_unknown_target(
    sessions: Map<u128, SessionFields>,
    cmd: SendFields,
    actions: Seq<RegistryActionFields>,
)
    requires
        target(cmd) matches Some(uuid) && !sessions.dom().contains(uuid),
        carried_out(sessions, cmd, actions),
    ensures
        sessions_after(sessions, cmd) == sessions,
        actions == seq![RegistryActionFields::UnknownTarget(target(cmd)->0)],
{
    let uuid = target(cmd)->0;
    assert(sessions.remove(uuid) =~= sessions);
}

/// A command never touches a session that it does not name.
pub proof fn lemma_others_untouched(sessions: Map<u128, SessionFields>, cmd: SendFields, other: u128)
    requires
        target(cmd) != Some(other),
    ensures
        sessions_after(sessions, cmd).dom().contains(other) == sessions.dom().contains(other),
        sessions.dom().contains(other) ==> sessions_after(sessions, cmd)[other] == sessions[other],
{
}

} // verus!
