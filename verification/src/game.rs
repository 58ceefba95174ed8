//! The simulation loop's side of the bridge: what the loop makes of the
//! events that the network side sends it, and what it sends back.
//!
//! The loop itself, its clock and the user records on disk are the
//! program's. Here is what the loop decides: whom to look up in the
//! records, whom to let into which world, and whom to turn away.

use crate::config::ConfigCollection;
use crate::init::{told, RunState, ServerStatus};
use crate::msg::{NetRecvInner, NetRecvMsg, NetSendMsg, RecvFields, RecvInnerFields, SendFields};
use crate::packets::JePacket;
use crate::packets_play::JeJoinGame;
use crate::records::{same_record, UserRecord};
use crate::world::{join_game, took_user, Entity, PersistUuidAllocator, World};
use vstd::prelude::*;
use vstd::string::StringExecFns;

verus! {

/// The records that a map holds, each under the UUID of its session.
pub uninterp spec fn users_in(map: hashbrown::HashMap<u128, UserRecord>) -> Map<u128, UserRecord>;

/// The worlds that a map holds, each under its name.
pub uninterp spec fn worlds_in(map: hashbrown::HashMap<String, World>) -> Map<Seq<char>, World>;

/// No record at all.
pub open spec fn no_users() -> Map<u128, UserRecord> {
    Map::empty()
}

/// No world at all.
pub open spec fn no_worlds() -> Map<Seq<char>, World> {
    Map::empty()
}

/// `HashMap::new`: a map that holds nothing.
#[verifier::external_body]
fn users_new() -> (table: hashbrown::HashMap<u128, UserRecord>)
    ensures
        users_in(table) == no_users(),
{
    hashbrown::HashMap::new()
}

/// `HashMap::insert`: the map holds `user` under `uuid`, in place of what it
/// held there, and everything else as before.
#[verifier::external_body]
fn users_insert(map: &mut hashbrown::HashMap<u128, UserRecord>, uuid: u128, user: UserRecord)
    ensures
        users_in(*final(map)) == users_in(*old(map)).insert(uuid, user),
{
    map.insert(uuid, user);
}

/// `HashMap::get`: what the map holds under `uuid`, if anything.
#[verifier::external_body]
fn users_get(map: &hashbrown::HashMap<u128, UserRecord>, uuid: u128) -> (found: Option<
    &UserRecord,
>)
    ensures
        found is Some <==> users_in(*map).dom().contains(uuid),
        found matches Some(user) ==> *user == users_in(*map)[uuid],
{
    map.get(&uuid)
}

/// `HashMap::new`: a map that holds nothing.
#[verifier::external_body]
fn worlds_new() -> (table: hashbrown::HashMap<String, World>)
    ensures
        worlds_in(table) == no_worlds(),
{
    hashbrown::HashMap::new()
}

/// `HashMap::insert`: the map holds `world` under the name `name`, in place
/// of what it held there, and everything else as before.
#[verifier::external_body]
fn worlds_insert(map: &mut hashbrown::HashMap<String, World>, name: String, world: World)
    ensures
        worlds_in(*final(map)) == worlds_in(*old(map)).insert(name@, world),
{
    map.insert(name, world);
}

/// `HashMap::remove`: the map holds nothing under the name `name` and
/// everything else as before; what it held under the name, if anything, is
/// handed out.
#[verifier::external_body]
fn worlds_remove(map: &mut hashbrown::HashMap<String, World>, name: &str) -> (prev: Option<World>)
    ensures
        worlds_in(*final(map)) == worlds_in(*old(map)).remove(name@),
        prev is Some <==> worlds_in(*old(map)).dom().contains(name@),
        prev matches Some(world) ==> world == worlds_in(*old(map))[name@],
{
    map.remove(name)
}

/// What the loop makes of an event.
#[derive(Debug, Clone, PartialEq, Eq)]
pub enum GameNote {
    /// The player has joined: the player's record is to be looked up, or
    /// made, and handed in. Players who are checked against the account
    /// service are kept by their UUID, the others by their name.
    LoadUser { uuid: u128, username: String, online: bool },
    /// The player of this name has left.
    Left { uuid: u128, username: String },
    /// A session has ended of which the loop knew nothing.
    Inconsistent(u128),
    /// Nothing to do.
    Nothing,
}

/// A note, as plain values.
pub enum GameNoteFields {
    LoadUser { uuid: u128, username: Seq<char>, online: bool },
    Left { uuid: u128, username: Seq<char> },
    Inconsistent(u128),
    Nothing,
}

impl DeepView for GameNote {
    type V = GameNoteFields;

    open spec fn deep_view(&self) -> GameNoteFields {
        match self {
            GameNote::LoadUser { uuid, username, online } => GameNoteFields::LoadUser {
                uuid: *uuid,
                username: username@,
                online: *online,
            },
            GameNote::Left { uuid, username } => GameNoteFields::Left {
                uuid: *uuid,
                username: username@,
            },
            GameNote::Inconsistent(uuid) => GameNoteFields::Inconsistent(*uuid),
            GameNote::Nothing => GameNoteFields::Nothing,
        }
    }
}

/// What the loop makes of the event `msg` where it knows the players
/// `users`.
pub open spec fn noted(users: Map<u128, UserRecord>, msg: RecvFields) -> GameNoteFields {
    match msg.inner {
        RecvInnerFields::NewSession { username, online } => GameNoteFields::LoadUser {
            uuid: msg.uuid,
            username,
            online,
        },
        RecvInnerFields::EndSession => if users.dom().contains(msg.uuid) {
            GameNoteFields::Left { uuid: msg.uuid, username: users[msg.uuid].username@ }
        } else {
            GameNoteFields::Inconsistent(msg.uuid)
        },
        RecvInnerFields::Packet { .. } => GameNoteFields::Nothing,
    }
}

/// The reason given to a player whose record cannot be had.
pub open spec fn records_failure() -> Seq<char> {
    "Failed to access user records"@
}

/// The reason given to a player whom the world `world` does not take.
pub open spec fn world_failure(world: Seq<char>) -> Seq<char> {
    "World "@ + world + " failed to accept user"@
}

/// What the network side is told of the player `u` who is to enter a world:
/// the join-game packet where the player's world is there and takes the
/// player, the removal of the player where it is there and does not, and
/// nothing where it is not there.
pub open spec fn accepted(worlds: Map<Seq<char>, World>, u: UserRecord) -> Option<SendFields> {
    if !worlds.dom().contains(u.world@) {
        None
    } else {
        let w = worlds[u.world@];
        let pk = join_game(w.p, w.cc, u, w.next_eid);
        if w.next_eid < i32::MAX && JeJoinGame::wire_ok(pk) {
            Some(
                SendFields::Single(
                    u.spec_session_uuid(),
                    JeJoinGame::packet_id(),
                    JeJoinGame::wire(pk),
                ),
            )
        } else {
            Some(SendFields::Disconnect(u.spec_session_uuid(), world_failure(u.world@)))
        }
    }
}

/// Whether `after` are the worlds `before` once the player `u` was to
/// enter: the player's world, where it is there and has an entity number
/// left, has taken the player in; every other world is as it was.
pub open spec fn worlds_accepted(
    before: Map<Seq<char>, World>,
    after: Map<Seq<char>, World>,
    u: UserRecord,
    e_data: Entity,
) -> bool {
    &&& after.dom() == before.dom()
    &&& forall|name: Seq<char>|
        before.dom().contains(name) && name != u.world@ ==> #[trigger] after[name] == before[name]
    &&& before.dom().contains(u.world@) ==> if before[u.world@].next_eid < i32::MAX {
        took_user(before[u.world@], after[u.world@], u, e_data)
    } else {
        after[u.world@] == before[u.world@]
    }
}

/// The simulation loop's state, as far as the bridge reaches.
pub struct GameServer {
    worlds: hashbrown::HashMap<String, World>,
    users: hashbrown::HashMap<u128, UserRecord>,
    cc: ConfigCollection,
    puid: PersistUuidAllocator,
    state: RunState,
}

impl GameServer {
    /// The players that the loop knows, each under the UUID of the session.
    pub closed spec fn users(&self) -> Map<u128, UserRecord> {
        users_in(self.users)
    }

    /// The worlds, each under its name.
    pub closed spec fn worlds(&self) -> Map<Seq<char>, World> {
        worlds_in(self.worlds)
    }

    /// The configuration that the loop runs under.
    pub closed spec fn config(&self) -> ConfigCollection {
        self.cc
    }

    /// Whether the loop runs, waits, or is over.
    pub closed spec fn run_state(&self) -> RunState {
        self.state
    }

    /// The configuration that the loop runs under.
    pub fn cc(&self) -> (r: &ConfigCollection)
        ensures
            *r == self.config(),
    {
        &self.cc
    }

    /// Whether the loop runs, waits, or is over.
    pub fn state(&self) -> (r: RunState)
        ensures
            r == self.run_state(),
    {
        self.state
    }

    /// A loop that runs, without worlds and without players.
    pub fn new(cc: ConfigCollection) -> (r: GameServer)
        ensures
            r.users() == no_users(),
            r.worlds() == no_worlds(),
            r.config() == cc,
            r.run_state() == RunState::Running,
    {
        GameServer {
            worlds: worlds_new(),
            users: users_new(),
            cc,
            puid: PersistUuidAllocator {  },
            state: RunState::Running,
        }
    }

    /// Puts a world under its name, in place of a world that was there.
    pub fn add_world(&mut self, name: String, world: World)
        ensures
            final(self).worlds() == old(self).worlds().insert(name@, world),
            final(self).users() == old(self).users(),
            final(self).config() == old(self).config(),
            final(self).run_state() == old(self).run_state(),
    {
        worlds_insert(&mut self.worlds, name, world);
    }

    /// Whether the loop knows a player under `uuid`.
    pub fn knows(&self, uuid: u128) -> (b: bool)
        ensures
            b == self.users().dom().contains(uuid),
    {
        users_get(&self.users, uuid).is_some()
    }

    /// Takes a word from whoever controls the server: the loop stops for
    /// good on a stop, waits on a pause, and runs again on a start. The
    /// answer is whether the stop is to be passed on.
    pub fn on_status(&mut self, status: ServerStatus) -> (stop: bool)
        ensures
            final(self).run_state() == told(old(self).run_state(), status),
            stop == (old(self).run_state() != RunState::Stopped && status == ServerStatus::Stop),
            final(self).users() == old(self).users(),
            final(self).worlds() == old(self).worlds(),
    {
        let (next, stop) = self.state.on_status(status);
        self.state = next;
        stop
    }

    /// What the loop makes of one event of the network side.
    pub fn process_event(&self, msg: &NetRecvMsg) -> (note: GameNote)
        ensures
            note.deep_view() == noted(self.users(), msg.deep_view()),
    {
        match &msg.inner {
            NetRecvInner::NewSession { username, online } => GameNote::LoadUser {
                uuid: msg.uuid,
                username: username.clone(),
                online: *online,
            },
            NetRecvInner::EndSession => {
                match users_get(&self.users, msg.uuid) {
                    Some(u) => GameNote::Left { uuid: msg.uuid, username: u.username.clone() },
                    None => GameNote::Inconsistent(msg.uuid),
                }
            },
            NetRecvInner::Packet { .. } => GameNote::Nothing,
        }
    }

    /// What the loop makes of the events that have come in since the last
    /// tick, one note for each event, in order.
    pub fn process_tick(&self, msgs: &[NetRecvMsg]) -> (notes: Vec<GameNote>)
        ensures
            notes@.len() == msgs@.len(),
            forall|i: int|
                0 <= i < msgs@.len() ==> (#[trigger] notes@[i]).deep_view() == noted(
                    self.users(),
                    msgs@[i].deep_view(),
                ),
    {
        let mut notes: Vec<GameNote> = Vec::new();
        let mut i: usize = 0;
        while i < msgs.len()
            invariant
                i <= msgs@.len(),
                notes@.len() == i,
                forall|j: int|
                    0 <= j < i ==> (#[trigger] notes@[j]).deep_view() == noted(
                        self.users(),
                        msgs@[j].deep_view(),
                    ),
            decreases msgs@.len() - i,
        {
            notes.push(self.process_event(&msgs[i]));
            i = i + 1;
        }
        notes
    }

    /// Lets the player `u` into the player's world. `e_data` is what is
    /// kept of the player's entity.
    pub fn accept_user(&mut self, u: &UserRecord, e_data: Entity) -> (r: Option<NetSendMsg>)
        ensures
            match r {
                Some(msg) => accepted(old(self).worlds(), *u) == Some(msg.deep_view()),
                None => accepted(old(self).worlds(), *u) is None,
            },
            worlds_accepted(old(self).worlds(), final(self).worlds(), *u, e_data),
            final(self).users() == old(self).users(),
            final(self).config() == old(self).config(),
            final(self).run_state() == old(self).run_state(),
    {
        let uuid: u128 = u.session_uuid();
        match worlds_remove(&mut self.worlds, u.world.as_str()) {
            Some(mut w) => {
                let ghost before = w;
                let taken = w.take_user(u, e_data);
                worlds_insert(&mut self.worlds, u.world.clone(), w);
                assert(self.worlds().dom() =~= old(self).worlds().dom());
                match taken {
                    Some(pk) => {
                        if pk.fits() {
                            return Some(NetSendMsg::single(uuid, &pk));
                        }
                    },
                    None => {},
                }
                let mut reason: String = String::from_str("World ");
                reason.append(u.world.as_str());
                reason.append(" failed to accept user");
                Some(NetSendMsg::Disconnect(uuid, reason))
            },
            None => {
                assert(self.worlds() =~= old(self).worlds());
                // fallback world
                None
            },
        }
    }

    /// Takes the answer of the user records for the player who has joined
    /// under `uuid`: with a record, the loop knows the player from now on
    /// and lets the player into the player's world; without, the player is
    /// to be removed.
    pub fn on_user_loaded(&mut self, uuid: u128, found: Option<UserRecord>, e_data: Entity) -> (r:
        Option<NetSendMsg>)
        ensures
            match found {
                Some(user) => {
                    &&& match r {
                        Some(msg) => accepted(old(self).worlds(), user) == Some(msg.deep_view()),
                        None => accepted(old(self).worlds(), user) is None,
                    }
                    &&& worlds_accepted(old(self).worlds(), final(self).worlds(), user, e_data)
                    &&& final(self).users().dom() == old(self).users().dom().insert(uuid)
                    &&& same_record(final(self).users()[uuid], user)
                    &&& forall|other: u128|
                        old(self).users().dom().contains(other) && other != uuid
                            ==> #[trigger] final(self).users()[other] == old(self).users()[other]
                },
                None => {
                    &&& r matches Some(msg) && msg.deep_view() == SendFields::Disconnect(
                        uuid,
                        records_failure(),
                    )
                    &&& final(self).worlds() == old(self).worlds()
                    &&& final(self).users() == old(self).users()
                },
            },
            final(self).config() == old(self).config(),
            final(self).run_state() == old(self).run_state(),
    {
        match found {
            Some(user) => {
                let kept = UserRecord {
                    username: user.username.clone(),
                    world: user.world.clone(),
                    locality: user.locality,
                    uuid: user.uuid,
                    online: user.online,
                    gamemode: user.gamemode,
                    persist_id: user.persist_id,
                };
                users_insert(&mut self.users, uuid, kept);
                assert(self.users().dom() =~= old(self).users().dom().insert(uuid));
                self.accept_user(&user, e_data)
            },
            None => Some(
                NetSendMsg::Disconnect(uuid, String::from_str("Failed to access user records")),
            ),
        }
    }

    /// Stops the loop. The answer is whether the stop is to be passed on.
    pub fn stop(&mut self) -> (stop: bool)
        ensures
            final(self).run_state() == RunState::Stopped,
            stop == (old(self).run_state() != RunState::Stopped),
            final(self).users() == old(self).users(),
            final(self).worlds() == old(self).worlds(),
    {
        self.on_status(ServerStatus::Stop)
    }
}

} // verus!
