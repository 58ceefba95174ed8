//! The world, as far as the network side has to do with it: what a world
//! says of itself to a player who joins, and the numbering of its
//! entities.

use crate::config::ConfigCollection;
use crate::ident::{name_uuid, uuid_from_name};
use crate::mode::{dimension_number, gamemode_number, Dimension, Gamemode};
use crate::packets_play::{JeJoinGame, JoinGameFields};
use crate::records::{same_record, BlockId, LocalityRecord, PersistId, UserRecord};
use crate::types::JeVarInt;
use vstd::prelude::*;

verus! {

/// The identity of a causal group.
pub type CgUuid = u128;

/// The number of an entity.
pub type Eid = i32;

/// Hands out the identities under which players' data is kept.
#[derive(Debug, Clone, Copy, PartialEq, Eq, Structural)]
pub struct PersistUuidAllocator {}

impl PersistUuidAllocator {
    /// The identity of a player who is checked against the account
    /// service: the UUID that the service knows the player by.
    pub fn new_online_user(mojang_uuid: u128) -> (r: PersistId)
        ensures
            r.0 == mojang_uuid,
    {
        PersistId(mojang_uuid)
    }

    /// The identity of a player who is not checked: the UUID that belongs
    /// to the name. The same name always has the same identity.
    pub fn new_offline_user(username: &str) -> (r: PersistId)
        ensures
            r.0 == name_uuid(username@),
    {
        PersistId(uuid_from_name(username))
    }
}

/// Reads what is kept of a world's entities. The reading is the program's.
#[derive(Debug, Clone, Copy, PartialEq, Eq, Structural)]
pub struct WorldIO {}

#[derive(Debug, Clone, Copy, PartialEq, Eq, Structural)]
pub struct GameruleCollection {
    pub do_immediate_respawn: bool,
}

/// The number that a world is grown from.
#[derive(Debug, Clone, Copy, PartialEq, Eq, Structural)]
pub struct WorldSeed(pub u32);

impl WorldSeed {
    pub fn from_raw(raw: u32) -> (r: WorldSeed)
        ensures
            r.0 == raw,
    {
        WorldSeed(raw)
    }
}

/// What a world is like. `hashed_seed` is the start of the seed's hash, as
/// whoever loaded the world worked it out.
#[derive(Debug, Clone, PartialEq, Eq)]
pub struct WorldProperty {
    pub dimension: Dimension,
    pub seed: WorldSeed,
    pub hashed_seed: i64,
    pub level_type: String,
    pub default_spawn: LocalityRecord,
    pub default_gamemode: Gamemode,
    pub rules: GameruleCollection,
}

#[derive(Debug, Clone, Copy, PartialEq, Eq, Structural)]
pub struct Entity {
    pub max_health: u32,
    pub health: u32,
    pub loc: LocalityRecord,
}

#[derive(Debug, Clone, Copy, PartialEq, Eq, PartialOrd, Ord, Hash)]
pub struct XZRecord {
    pub x: u64,
    pub z: u64,
}

#[derive(Debug, Clone, Copy, PartialEq, Eq, Structural)]
pub struct BlockData {}

pub struct ChunkSection {
    pub blocks: [BlockData; 4096],
}

pub struct ChunkColumn {
    pub sections: [Option<ChunkSection>; 16],
}

pub struct Chunk {}

pub struct RawChunk(pub Chunk);

pub struct StructureHandle {}

pub struct SelfContainedChunk {
    pub chunk: Chunk,
    pub entities: Vec<Entity>,
    pub ref_structures: Vec<StructureHandle>,
}

pub struct CgQueue {}

/// Something that a world has to do to its causal groups.
pub enum CgOperation {
    NewUser { e: Eid, rec: UserRecord, e_data: Entity },
    UnloadUser { u: u128, cg: CgUuid },
    Merge { l: CgUuid, r: CgUuid },
    MoveChunkColumn { from: CgUuid, to: CgUuid, loc: XZRecord, col: ChunkColumn },
    RequestChunkColumn { recv: CgUuid, loc: XZRecord },
}

/// Where a player is moved to when the player changes worlds.
pub enum TeleportMode {
    /// The place in the target world is the place in the origin world,
    /// scaled by `multiplier_milli` thousandths.
    Multiplier {
        origin: LocalityRecord,
        target_center: LocalityRecord,
        multiplier_milli: u32,
        seek: Option<(BlockId, u64)>,
    },
}

/// Collection of in-group-affecting components.
///
/// By design, `CausalGroup`s are completely isolated from each other, so that computation may be safely parallelized.
pub struct CausalGroup {
    pub users: Vec<(u128, UserRecord)>,
    pub entities: Vec<(Eid, Entity)>,
}

/// The causal group of each entity that a map knows, under the entity's
/// number.
pub uninterp spec fn groups_in(map: hashbrown::HashMap<i32, u128>) -> Map<i32, u128>;

/// No entity at all.
pub open spec fn no_groups() -> Map<i32, u128> {
    Map::empty()
}

/// `HashMap::new`: a map that holds nothing.
#[verifier::external_body]
fn lookup_new() -> (table: hashbrown::HashMap<i32, u128>)
    ensures
        groups_in(table) == no_groups(),
{
    hashbrown::HashMap::new()
}

/// `HashMap::insert`: the map holds `cg` under `eid`, in place of what it
/// held there, and everything else as before.
#[verifier::external_body]
fn lookup_insert(map: &mut hashbrown::HashMap<i32, u128>, eid: i32, cg: u128)
    ensures
        groups_in(*final(map)) == groups_in(*old(map)).insert(eid, cg),
{
    map.insert(eid, cg);
}

/// `HashMap::get`: what the map holds under `eid`, if anything.
#[verifier::external_body]
fn lookup_get(map: &hashbrown::HashMap<i32, u128>, eid: i32) -> (found: Option<u128>)
    ensures
        found == (if groups_in(*map).dom().contains(eid) {
            Some(groups_in(*map)[eid])
        } else {
            None::<u128>
        }),
{
    map.get(&eid).copied()
}

/// The game world.
pub struct World {
    pub p: WorldProperty,
    pub cc: ConfigCollection,
    pub next_eid: i32,
    pub _q_cg: Vec<CgOperation>,
    pub io: WorldIO,
    /// Lookup table for entities to causal groups
    pub eid_cg_lookup: hashbrown::HashMap<Eid, CgUuid>,
}

/// The join-game packet for the player `user` who enters a world with the
/// properties `p` under the configuration `cc`, as the entity `eid`.
pub open spec fn join_game(
    p: WorldProperty,
    cc: ConfigCollection,
    user: UserRecord,
    eid: i32,
) -> JoinGameFields {
    JoinGameFields {
        entity_id: eid,
        gamemode: gamemode_number(user.gamemode),
        dimension: dimension_number(p.dimension) as i32,
        hashed_seed: p.hashed_seed,
        max_players: cc.auth.max_players,
        level_type: p.level_type@,
        view_distance: cc.perf.view_distance_chunks as i32,
        reduced_debug_info: false,
        enable_respawn_screen: !p.rules.do_immediate_respawn,
    }
}

/// Whether `after` is the world `before` once it has taken the player
/// `user` in: the next entity number is used up, and the world has noted,
/// behind what it had noted before, that it has to take in the player under
/// that number, with `e_data` as the player's entity. Nothing else has
/// changed.
pub open spec fn took_user(before: World, after: World, user: UserRecord, e_data: Entity) -> bool {
    &&& after.next_eid == before.next_eid + 1
    &&& after._q_cg@.len() == before._q_cg@.len() + 1
    &&& after._q_cg@.last() matches CgOperation::NewUser { e, rec, e_data: data }
        && e == before.next_eid && same_record(rec, user) && data == e_data
    &&& after._q_cg@.drop_last() == before._q_cg@
    &&& after.p == before.p
    &&& after.cc == before.cc
    &&& after.io == before.io
    &&& after.eid_cg_lookup == before.eid_cg_lookup
}

impl World {
    /// A world with the properties `p` under the configuration `cc`, in
    /// which nothing has happened yet: no entity has a number, and the
    /// world has nothing to do.
    pub fn new(p: WorldProperty, cc: ConfigCollection) -> (r: World)
        ensures
            r.p == p,
            r.cc == cc,
            r.next_eid == 0,
            r._q_cg@.len() == 0,
            groups_in(r.eid_cg_lookup) == no_groups(),
    {
        World {
            p,
            cc,
            next_eid: 0,
            _q_cg: Vec::new(),
            io: WorldIO {  },
            eid_cg_lookup: lookup_new(),
        }
    }

    /// Takes the next entity number for an entity of the causal group `cg`,
    /// and notes under the number which group the entity is of. There is no
    /// number left once the largest has been reached; nothing changes then.
    pub fn new_eid(&mut self, cg: CgUuid) -> (r: Option<Eid>)
        ensures
            r is Some <==> old(self).next_eid < i32::MAX,
            r matches Some(eid) ==> {
                &&& eid == old(self).next_eid
                &&& final(self).next_eid == eid + 1
                &&& groups_in(final(self).eid_cg_lookup) == groups_in(
                    old(self).eid_cg_lookup,
                ).insert(eid, cg)
            },
            r is None ==> *final(self) == *old(self),
            final(self).p == old(self).p,
            final(self).cc == old(self).cc,
            final(self)._q_cg == old(self)._q_cg,
    {
        if self.next_eid == i32::MAX {
            return None;
        }
        lookup_insert(&mut self.eid_cg_lookup, self.next_eid, cg);
        let eid: i32 = self.next_eid;
        self.next_eid = self.next_eid + 1;
        Some(eid)
    }

    /// The causal group of the entity `eid`, where the world has noted one.
    pub fn group_of(&self, eid: Eid) -> (r: Option<CgUuid>)
        ensures
            r == (if groups_in(self.eid_cg_lookup).dom().contains(eid) {
                Some(groups_in(self.eid_cg_lookup)[eid])
            } else {
                None::<u128>
            }),
    {
        lookup_get(&self.eid_cg_lookup, eid)
    }

    /// Takes the next entity number for the player `u`, and says what the
    /// world has to do for it: take the player in, with `e_data` as what is
    /// kept of the player's entity. There is no number left once the
    /// largest has been reached.
    pub fn new_user_eid_speculative(&mut self, u: &UserRecord, e_data: Entity) -> (r: Option<
        (Eid, CgOperation),
    >)
        ensures
            r is Some <==> old(self).next_eid < i32::MAX,
            r matches Some((eid, op)) ==> {
                &&& eid == old(self).next_eid
                &&& final(self).next_eid == eid + 1
                &&& op matches CgOperation::NewUser { e, rec, e_data: data }
                &&& e == eid
                &&& same_record(rec, *u)
                &&& data == e_data
            },
            r is None ==> final(self).next_eid == old(self).next_eid,
            final(self).p == old(self).p,
            final(self).cc == old(self).cc,
            final(self)._q_cg == old(self)._q_cg,
            final(self).eid_cg_lookup == old(self).eid_cg_lookup,
    {
        if self.next_eid == i32::MAX {
            return None;
        }
        let eid: i32 = self.next_eid;
        self.next_eid = self.next_eid + 1;
        Some(
            (
                eid,
                CgOperation::NewUser {
                    e: eid,
                    rec: UserRecord {
                        username: u.username.clone(),
                        world: u.world.clone(),
                        locality: u.locality,
                        uuid: u.uuid,
                        online: u.online,
                        gamemode: u.gamemode,
                        persist_id: u.persist_id,
                    },
                    e_data,
                },
            ),
        )
    }

    /// Takes the player `user` into the world: the player gets the next
    /// entity number, the world notes what it has to do for the player, and
    /// the join-game packet for the player is handed out. Where no entity
    /// number is left, nothing happens and there is no packet.
    pub fn take_user(&mut self, user: &UserRecord, e_data: Entity) -> (r: Option<JeJoinGame>)
        ensures
            r is Some <==> old(self).next_eid < i32::MAX,
            r matches Some(pk) ==> pk@ == join_game(
                old(self).p,
                old(self).cc,
                *user,
                old(self).next_eid,
            ) && took_user(*old(self), *final(self), *user, e_data),
            r is None ==> *final(self) == *old(self),
    {
        // The entity number is taken at once; whether the causal groups
        // can take the player is found out later.
        let (new_eid, op) = match self.new_user_eid_speculative(user, e_data) {
            Some(taken) => taken,
            None => { return None; },
        };
        self._q_cg.push(op);
        assert(self._q_cg@.drop_last() =~= old(self)._q_cg@);
        Some(
            JeJoinGame {
                entity_id: new_eid,
                gamemode: user.gamemode.into(),
                dimension: i8::from(self.p.dimension) as i32,
                hashed_seed: self.p.hashed_seed,
                max_players: self.cc.auth.max_players,
                level_type: self.p.level_type.clone(),
                view_distance: JeVarInt(self.cc.perf.view_distance_chunks as i32),
                reduced_debug_info: false,
                enable_respawn_screen: !self.p.rules.do_immediate_respawn,
            },
        )
    }
}

} // verus!
