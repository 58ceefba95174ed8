//! What the server keeps of a player between sessions.

use crate::mode::Gamemode;
use crate::status::{decimal, decimal_string};
use vstd::prelude::*;
use vstd::string::StringExecFns;

verus! {

/// The identity under which a player's data is kept.
#[derive(Debug, Clone, Copy, PartialEq, Eq, Structural)]
pub struct PersistId(pub u128);

/// Where something is, how it is turned and how it moves.
#[derive(Debug, Clone, Copy, PartialEq, Eq, Structural)]
pub struct LocalityRecord {
    pub x: i32,
    pub y: i16,
    pub z: i32,
    pub yaw: u8,
    pub pitch: u8,
    pub head_pitch: u8,
    pub vel_x: i16,
    pub vel_y: i16,
    pub vel_z: i16,
}

impl Default for LocalityRecord {
    fn default() -> (r: Self)
        ensures
            r == (LocalityRecord {
                x: 0,
                y: 64,
                z: 0,
                yaw: 0,
                pitch: 0,
                head_pitch: 0,
                vel_x: 0,
                vel_y: 0,
                vel_z: 0,
            }),
    {
        Self { x: 0, y: 64, z: 0, yaw: 0, pitch: 0, head_pitch: 0, vel_x: 0, vel_y: 0, vel_z: 0 }
    }
}

/// A player's record as the store holds it.
#[derive(Debug, Clone, PartialEq, Eq)]
pub struct SerializedUserRecord {
    pub username: String,
    pub world: String,
    pub locality: LocalityRecord,
    pub uuid: Option<u128>,
    pub online: bool,
    pub gamemode: Gamemode,
    pub persist_id: PersistId,
}

/// A player's record as the game uses it, under the name it goes by there.
pub type UserRecord = SerializedUserRecord;

/// Whether two records say the same.
pub open spec fn same_record(a: UserRecord, b: UserRecord) -> bool {
    &&& a.username@ == b.username@
    &&& a.world@ == b.world@
    &&& a.locality == b.locality
    &&& a.uuid == b.uuid
    &&& a.online == b.online
    &&& a.gamemode == b.gamemode
    &&& a.persist_id == b.persist_id
}

/// A player's record without the identity it is filed under.
#[derive(Debug, Clone, PartialEq, Eq)]
pub struct InternalUserRecord {
    pub username: String,
    pub world: String,
    pub locality: LocalityRecord,
    pub online: bool,
    pub gamemode: Gamemode,
    pub persist_id: PersistId,
}

impl SerializedUserRecord {
    /// The record without its UUID.
    pub fn to_internal_copy(&self) -> (r: InternalUserRecord)
        ensures
            r.username@ == self.username@,
            r.world@ == self.world@,
            r.locality == self.locality,
            r.online == self.online,
            r.gamemode == self.gamemode,
            r.persist_id == self.persist_id,
    {
        InternalUserRecord {
            username: self.username.clone(),
            world: self.world.clone(),
            locality: self.locality,
            online: self.online,
            gamemode: self.gamemode,
            persist_id: self.persist_id,
        }
    }

    /// The identity that the player's session goes by: the UUID of the
    /// record, or, where it has none, the identity it is kept under.
    pub open spec fn spec_session_uuid(&self) -> u128 {
        match self.uuid {
            Some(uuid) => uuid,
            None => self.persist_id.0,
        }
    }

    #[verifier::when_used_as_spec(spec_session_uuid)]
    pub fn session_uuid(&self) -> (r: u128)
        ensures
            r == self.spec_session_uuid(),
    {
        match self.uuid {
            Some(uuid) => uuid,
            None => self.persist_id.0,
        }
    }
}

impl InternalUserRecord {
    /// The record with the UUID `uuid`.
    pub fn to_serialized_copy(&self, uuid: Option<u128>) -> (r: SerializedUserRecord)
        ensures
            r.username@ == self.username@,
            r.world@ == self.world@,
            r.locality == self.locality,
            r.online == self.online,
            r.gamemode == self.gamemode,
            r.persist_id == self.persist_id,
            r.uuid == uuid,
    {
        SerializedUserRecord {
            username: self.username.clone(),
            world: self.world.clone(),
            locality: self.locality,
            online: self.online,
            gamemode: self.gamemode,
            persist_id: self.persist_id,
            uuid,
        }
    }
}

#[derive(Debug, Clone, Copy, PartialEq, Eq, Structural)]
pub struct VarIntRecord(pub i32);

#[derive(Debug, Clone, Copy, PartialEq, Eq, Structural)]
pub struct VarLongRecord(pub i32);

/// The kind of a block: a major and a minor number.
#[derive(Debug, Clone, Copy, PartialEq, Eq, Hash, Structural)]
pub struct BlockId {
    pub maj: u16,
    pub min: u16,
}

impl BlockId {
    /// The written form of a block id: both numbers in decimal, the major
    /// first, with a colon between them, in round brackets.
    pub open spec fn text(&self) -> Seq<char> {
        "("@ + decimal(self.maj as nat) + ":"@ + decimal(self.min as nat) + ")"@
    }

    pub fn to_string(&self) -> (r: String)
        ensures
            r@ == self.text(),
    {
        let mut r: String = String::from_str("(");
        r.append(decimal_string(self.maj as u64).as_str());
        r.append(":");
        r.append(decimal_string(self.min as u64).as_str());
        r.append(")");
        r
    }
}

} // verus!
