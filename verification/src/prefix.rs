//! The server's folder on disk, the prefix: where the users and the worlds
//! are kept under it, and which folders it is made of.
//!
//! A path is held as the list of its pieces; joining them into a path of
//! the machine, and making the folders, is the program's work.

use crate::config::ConfigCollection;
use crate::ident::{hyphenated, uuid_to_hyphenated};
use crate::records::{PersistId, UserRecord};
use crate::world::{PersistUuidAllocator, WorldProperty};
use vstd::prelude::*;
use vstd::string::StringExecFns;

verus! {

/// The path that goes on from `base` with the piece `piece`.
pub open spec fn pushed(base: Seq<Seq<char>>, piece: Seq<char>) -> Seq<Seq<char>> {
    base.push(piece)
}

/// The path, as pieces of text.
pub open spec fn pieces(path: Seq<String>) -> Seq<Seq<char>> {
    Seq::new(path.len(), |i: int| path[i]@)
}

/// A copy of the path `base`.
pub fn copy_path(base: &[String]) -> (r: Vec<String>)
    ensures
        pieces(r@) == pieces(base@),
{
    let mut path: Vec<String> = Vec::new();
    let mut i: usize = 0;
    while i < base.len()
        invariant
            i <= base@.len(),
            path@.len() == i,
            forall|j: int| 0 <= j < i ==> (#[trigger] path@[j])@ == base@[j]@,
        decreases base@.len() - i,
    {
        path.push(base[i].clone());
        i = i + 1;
    }
    assert(pieces(path@) =~= pieces(base@));
    path
}

/// Goes on from `base` with the piece `piece`.
pub fn push_piece(base: &[String], piece: &str) -> (r: Vec<String>)
    ensures
        pieces(r@) == pushed(pieces(base@), piece@),
{
    let mut path: Vec<String> = copy_path(base);
    let ghost copied = path@;
    path.push(piece.to_owned());
    assert(pieces(path@) =~= pieces(copied).push(piece@));
    path
}

/// What went wrong with a folder or a file of the prefix.
#[derive(Debug, Clone, PartialEq, Eq)]
pub enum ServerPrefixError {
    AlreadyExists,
    /// The machine's error, in its own words.
    IoError(String),
    GenericError(String),
}

impl ServerPrefixError {
    /// The words for the error.
    pub open spec fn text(&self) -> Seq<char> {
        match self {
            ServerPrefixError::AlreadyExists => "already exists"@,
            ServerPrefixError::IoError(e) => "IO error - "@ + e@,
            ServerPrefixError::GenericError(e) => "Generic error - "@ + e@,
        }
    }

    pub fn to_string(&self) -> (r: String)
        ensures
            r@ == self.text(),
    {
        match &self {
            ServerPrefixError::AlreadyExists => "already exists".to_owned(),
            ServerPrefixError::IoError(e) => {
                let mut r: String = String::from_str("IO error - ");
                r.append(e.as_str());
                r
            },
            ServerPrefixError::GenericError(e) => {
                let mut r: String = String::from_str("Generic error - ");
                r.append(e.as_str());
                r
            },
        }
    }
}

/// Where the users are kept.
#[derive(Debug, Clone, PartialEq, Eq)]
pub struct UserPrefix(pub Vec<String>);

impl UserPrefix {
    /// The users' folder of the prefix `p`.
    pub fn from(p: &[String]) -> (r: Self)
        ensures
            pieces(r.0@) == pushed(pieces(p@), "users"@),
    {
        Self(push_piece(p, "users"))
    }

    /// Where the users that are checked against the account service are
    /// kept.
    pub fn online_path(&self) -> (r: Vec<String>)
        ensures
            pieces(r@) == pushed(pieces(self.0@), "online"@),
    {
        push_piece(self.0.as_slice(), "online")
    }

    /// Where the users that are not checked are kept.
    pub fn offline_path(&self) -> (r: Vec<String>)
        ensures
            pieces(r@) == pushed(pieces(self.0@), "offline"@),
    {
        push_piece(self.0.as_slice(), "offline")
    }

    /// Where the record of a player who is checked against the account
    /// service lies, and the record that the player gets where none lies
    /// there: under the player's UUID, in the world that new players start
    /// in, at its spawn and in its game mode.
    pub fn load_or_new_online(
        &self,
        uuid: u128,
        username: &str,
        cc: &ConfigCollection,
        default_w_props: &WorldProperty,
    ) -> (r: (Vec<String>, UserRecord))
        ensures
            pieces(r.0@) == pushed(pieces(self.0@), hyphenated(uuid) + ".json"@),
            r.1.username@ == username@,
            r.1.world@ == cc.auth.default_world_name@,
            r.1.locality == default_w_props.default_spawn,
            r.1.uuid == Some(uuid),
            r.1.online,
            r.1.gamemode == default_w_props.default_gamemode,
            r.1.persist_id == PersistId(uuid),
    {
        let path = self.record_path(uuid_to_hyphenated(uuid).as_str());
        let world_name = cc.auth.default_world_name.clone();
        (
            path,
            UserRecord {
                username: username.to_owned(),
                world: world_name,
                locality: default_w_props.default_spawn,
                uuid: Some(uuid),
                online: true,
                gamemode: default_w_props.default_gamemode,
                persist_id: PersistUuidAllocator::new_online_user(uuid),
            },
        )
    }

    /// Where the record of a player who is not checked lies, and the record
    /// that the player gets where none lies there: under the identity that
    /// belongs to the player's name, without a UUID, in the world that new
    /// players start in, at its spawn and in its game mode.
    pub fn load_or_new_offline(
        &self,
        username: &str,
        cc: &ConfigCollection,
        default_w_props: &WorldProperty,
    ) -> (r: (Vec<String>, UserRecord))
        ensures
            pieces(r.0@) == pushed(
                pieces(self.0@),
                hyphenated(crate::ident::name_uuid(username@)) + ".json"@,
            ),
            r.1.username@ == username@,
            r.1.world@ == cc.auth.default_world_name@,
            r.1.locality == default_w_props.default_spawn,
            r.1.uuid.is_none(),
            r.1.online,
            r.1.gamemode == default_w_props.default_gamemode,
            r.1.persist_id == PersistId(crate::ident::name_uuid(username@)),
    {
        let persist_id = PersistUuidAllocator::new_offline_user(username);
        let path = self.record_path(uuid_to_hyphenated(persist_id.0).as_str());
        let world_name = cc.auth.default_world_name.clone();
        (
            path,
            UserRecord {
                username: username.to_owned(),
                world: world_name,
                locality: default_w_props.default_spawn,
                uuid: None,
                online: true,
                gamemode: default_w_props.default_gamemode,
                persist_id,
            },
        )
    }

    /// The name of the file of the user with the identity `uuid_text`.
    pub fn record_path(&self, uuid_text: &str) -> (r: Vec<String>)
        ensures
            pieces(r@) == pushed(pieces(self.0@), uuid_text@ + ".json"@),
    {
        let mut name: String = String::from_str(uuid_text);
        name.append(".json");
        push_piece(self.0.as_slice(), name.as_str())
    }
}

/// Where the worlds are kept.
#[derive(Debug, Clone, PartialEq, Eq)]
pub struct WorldPrefix(pub Vec<String>);

impl WorldPrefix {
    /// The worlds' folder of the prefix `p`.
    pub fn from(p: &[String]) -> (r: Self)
        ensures
            pieces(r.0@) == pushed(pieces(p@), "worlds"@),
    {
        Self(push_piece(p, "worlds"))
    }
}

/// The prefix.
#[derive(Debug, Clone, PartialEq, Eq)]
pub struct ServerPrefix {
    pub path: Vec<String>,
    pub users: UserPrefix,
    pub worlds: WorldPrefix,
}

/// The folders that a prefix is made of, in the order in which they are to
/// be made: the prefix itself, the worlds, the users.
pub open spec fn prefix_folders(path: Seq<Seq<char>>) -> Seq<Seq<Seq<char>>> {
    seq![pushed(path, ""@), pushed(path, "worlds"@), pushed(path, "users"@)]
}

impl ServerPrefix {
    /// The prefix at `path`, and the folders to make for it where they are
    /// not there.
    pub fn load_or_new(path: &[String]) -> (r: (ServerPrefix, Vec<Vec<String>>))
        ensures
            pieces(r.0.path@) == pieces(path@),
            pieces(r.0.users.0@) == pushed(pieces(path@), "users"@),
            pieces(r.0.worlds.0@) == pushed(pieces(path@), "worlds"@),
            r.1@.len() == 3,
            forall|i: int| 0 <= i < 3 ==> pieces(#[trigger] r.1@[i]@) == prefix_folders(
                pieces(path@),
            )[i],
    {
        (
            ServerPrefix {
                path: copy_path(path),
                users: UserPrefix::from(path),
                worlds: WorldPrefix::from(path),
            },
            ServerPrefix::init_folders(path),
        )
    }

    /// The folders to make for the prefix at `path`.
    pub fn init_folders(path: &[String]) -> (r: Vec<Vec<String>>)
        ensures
            r@.len() == 3,
            forall|i: int| 0 <= i < 3 ==> pieces(#[trigger] r@[i]@) == prefix_folders(
                pieces(path@),
            )[i],
    {
        let mut folders: Vec<Vec<String>> = Vec::new();
        folders.push(push_piece(path, ""));
        folders.push(push_piece(path, "worlds"));
        folders.push(push_piece(path, "users"));
        folders
    }
}

} // verus!
