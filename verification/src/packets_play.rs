//! The packets of the play phase.

use crate::packets::{
    field, lemma_field, lemma_regroup, lemma_start, read_field, write_field, JeChat, JePacket,
    JePacketError,
};
use crate::types::{string_fits, JeType, JeVarInt};
use vstd::prelude::*;

verus! {

/// Server to client: the player is removed from the game, and why.
#[derive(Debug, Default, Clone, PartialEq, Eq)]
pub struct JePlayDisconnect {
    pub reason: JeChat,
}

impl View for JePlayDisconnect {
    type V = Seq<char>;

    open spec fn view(&self) -> Seq<char> {
        self.reason@
    }
}

impl JePacket for JePlayDisconnect {
    open spec fn packet_id() -> i32 {
        0x1b
    }

    open spec fn wire_ok(v: Seq<char>) -> bool {
        JeChat::wire_ok(v)
    }

    open spec fn wire(v: Seq<char>) -> Seq<u8> {
        JeChat::wire(v)
    }

    open spec fn parse(bytes: Seq<u8>) -> Result<Seq<char>, JePacketError> {
        match field::<JeChat>(bytes, 0, 0) {
            Err(e) => Err(e),
            Ok((reason, _)) => Ok(reason),
        }
    }

    proof fn lemma_round_trip(v: Seq<char>, rest: Seq<u8>) {
        let all = Self::wire(v) + rest;
        lemma_start(all);
        lemma_field::<JeChat>(all, 0, v, rest, 0);
    }

    fn get_packet_id(&self) -> (id: JeVarInt) {
        JeVarInt(0x1b)
    }

    fn fits(&self) -> (b: bool) {
        string_fits(self.reason.0.as_str())
    }

    fn try_from_raw(be_bytes: &[u8]) -> (r: Result<Self, JePacketError>) {
        match read_field::<JeChat>(be_bytes, 0, 0) {
            Ok((reason, _)) => Ok(JePlayDisconnect { reason }),
            Err(e) => Err(e),
        }
    }

    fn to_vec_u8(&self) -> (r: Vec<u8>) {
        let mut result: Vec<u8> = Vec::with_capacity(200);
        write_field(&mut result, &self.reason);
        assert(result@ =~= Self::wire(self@));
        result
    }
}

/// Server to client: the player enters the world.
#[derive(Debug, Default, Clone, PartialEq, Eq)]
pub struct JeJoinGame {
    pub entity_id: i32,
    pub gamemode: u8,
    pub dimension: i32,
    pub hashed_seed: i64,
    pub max_players: u8,
    pub level_type: String,
    pub view_distance: JeVarInt,
    pub reduced_debug_info: bool,
    pub enable_respawn_screen: bool,
}

/// What a join-game packet holds.
pub struct JoinGameFields {
    pub entity_id: i32,
    pub gamemode: u8,
    pub dimension: i32,
    pub hashed_seed: i64,
    pub max_players: u8,
    pub level_type: Seq<char>,
    pub view_distance: i32,
    pub reduced_debug_info: bool,
    pub enable_respawn_screen: bool,
}

impl View for JeJoinGame {
    type V = JoinGameFields;

    open spec fn view(&self) -> JoinGameFields {
        JoinGameFields {
            entity_id: self.entity_id,
            gamemode: self.gamemode,
            dimension: self.dimension,
            hashed_seed: self.hashed_seed,
            max_players: self.max_players,
            level_type: self.level_type@,
            view_distance: self.view_distance.0,
            reduced_debug_info: self.reduced_debug_info,
            enable_respawn_screen: self.enable_respawn_screen,
        }
    }
}

/// The first five fields of a join-game packet.
pub open spec fn join_game_head(v: JoinGameFields) -> Seq<u8> {
    i32::wire(v.entity_id) + u8::wire(v.gamemode) + i32::wire(v.dimension) + i64::wire(
        v.hashed_seed,
    ) + u8::wire(v.max_players)
}

/// The last four fields of a join-game packet.
pub open spec fn join_game_tail(v: JoinGameFields) -> Seq<u8> {
    String::wire(v.level_type) + JeVarInt::wire(v.view_distance) + bool::wire(
        v.reduced_debug_info,
    ) + bool::wire(v.enable_respawn_screen)
}

impl JePacket for JeJoinGame {
    open spec fn packet_id() -> i32 {
        0x26
    }

    open spec fn wire_ok(v: JoinGameFields) -> bool {
        String::wire_ok(v.level_type)
    }

    open spec fn wire(v: JoinGameFields) -> Seq<u8> {
        join_game_head(v) + join_game_tail(v)
    }

    open spec fn parse(bytes: Seq<u8>) -> Result<JoinGameFields, JePacketError> {
        match field::<i32>(bytes, 0, 0) {
            Err(e) => Err(e),
            Ok((entity_id, a)) => match field::<u8>(bytes, a, 1) {
                Err(e) => Err(e),
                Ok((gamemode, b)) => match field::<i32>(bytes, b, 2) {
                    Err(e) => Err(e),
                    Ok((dimension, c)) => match field::<i64>(bytes, c, 3) {
                        Err(e) => Err(e),
                        Ok((hashed_seed, d)) => match field::<u8>(bytes, d, 4) {
                            Err(e) => Err(e),
                            Ok((max_players, e)) => match field::<String>(bytes, e, 5) {
                                Err(e) => Err(e),
                                Ok((level_type, f)) => match field::<JeVarInt>(bytes, f, 6) {
                                    Err(e) => Err(e),
                                    Ok((view_distance, g)) => match field::<bool>(bytes, g, 7) {
                                        Err(e) => Err(e),
                                        Ok((reduced_debug_info, h)) => match field::<bool>(
                                            bytes,
                                            h,
                                            8,
                                        ) {
                                            Err(e) => Err(e),
                                            Ok((enable_respawn_screen, _)) => Ok(
                                                JoinGameFields {
                                                    entity_id,
                                                    gamemode,
                                                    dimension,
                                                    hashed_seed,
                                                    max_players,
                                                    level_type,
                                                    view_distance,
                                                    reduced_debug_info,
                                                    enable_respawn_screen,
                                                },
                                            ),
                                        },
                                    },
                                },
                            },
                        },
                    },
                },
            },
        }
    }

    proof fn lemma_round_trip(v: JoinGameFields, rest: Seq<u8>) {
        let f0 = i32::wire(v.entity_id);
        let f1 = u8::wire(v.gamemode);
        let f2 = i32::wire(v.dimension);
        let f3 = i64::wire(v.hashed_seed);
        let f4 = u8::wire(v.max_players);
        let f5 = String::wire(v.level_type);
        let f6 = JeVarInt::wire(v.view_distance);
        let f7 = bool::wire(v.reduced_debug_info);
        let f8 = bool::wire(v.enable_respawn_screen);
        let all = Self::wire(v) + rest;
        let t8 = f8 + rest;
        let t7 = f7 + t8;
        let t6 = f6 + t7;
        let t5 = f5 + t6;
        let t4 = f4 + t5;
        let t3 = f3 + t4;
        let t2 = f2 + t3;
        let t1 = f1 + t2;
        lemma_regroup(f5 + f6 + f7, f8, rest);
        lemma_regroup(f5 + f6, f7, t8);
        lemma_regroup(f5, f6, t7);
        assert(join_game_tail(v) + rest == t5);
        lemma_regroup(join_game_head(v), join_game_tail(v), rest);
        lemma_regroup(f0 + f1 + f2 + f3, f4, t5);
        lemma_regroup(f0 + f1 + f2, f3, t4);
        lemma_regroup(f0 + f1, f2, t3);
        lemma_regroup(f0, f1, t2);
        assert(all == f0 + t1);
        lemma_start(all);
        lemma_field::<i32>(all, 0, v.entity_id, t1, 0);
        let a = f0.len();
        lemma_field::<u8>(all, a, v.gamemode, t2, 1);
        let b = a + f1.len();
        lemma_field::<i32>(all, b, v.dimension, t3, 2);
        let c = b + f2.len();
        lemma_field::<i64>(all, c, v.hashed_seed, t4, 3);
        let d = c + f3.len();
        lemma_field::<u8>(all, d, v.max_players, t5, 4);
        let e = d + f4.len();
        lemma_field::<String>(all, e, v.level_type, t6, 5);
        let f = e + f5.len();
        lemma_field::<JeVarInt>(all, f, v.view_distance, t7, 6);
        let g = f + f6.len();
        lemma_field::<bool>(all, g, v.reduced_debug_info, t8, 7);
        let h = g + f7.len();
        lemma_field::<bool>(all, h, v.enable_respawn_screen, rest, 8);
    }

    fn get_packet_id(&self) -> (id: JeVarInt) {
        JeVarInt(0x26)
    }

    fn fits(&self) -> (b: bool) {
        string_fits(self.level_type.as_str())
    }

    fn try_from_raw(be_bytes: &[u8]) -> (r: Result<Self, JePacketError>) {
        let (entity_id, a) = match read_field::<i32>(be_bytes, 0, 0) {
            Ok(found) => found,
            Err(e) => { return Err(e); },
        };
        let (gamemode, b) = match read_field::<u8>(be_bytes, a, 1) {
            Ok(found) => found,
            Err(e) => { return Err(e); },
        };
        let (dimension, c) = match read_field::<i32>(be_bytes, b, 2) {
            Ok(found) => found,
            Err(e) => { return Err(e); },
        };
        let (hashed_seed, d) = match read_field::<i64>(be_bytes, c, 3) {
            Ok(found) => found,
            Err(e) => { return Err(e); },
        };
        let (max_players, e) = match read_field::<u8>(be_bytes, d, 4) {
            Ok(found) => found,
            Err(e) => { return Err(e); },
        };
        let (level_type, f) = match read_field::<String>(be_bytes, e, 5) {
            Ok(found) => found,
            Err(e) => { return Err(e); },
        };
        let (view_distance, g) = match read_field::<JeVarInt>(be_bytes, f, 6) {
            Ok(found) => found,
            Err(e) => { return Err(e); },
        };
        let (reduced_debug_info, h) = match read_field::<bool>(be_bytes, g, 7) {
            Ok(found) => found,
            Err(e) => { return Err(e); },
        };
        let (enable_respawn_screen, _) = match read_field::<bool>(be_bytes, h, 8) {
            Ok(found) => found,
            Err(e) => { return Err(e); },
        };
        Ok(
            JeJoinGame {
                entity_id,
                gamemode,
                dimension,
                hashed_seed,
                max_players,
                level_type,
                view_distance,
                reduced_debug_info,
                enable_respawn_screen,
            },
        )
    }

    fn to_vec_u8(&self) -> (r: Vec<u8>) {
        let mut result: Vec<u8> = Vec::with_capacity(200);
        write_field(&mut result, &self.entity_id);
        write_field(&mut result, &self.gamemode);
        write_field(&mut result, &self.dimension);
        write_field(&mut result, &self.hashed_seed);
        write_field(&mut result, &self.max_players);
        assert(result@ =~= join_game_head(self@));
        let mut tail: Vec<u8> = Vec::new();
        write_field(&mut tail, &self.level_type);
        write_field(&mut tail, &self.view_distance);
        write_field(&mut tail, &self.reduced_debug_info);
        write_field(&mut tail, &self.enable_respawn_screen);
        assert(tail@ =~= join_game_tail(self@));
        result.append(&mut tail);
        result
    }
}

/// Server to client: a column of the world. It has no fields yet.
#[derive(Debug, Default, Clone, Copy, PartialEq, Eq, Structural)]
pub struct JeChunk {}

impl View for JeChunk {
    type V = ();

    open spec fn view(&self) -> () {
        ()
    }
}

impl JePacket for JeChunk {
    open spec fn packet_id() -> i32 {
        0x22
    }

    open spec fn wire_ok(v: ()) -> bool {
        true
    }

    open spec fn wire(v: ()) -> Seq<u8> {
        Seq::empty()
    }

    open spec fn parse(bytes: Seq<u8>) -> Result<(), JePacketError> {
        Ok(())
    }

    proof fn lemma_round_trip(v: (), rest: Seq<u8>) {
    }

    fn get_packet_id(&self) -> (id: JeVarInt) {
        JeVarInt(0x22)
    }

    fn fits(&self) -> (b: bool) {
        true
    }

    fn try_from_raw(be_bytes: &[u8]) -> (r: Result<Self, JePacketError>) {
        Ok(JeChunk {  })
    }

    fn to_vec_u8(&self) -> (r: Vec<u8>) {
        Vec::with_capacity(200)
    }
}

} // verus!
