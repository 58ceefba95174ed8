//! Network-facing core of a game server: a byte-exact codec for a
//! length-prefixed wire protocol, the per-connection protocol state machine,
//! and the session registry that connects the connections to the simulation
//! loop. Every function here is verified; sockets, files and threads live in
//! the program around this library.

pub mod varint;
pub mod wire;
pub mod types;
pub mod packets;
pub mod packets_status;
pub mod packets_login;
pub mod packets_play;
pub mod frame;
pub mod config;
pub mod ident;
pub mod status;
pub mod mode;
pub mod records;
pub mod msg;
pub mod auth;
pub mod connection;
pub mod registry;
pub mod prefix;
pub mod live;
pub mod init_flags;
pub mod init;
pub mod world;
pub mod game;
pub mod padded;
