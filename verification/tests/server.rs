use craftmine::config::{
    ConfigAuth, ConfigCap, ConfigCollection, ConfigExp, ConfigInit, ConfigNet, ConfigPerf,
    PerfWarning,
};
use craftmine::game::{GameNote, GameServer};
use craftmine::init::{RunState, ServerInitWarn, ServerInitializer, ServerStatus};
use craftmine::init_flags::{path_string, InitFlags, ValidatedInitFlags};
use craftmine::live::{Live, Snapshot};
use craftmine::mode::{Dimension, Gamemode};
use craftmine::msg::{NetRecvInner, NetRecvMsg, NetSendMsg};
use craftmine::packets::JePacket;
use craftmine::packets_play::JeJoinGame;
use craftmine::prefix::{
    copy_path, push_piece, ServerPrefix, ServerPrefixError, UserPrefix, WorldPrefix,
};
use craftmine::records::{
    BlockId, InternalUserRecord, LocalityRecord, PersistId, SerializedUserRecord,
};
use craftmine::types::JeVarInt;
use craftmine::world::{
    CgOperation, Entity, GameruleCollection, PersistUuidAllocator, World, WorldProperty,
    WorldSeed,
};

fn path(pieces: &[&str]) -> Vec<String> {
    pieces.iter().map(|p| p.to_string()).collect()
}

fn collection() -> ConfigCollection {
    ConfigCollection {
        auth: ConfigAuth::default(),
        cap: ConfigCap::default(),
        exp: ConfigExp::default(),
        init: ConfigInit::default(),
        net: ConfigNet::default(),
        perf: ConfigPerf::default(),
    }
}

fn world(next_eid: i32) -> World {
    let mut w = World::new(
        WorldProperty {
            dimension: Dimension::Nether,
            seed: WorldSeed::from_raw(42),
            hashed_seed: -99,
            level_type: "flat".to_owned(),
            default_spawn: LocalityRecord::default(),
            default_gamemode: Gamemode::Survival,
            rules: GameruleCollection { do_immediate_respawn: false },
        },
        collection(),
    );
    w.next_eid = next_eid;
    w
}

fn entity() -> Entity {
    Entity { max_health: 20, health: 18, loc: LocalityRecord::default() }
}

fn user(name: &str, world: &str) -> SerializedUserRecord {
    SerializedUserRecord {
        username: name.to_owned(),
        world: world.to_owned(),
        locality: LocalityRecord::default(),
        uuid: Some(5),
        online: true,
        gamemode: Gamemode::Adventure,
        persist_id: PersistId(6),
    }
}

fn expected_join(eid: i32) -> JeJoinGame {
    JeJoinGame {
        entity_id: eid,
        gamemode: 2,
        dimension: -1,
        hashed_seed: -99,
        max_players: 20,
        level_type: "flat".to_owned(),
        view_distance: JeVarInt(16),
        reduced_debug_info: false,
        enable_respawn_screen: true,
    }
}

#[test]
fn game_modes_and_dimensions_as_numbers() {
    assert_eq!(u8::from(Gamemode::Survival), 0);
    assert_eq!(u8::from(Gamemode::Creative), 1);
    assert_eq!(u8::from(Gamemode::Adventure), 2);
    assert_eq!(u8::from(Gamemode::Spectator), 3);
    let g: u8 = Gamemode::Spectator.into();
    assert_eq!(g, 3);
    assert_eq!(i8::from(Dimension::Nether), -1);
    assert_eq!(i8::from(Dimension::Overworld), 0);
    assert_eq!(i8::from(Dimension::End), 1);
}

#[test]
fn locality_default_is_at_height_64() {
    assert_eq!(
        LocalityRecord::default(),
        LocalityRecord {
            x: 0,
            y: 64,
            z: 0,
            yaw: 0,
            pitch: 0,
            head_pitch: 0,
            vel_x: 0,
            vel_y: 0,
            vel_z: 0
        }
    );
}

#[test]
fn record_copies() {
    let u = user("Alice", "overworld");
    let internal = u.to_internal_copy();
    assert_eq!(
        internal,
        InternalUserRecord {
            username: "Alice".to_owned(),
            world: "overworld".to_owned(),
            locality: LocalityRecord::default(),
            online: true,
            gamemode: Gamemode::Adventure,
            persist_id: PersistId(6),
        }
    );
    assert_eq!(internal.to_serialized_copy(Some(5)), u);
    assert_eq!(internal.to_serialized_copy(None).uuid, None);
    assert_eq!(u.session_uuid(), 5);
    assert_eq!(internal.to_serialized_copy(None).session_uuid(), 6);
}

#[test]
fn block_id_text() {
    assert_eq!(BlockId { maj: 1, min: 0 }.to_string(), "(1:0)");
    assert_eq!(BlockId { maj: 65535, min: 12 }.to_string(), "(65535:12)");
}

#[test]
fn offline_identity_is_the_version_five_uuid_of_the_name() {
    let id = PersistUuidAllocator::new_offline_user("Alice");
    let expected = uuid::Uuid::new_v5(&uuid::Uuid::NAMESPACE_OID, b"Alice");
    assert_eq!(id, PersistId(expected.as_u128()));
    assert_eq!(expected.get_version_num(), 5);
    assert_eq!(PersistUuidAllocator::new_offline_user("Alice"), id);
    assert_ne!(PersistUuidAllocator::new_offline_user("Bob"), id);
    assert_ne!(PersistUuidAllocator::new_offline_user(""), id);
}

#[test]
fn online_identity_is_the_account_uuid() {
    assert_eq!(PersistUuidAllocator::new_online_user(77), PersistId(77));
}

#[test]
fn world_takes_a_user() {
    let mut w = world(10);
    let u = user("Alice", "overworld");
    assert_eq!(w.take_user(&u, entity()), Some(expected_join(10)));
    assert_eq!(w.next_eid, 11);
    assert_eq!(w._q_cg.len(), 1);
    match &w._q_cg[0] {
        CgOperation::NewUser { e, rec, e_data } => {
            assert_eq!(*e, 10);
            assert_eq!(rec, &u);
            assert_eq!(*e_data, entity());
        }
        _ => panic!("not a new user"),
    }
    assert_eq!(w.take_user(&u, entity()), Some(expected_join(11)));
    assert_eq!(w._q_cg.len(), 2);
}

#[test]
fn world_without_entity_numbers_takes_nobody() {
    let mut w = world(i32::MAX);
    assert_eq!(w.take_user(&user("Alice", "overworld"), entity()), None);
    assert_eq!(w.next_eid, i32::MAX);
    assert_eq!(w._q_cg.len(), 0);
    let mut last = world(i32::MAX - 1);
    assert_eq!(
        last.take_user(&user("Alice", "overworld"), entity()),
        Some(expected_join(i32::MAX - 1))
    );
    assert_eq!(last.take_user(&user("Alice", "overworld"), entity()), None);
}

#[test]
fn join_game_follows_the_rules_of_the_world() {
    let mut w = world(0);
    w.p.rules.do_immediate_respawn = true;
    w.p.dimension = Dimension::End;
    w.cc.perf.view_distance_chunks = 0x1_0000_0007;
    let pk = w.take_user(&user("Alice", "overworld"), entity()).unwrap();
    assert!(!pk.enable_respawn_screen);
    assert_eq!(pk.dimension, 1);
    assert_eq!(pk.view_distance, JeVarInt(7));
}

#[test]
fn speculative_entity_number() {
    let mut w = world(3);
    let u = user("Alice", "overworld");
    match w.new_user_eid_speculative(&u, entity()) {
        Some((eid, CgOperation::NewUser { e, rec, e_data })) => {
            assert_eq!(eid, 3);
            assert_eq!(e, 3);
            assert_eq!(rec, u);
            assert_eq!(e_data, entity());
        }
        _ => panic!("no number"),
    }
    assert_eq!(w.next_eid, 4);
    assert_eq!(w._q_cg.len(), 0);
}

#[test]
fn the_loop_notes_events() {
    let mut gs = GameServer::new(collection());
    gs.add_world("overworld".to_owned(), world(1));
    let joined = NetRecvMsg {
        uuid: 5,
        inner: NetRecvInner::NewSession { username: "Alice".to_owned(), online: true },
    };
    let left = NetRecvMsg { uuid: 5, inner: NetRecvInner::EndSession };
    let packet = NetRecvMsg { uuid: 5, inner: NetRecvInner::Packet { id: 1, data: vec![] } };
    assert_eq!(
        gs.process_event(&joined),
        GameNote::LoadUser { uuid: 5, username: "Alice".to_owned(), online: true }
    );
    assert_eq!(gs.process_event(&left), GameNote::Inconsistent(5));
    assert_eq!(gs.process_event(&packet), GameNote::Nothing);
    assert!(!gs.knows(5));
    gs.on_user_loaded(5, Some(user("Alice", "overworld")), entity());
    assert!(gs.knows(5));
    assert_eq!(
        gs.process_tick(&[left.clone(), packet, joined, left]),
        vec![
            GameNote::Left { uuid: 5, username: "Alice".to_owned() },
            GameNote::Nothing,
            GameNote::LoadUser { uuid: 5, username: "Alice".to_owned(), online: true },
            GameNote::Left { uuid: 5, username: "Alice".to_owned() },
        ]
    );
    assert_eq!(gs.process_tick(&[]), vec![]);
}

#[test]
fn the_loop_lets_a_user_into_a_world() {
    let mut gs = GameServer::new(collection());
    gs.add_world("overworld".to_owned(), world(1));
    gs.add_world("full".to_owned(), world(i32::MAX));
    assert_eq!(
        gs.on_user_loaded(5, Some(user("Alice", "overworld")), entity()),
        Some(NetSendMsg::Single(5, 0x26, expected_join(1).to_vec_u8()))
    );
    assert_eq!(
        gs.accept_user(&user("Bob", "overworld"), entity()),
        Some(NetSendMsg::Single(5, 0x26, expected_join(2).to_vec_u8()))
    );
    assert_eq!(
        gs.accept_user(&user("Bob", "full"), entity()),
        Some(NetSendMsg::Disconnect(5, "World full failed to accept user".to_owned()))
    );
    assert_eq!(gs.accept_user(&user("Bob", "nowhere"), entity()), None);
    // The full world is still there, and still full.
    assert_eq!(
        gs.accept_user(&user("Bob", "full"), entity()),
        Some(NetSendMsg::Disconnect(5, "World full failed to accept user".to_owned()))
    );
}

#[test]
fn the_loop_turns_away_a_user_without_a_record() {
    let mut gs = GameServer::new(collection());
    gs.add_world("overworld".to_owned(), world(1));
    assert_eq!(
        gs.on_user_loaded(9, None, entity()),
        Some(NetSendMsg::Disconnect(9, "Failed to access user records".to_owned()))
    );
    assert!(!gs.knows(9));
}

#[test]
fn the_loop_is_told_to_pause_start_and_stop() {
    let mut gs = GameServer::new(collection());
    assert_eq!(gs.state(), RunState::Running);
    assert!(!gs.on_status(ServerStatus::Start));
    assert_eq!(gs.state(), RunState::Running);
    assert!(!gs.on_status(ServerStatus::Pause));
    assert_eq!(gs.state(), RunState::Paused);
    assert!(!gs.on_status(ServerStatus::Pause));
    assert_eq!(gs.state(), RunState::Paused);
    assert!(!gs.on_status(ServerStatus::Start));
    assert_eq!(gs.state(), RunState::Running);
    assert!(gs.on_status(ServerStatus::Stop));
    assert_eq!(gs.state(), RunState::Stopped);
    assert!(!gs.on_status(ServerStatus::Start));
    assert_eq!(gs.state(), RunState::Stopped);
    assert!(!gs.stop());
    let mut paused = GameServer::new(collection());
    paused.on_status(ServerStatus::Pause);
    assert!(paused.stop());
    assert_eq!(paused.state(), RunState::Stopped);
    assert_eq!(gs.cc().auth.max_players, 20);
}

#[test]
fn run_state_steps() {
    assert_eq!(RunState::Running.on_status(ServerStatus::Stop), (RunState::Stopped, true));
    assert_eq!(RunState::Paused.on_status(ServerStatus::Stop), (RunState::Stopped, true));
    assert_eq!(RunState::Stopped.on_status(ServerStatus::Stop), (RunState::Stopped, false));
    assert_eq!(RunState::Running.on_status(ServerStatus::Pause), (RunState::Paused, false));
    assert_eq!(RunState::Paused.on_status(ServerStatus::Start), (RunState::Running, false));
}

#[test]
fn a_missing_configuration_needs_no_interaction() {
    assert_eq!(ServerInitWarn::NoConfig.to_kv(), (ServerInitWarn::NoConfig, false));
}

#[test]
fn prefix_paths() {
    let base = path(&["srv", "mc"]);
    assert_eq!(push_piece(&base, "x"), path(&["srv", "mc", "x"]));
    assert_eq!(copy_path(&base), base);
    let users = UserPrefix::from(&base);
    assert_eq!(users.0, path(&["srv", "mc", "users"]));
    assert_eq!(users.online_path(), path(&["srv", "mc", "users", "online"]));
    assert_eq!(users.offline_path(), path(&["srv", "mc", "users", "offline"]));
    assert_eq!(
        users.record_path("550e8400-e29b-41d4-a716-446655440000"),
        path(&["srv", "mc", "users", "550e8400-e29b-41d4-a716-446655440000.json"])
    );
    assert_eq!(WorldPrefix::from(&base).0, path(&["srv", "mc", "worlds"]));
    assert_eq!(UserPrefix::from(&[]).0, path(&["users"]));
}

#[test]
fn prefix_and_its_folders() {
    let base = path(&["srv", "mc"]);
    let (prefix, folders) = ServerPrefix::load_or_new(&base);
    assert_eq!(
        prefix,
        ServerPrefix {
            path: base.clone(),
            users: UserPrefix(path(&["srv", "mc", "users"])),
            worlds: WorldPrefix(path(&["srv", "mc", "worlds"])),
        }
    );
    assert_eq!(
        folders,
        vec![
            path(&["srv", "mc", ""]),
            path(&["srv", "mc", "worlds"]),
            path(&["srv", "mc", "users"]),
        ]
    );
    assert_eq!(ServerPrefix::init_folders(&base), folders);
}

#[test]
fn prefix_errors_in_words() {
    assert_eq!(ServerPrefixError::AlreadyExists.to_string(), "already exists");
    assert_eq!(
        ServerPrefixError::IoError("denied".to_owned()).to_string(),
        "IO error - denied"
    );
    assert_eq!(
        ServerPrefixError::GenericError("odd".to_owned()).to_string(),
        "Generic error - odd"
    );
}

#[test]
fn flags_that_are_given_are_taken() {
    let flags = InitFlags {
        prefix: Some(path(&["srv", "mc"])),
        config_path: Some(path(&["etc", "mc"])),
        je_port: Some(1),
        be_port: Some(2),
        daemon: true,
        bind_addr: Some("127.0.0.1".to_owned()),
    };
    assert_eq!(
        flags.to_validated(&path(&["home"])),
        Ok(ValidatedInitFlags {
            prefix: (path(&["srv", "mc"]), vec![]),
            config_path: (path(&["etc", "mc"]), vec![]),
            je_port: (1, vec![]),
            be_port: (2, vec![]),
            bind_addr: ("127.0.0.1".to_owned(), vec![]),
        })
    );
}

#[test]
fn flags_that_are_missing_have_defaults_and_notes() {
    let flags = InitFlags {
        prefix: None,
        config_path: None,
        je_port: None,
        be_port: None,
        daemon: false,
        bind_addr: None,
    };
    let expected = ValidatedInitFlags {
        prefix: (
            path(&["home", "mc"]),
            vec!["Using current dir \"home/mc\" as prefix".to_owned()],
        ),
        config_path: (
            path(&["home", "mc", "config"]),
            vec!["Using default path \"home/mc/config\"".to_owned()],
        ),
        je_port: (25565, vec!["Using default port 25565".to_owned()]),
        be_port: (9999, vec!["Using default BE port 9999, which is not served yet".to_owned()]),
        bind_addr: (
            "0.0.0.0".to_owned(),
            vec!["Using default bind address 0.0.0.0".to_owned()],
        ),
    };
    assert_eq!(flags.to_validated(&path(&["home", "mc"])), Ok(expected.clone()));
    assert_eq!(
        ValidatedInitFlags::from_init(&flags, &path(&["home", "mc"])),
        Ok(expected.clone())
    );
    assert_eq!(expected.clone(), expected);
}

#[test]
fn the_default_configuration_path_is_under_the_prefix_given() {
    let flags = InitFlags {
        prefix: Some(path(&["srv"])),
        config_path: None,
        je_port: None,
        be_port: None,
        daemon: false,
        bind_addr: None,
    };
    let v = flags.to_validated(&path(&["home"])).unwrap();
    assert_eq!(v.prefix, (path(&["srv"]), vec![]));
    assert_eq!(
        v.config_path,
        (path(&["srv", "config"]), vec!["Using default path \"srv/config\"".to_owned()])
    );
}

#[test]
fn path_text() {
    assert_eq!(path_string(&[]), "\"\"");
    assert_eq!(path_string(&path(&["a"])), "\"a\"");
    assert_eq!(path_string(&path(&["a", "b", "c"])), "\"a/b/c\"");
}

#[test]
fn errors_of_making_the_prefix() {
    let flags = InitFlags {
        prefix: Some(path(&["srv"])),
        config_path: None,
        je_port: None,
        be_port: None,
        daemon: false,
        bind_addr: None,
    };
    let v = flags.to_validated(&path(&["home"])).unwrap();
    let outcomes = vec![
        (path(&["srv", ""]), None),
        (path(&["srv", "worlds"]), Some(ServerPrefixError::IoError("denied".to_owned()))),
        (path(&["srv", "users"]), None),
        (path(&["srv", "x"]), Some(ServerPrefixError::AlreadyExists)),
    ];
    assert_eq!(
        v.try_create_prefix(&outcomes),
        vec!["IO error - denied".to_owned(), "already exists".to_owned()]
    );
    assert_eq!(v.try_create_prefix(&[]), Vec::<String>::new());
    assert_eq!(v.try_create_prefix(&outcomes[..1]), Vec::<String>::new());
}

#[test]
fn live_and_snapshot() {
    let live = Live::new(vec![1u8, 2, 3]);
    let snap: Snapshot<Vec<u8>> = live.snapshot();
    assert_eq!(snap.get(), &vec![1u8, 2, 3]);
    assert_eq!(live.get(), &vec![1u8, 2, 3]);
    assert_eq!(Snapshot::new(7u8).get(), &7);
}

#[test]
fn port_reports() {
    assert_eq!(
        ServerInitializer::port_report("JE", 25565, true),
        Ok("JE: port 25565 available".to_owned())
    );
    assert_eq!(
        ServerInitializer::port_report("BE", 9999, false),
        Err("Failed to bind to BE port 9999".to_owned())
    );
    assert_eq!(ServerInitializer::port_report("", 0, true), Ok(": port 0 available".to_owned()));
}

#[test]
fn performance_warnings() {
    let mut perf = ConfigPerf::default();
    assert_eq!(perf.warnings(8), vec![]);
    assert_eq!(perf.warnings(5), vec![]);
    assert_eq!(perf.warnings(4), vec![PerfWarning::FewCores(4)]);
    perf.items_dropped_ttl = 600;
    assert_eq!(perf.warnings(8), vec![]);
    perf.items_dropped_ttl = 601;
    assert_eq!(perf.warnings(8), vec![PerfWarning::LongItemTtl(601)]);
    perf.smp_threads_tick = Some(6);
    assert_eq!(perf.warnings(8), vec![PerfWarning::LongItemTtl(601)]);
    perf.smp_threads_tick = Some(7);
    assert_eq!(
        perf.warnings(8),
        vec![
            PerfWarning::LongItemTtl(601),
            PerfWarning::ManyTickThreads { set: 7, recommended: 6 }
        ]
    );
    assert_eq!(
        perf.warnings(1),
        vec![
            PerfWarning::FewCores(1),
            PerfWarning::LongItemTtl(601),
            PerfWarning::ManyTickThreads { set: 7, recommended: 0 }
        ]
    );
    perf.smp_threads_tick = Some(0);
    assert_eq!(perf.warnings(0), vec![PerfWarning::FewCores(0), PerfWarning::LongItemTtl(601)]);
}

#[test]
fn the_record_of_a_new_player() {
    let users = UserPrefix(path(&["srv", "users"]));
    let props = world(0).p;
    let cc = collection();
    let (file, record) = users.load_or_new_online(5, "Alice", &cc, &props);
    assert_eq!(file, path(&["srv", "users", "00000000-0000-0000-0000-000000000005.json"]));
    assert_eq!(
        record,
        SerializedUserRecord {
            username: "Alice".to_owned(),
            world: "overworld".to_owned(),
            locality: LocalityRecord::default(),
            uuid: Some(5),
            online: true,
            gamemode: Gamemode::Survival,
            persist_id: PersistId(5),
        }
    );
    let (file, record) = users.load_or_new_offline("Alice", &cc, &props);
    let id = uuid::Uuid::new_v5(&uuid::Uuid::NAMESPACE_OID, b"Alice");
    assert_eq!(file, path(&["srv", "users", &format!("{}.json", id.to_hyphenated())]));
    assert_eq!(record.persist_id, PersistId(id.as_u128()));
    assert_eq!(record.uuid, None);
    assert_eq!(record.username, "Alice");
    assert_eq!(record.world, "overworld");
    assert_eq!(record.session_uuid(), id.as_u128());
}

#[test]
fn a_new_world() {
    let w = world(0);
    assert_eq!(w.next_eid, 0);
    assert_eq!(w._q_cg.len(), 0);
    assert_eq!(w.eid_cg_lookup.len(), 0);
    assert_eq!(w.cc, collection());
}

#[test]
fn entity_numbers_are_noted_with_their_group() {
    let mut w = world(7);
    assert_eq!(w.new_eid(100), Some(7));
    assert_eq!(w.new_eid(200), Some(8));
    assert_eq!(w.new_eid(100), Some(9));
    assert_eq!(w.next_eid, 10);
    assert_eq!(w.group_of(7), Some(100));
    assert_eq!(w.group_of(8), Some(200));
    assert_eq!(w.group_of(9), Some(100));
    assert_eq!(w.group_of(10), None);
    assert_eq!(w.group_of(6), None);
    assert_eq!(w._q_cg.len(), 0);
    let mut full = world(i32::MAX);
    assert_eq!(full.new_eid(1), None);
    assert_eq!(full.next_eid, i32::MAX);
    assert_eq!(full.group_of(i32::MAX), None);
}
