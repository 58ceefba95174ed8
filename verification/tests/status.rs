use craftmine::config::{
    ConfigAuth, ConfigCap, ConfigChunkPools, ConfigCollection, ConfigExp, ConfigInit, ConfigNet,
    ConfigPerf, PartialTickProcessingType,
};
use craftmine::status::{decimal_string, server_response_json, ServerJsonStatus};

fn collection() -> ConfigCollection {
    ConfigCollection {
        auth: ConfigAuth::default(),
        cap: ConfigCap::default(),
        exp: ConfigExp::default(),
        init: ConfigInit::default(),
        net: ConfigNet::default(),
        perf: ConfigPerf::default(),
    }
}

fn object(members: Vec<(&str, serde_json::Value)>) -> serde_json::Value {
    let mut map = serde_json::Map::new();
    for (k, v) in members {
        map.insert(k.to_owned(), v);
    }
    serde_json::Value::Object(map)
}

fn reference_document(
    name: &str,
    protocol: u16,
    max: u64,
    online: u64,
    desc: &str,
) -> serde_json::Value {
    object(vec![
        (
            "version",
            object(vec![
                ("name", serde_json::Value::from(name)),
                ("protocol", serde_json::Value::from(protocol)),
            ]),
        ),
        (
            "players",
            object(vec![
                ("max", serde_json::Value::from(max)),
                ("online", serde_json::Value::from(online)),
                ("sample", serde_json::Value::Array(vec![])),
            ]),
        ),
        (
            "description",
            object(vec![
                (
                    "extra",
                    serde_json::Value::Array(vec![object(vec![(
                        "text",
                        serde_json::Value::from(desc),
                    )])]),
                ),
                ("text", serde_json::Value::from("")),
            ]),
        ),
    ])
}

#[test]
fn the_status_document() {
    assert_eq!(
        server_response_json("CM TEST", 578, 20, 0, "CraftMine Test Server", ""),
        "{\"description\":{\"extra\":[{\"text\":\"CraftMine Test Server\"}],\"text\":\"\"},\
         \"players\":{\"max\":20,\"online\":0,\"sample\":[]},\
         \"version\":{\"name\":\"CM TEST\",\"protocol\":578}}"
    );
}

#[test]
fn the_status_document_with_a_favicon() {
    assert_eq!(
        server_response_json("a", 1, 2, 3, "b", "data:image/png;base64,AAAA"),
        "{\"description\":{\"extra\":[{\"text\":\"b\"}],\"text\":\"\"},\
         \"favicon\":\"data:image/png;base64,AAAA\",\
         \"players\":{\"max\":2,\"online\":3,\"sample\":[]},\
         \"version\":{\"name\":\"a\",\"protocol\":1}}"
    );
}

#[test]
fn the_status_document_is_what_the_json_library_writes() {
    let cases: Vec<(&str, u16, u64, u64, &str)> = vec![
        ("CM TEST", 578, 20, 0, "CraftMine Test Server"),
        ("", 0, 0, 0, ""),
        ("quote \" and \\ backslash", 65535, u64::MAX, 12345678901234567890, "line\nbreak\ttab"),
        ("ünïcödé ✓", 47, 255, 254, "control \u{1} \u{1f} char"),
    ];
    for (name, protocol, max, online, desc) in cases {
        let ours = server_response_json(name, protocol, max, online, desc, "");
        let reference = reference_document(name, protocol, max, online, desc);
        assert_eq!(ours, serde_json::to_string(&reference).unwrap());
        let parsed: serde_json::Value = serde_json::from_str(&ours).unwrap();
        assert_eq!(parsed, reference);
        assert_eq!(parsed["version"]["name"], serde_json::Value::from(name));
        assert_eq!(parsed["description"]["extra"][0]["text"], serde_json::Value::from(desc));
    }
}

#[test]
fn strings_are_escaped() {
    let doc = server_response_json("a\"b", 1, 1, 1, "c\\d", "");
    assert!(doc.contains("\"name\":\"a\\\"b\""));
    assert!(doc.contains("\"text\":\"c\\\\d\""));
}

#[test]
fn status_of_a_fresh_server() {
    let status = ServerJsonStatus::from(&collection());
    assert_eq!(
        status,
        ServerJsonStatus {
            server_name: "CraftMine".to_owned(),
            server_protocol: 578,
            online_players: 0,
            max_players: 20,
            desc: "A CraftMine server (CraftMine)".to_owned(),
            favicon: String::new(),
        }
    );
    assert_eq!(
        status.to_json(),
        server_response_json("CraftMine", 578, 20, 0, "A CraftMine server (CraftMine)", "")
    );
}

#[test]
fn decimal_digits() {
    assert_eq!(decimal_string(0), "0");
    assert_eq!(decimal_string(7), "7");
    assert_eq!(decimal_string(10), "10");
    assert_eq!(decimal_string(578), "578");
    assert_eq!(decimal_string(1234567890), "1234567890");
    assert_eq!(decimal_string(u64::MAX), "18446744073709551615");
    let mut x: u64 = 3;
    for _ in 0..200 {
        x = x.wrapping_mul(6364136223846793005).wrapping_add(1442695040888963407);
        assert_eq!(decimal_string(x >> (x % 64)), format!("{}", x >> (x % 64)));
    }
}

#[test]
fn configuration_defaults() {
    let cc = collection();
    assert!(cc.auth.online_mode);
    assert_eq!(cc.auth.max_players, 20);
    assert_eq!(cc.auth.default_world_name, "overworld");
    assert_eq!(cc.net.sync_async_channel_len, 10000);
    assert_eq!(cc.net.web_addr_port, "127.0.0.1:8080");
    assert!(!cc.net.kick_invalid_packet);
    assert_eq!(cc.net.server_name, "CraftMine");
    assert_eq!(cc.net.server_description, "A CraftMine server (CraftMine)");
    assert_eq!(cc.exp.slime_push_limit, Some(8));
    assert_eq!(cc.exp.elytra_notify_ceiling, None);
    assert!(!cc.exp.piston_push_containers);
    assert_eq!(cc.perf.view_distance_chunks, 16);
    assert_eq!(cc.perf.items_dropped_ttl, 300);
    assert!(cc.perf.chunks_active_enable);
    assert_eq!(cc.perf.chunks_active_max, Some(32));
    assert!(cc.perf.spawn_active_keep);
    assert_eq!(cc.perf.smp_threads_tick, None);
    assert_eq!(cc.perf.target_tick_micros, 50_000);
    assert_eq!(
        cc.perf.chunks_pools,
        ConfigChunkPools {
            online_to_partial_scan_interval: 45,
            online_to_partial_distance_max: 8,
            online_to_partial_move_delay: 15,
            partial_keepalive_distance_max: 8,
            partial_to_suspended_move_delay: 120,
            partial_culling_whitelist: vec![
                PartialTickProcessingType::MobPassive,
                PartialTickProcessingType::MobHostile,
            ],
            suspended_ttl_max: 60,
            suspended_to_offline_move_delay: 60,
        }
    );
}

#[test]
fn configuration_file_names() {
    assert_eq!(ConfigAuth::get_filename(), "auth.json");
    assert_eq!(ConfigCap::get_filename(), "cap.json");
    assert_eq!(ConfigExp::get_filename(), "experimental.json");
    assert_eq!(ConfigInit::get_filename(), "init.json");
    assert_eq!(ConfigNet::get_filename(), "network.json");
    assert_eq!(ConfigPerf::get_filename(), "performance.json");
}
