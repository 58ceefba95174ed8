//! The server's configuration, as plain values. Reading and writing the
//! files is the program's work; the library holds what they say and what
//! holds where a file is missing.

use vstd::prelude::*;

verus! {

/// Who may log in, and how many.
#[derive(Debug, Clone, PartialEq, Eq)]
pub struct ConfigAuth {
    pub online_mode: bool,
    pub max_players: u8,
    pub default_world_name: String,
}

impl Default for ConfigAuth {
    fn default() -> (r: Self)
        ensures
            r.online_mode,
            r.max_players == 20,
            r.default_world_name@ == "overworld"@,
    {
        Self { online_mode: true, max_players: 20, default_world_name: "overworld".to_owned() }
    }
}

impl ConfigAuth {
    pub fn get_filename() -> (r: &'static str)
        ensures
            r@ == "auth.json"@,
    {
        "auth.json"
    }
}

#[derive(Debug, Clone, Copy, PartialEq, Eq, Structural)]
pub struct ConfigCap {}

impl Default for ConfigCap {
    fn default() -> (r: Self) {
        Self {  }
    }
}

impl ConfigCap {
    pub fn get_filename() -> (r: &'static str)
        ensures
            r@ == "cap.json"@,
    {
        "cap.json"
    }
}

/// Experimental options. The defaults are the game's usual behaviour.
#[derive(Debug, Clone, Copy, PartialEq, Eq, Structural)]
pub struct ConfigExp {
    /// Whether interacting with a bed will set the respawn point.
    pub bed_interact_set_respawn_point: bool,
    /// Whether sneaking on magma blocks will damage the player.
    pub sneak_on_magma_damage: bool,
    /// Limit slime blocks' push limit
    pub slime_push_limit: Option<u64>,
    /// Whether player has to be sneaking to rotate an item frame's content.
    pub player_sneak_rotate_item_frame_content: bool,
    /// Whether double tapping the sneak key will toggle sneak, the same way sprint does.
    pub double_tap_sneak: bool,
    /// Max threshold to notify player about low elytra durability.
    pub elytra_notify_ceiling: Option<u64>,
    /// Whether hoppers can load jukeboxes with discs.
    pub hopper_load_jukebox: bool,
    /// Maximum amount of maps that will be modified when blocks in the world are modified.
    pub world_maps_max_update: Option<u64>,
    /// Whether redstone can be placed on pistons.
    pub redstone_on_piston: bool,
    /// Whether beacons have an additional effect of preventing mob spawns for a configurable radius.
    pub beacon_deny_mob_spawn_radius: Option<u64>,
    /// Whether containers can be pushed by pistons.
    pub piston_push_containers: bool,
}

impl Default for ConfigExp {
    fn default() -> (r: Self)
        ensures
            r == (ConfigExp {
                bed_interact_set_respawn_point: false,
                sneak_on_magma_damage: false,
                slime_push_limit: Some(8u64),
                player_sneak_rotate_item_frame_content: false,
                double_tap_sneak: false,
                elytra_notify_ceiling: None,
                hopper_load_jukebox: false,
                world_maps_max_update: None,
                redstone_on_piston: false,
                beacon_deny_mob_spawn_radius: None,
                piston_push_containers: false,
            }),
    {
        Self {
            bed_interact_set_respawn_point: false,
            sneak_on_magma_damage: false,
            slime_push_limit: Some(8),
            player_sneak_rotate_item_frame_content: false,
            double_tap_sneak: false,
            elytra_notify_ceiling: None,
            hopper_load_jukebox: false,
            world_maps_max_update: None,
            redstone_on_piston: false,
            beacon_deny_mob_spawn_radius: None,
            piston_push_containers: false,
        }
    }
}

impl ConfigExp {
    pub fn get_filename() -> (r: &'static str)
        ensures
            r@ == "experimental.json"@,
    {
        "experimental.json"
    }
}

#[derive(Debug, Clone, Copy, PartialEq, Eq, Structural)]
pub struct ConfigInit {}

impl Default for ConfigInit {
    fn default() -> (r: Self) {
        Self {  }
    }
}

impl ConfigInit {
    pub fn get_filename() -> (r: &'static str)
        ensures
            r@ == "init.json"@,
    {
        "init.json"
    }
}

/// The name under which a server that names none shows itself.
pub open spec fn server_relname() -> Seq<char> {
    "CraftMine"@
}

/// The description of a server that gives none.
pub open spec fn default_description() -> Seq<char> {
    "A CraftMine server (CraftMine)"@
}

/// The network side: the channel between simulation and network, the
/// answer to a status request, and what to do with a packet that makes no
/// sense.
#[derive(Debug, Clone, PartialEq, Eq)]
pub struct ConfigNet {
    pub sync_async_channel_len: usize,
    pub web_addr_port: String,
    pub kick_invalid_packet: bool,
    pub server_name: String,
    pub server_description: String,
}

impl Default for ConfigNet {
    fn default() -> (r: Self)
        ensures
            r.sync_async_channel_len == 10000,
            r.web_addr_port@ == "127.0.0.1:8080"@,
            !r.kick_invalid_packet,
            r.server_name@ == server_relname(),
            r.server_description@ == default_description(),
    {
        Self {
            sync_async_channel_len: 10000,
            web_addr_port: "127.0.0.1:8080".to_owned(),
            kick_invalid_packet: false,
            server_name: "CraftMine".to_owned(),
            server_description: "A CraftMine server (CraftMine)".to_owned(),
        }
    }
}

impl ConfigNet {
    pub fn get_filename() -> (r: &'static str)
        ensures
            r@ == "network.json"@,
    {
        "network.json"
    }
}

/// An earlier form of the network settings.
#[derive(Debug, Clone, PartialEq, Eq)]
pub struct ConfigNetwork {
    pub sync_async_channel_len: usize,
    pub web_addr_port: String,
}

/// What a chunk that is no longer fully simulated still has processed.
#[derive(Debug, Clone, Copy, PartialEq, Eq, Structural)]
pub enum PartialTickProcessingType {
    MobPassive,
    MobNeutral,
    MobPet,
    MobHostile,
    Redstone,
}

/// When a chunk moves from one pool to the next. Times are in seconds.
#[derive(Debug, Clone, PartialEq, Eq)]
pub struct ConfigChunkPools {
    pub online_to_partial_scan_interval: u64,
    pub online_to_partial_distance_max: u64,
    pub online_to_partial_move_delay: u64,
    pub partial_keepalive_distance_max: u64,
    pub partial_to_suspended_move_delay: u64,
    pub partial_culling_whitelist: Vec<PartialTickProcessingType>,
    pub suspended_ttl_max: u64,
    pub suspended_to_offline_move_delay: u64,
}

/// Whether `r` is what holds of the chunk pools where nothing is
/// configured.
pub open spec fn default_pools(r: ConfigChunkPools) -> bool {
    &&& r.online_to_partial_scan_interval == 45
    &&& r.online_to_partial_distance_max == 8
    &&& r.online_to_partial_move_delay == 15
    &&& r.partial_keepalive_distance_max == 8
    &&& r.partial_to_suspended_move_delay == 120
    &&& r.partial_culling_whitelist@ == seq![
        PartialTickProcessingType::MobPassive,
        PartialTickProcessingType::MobHostile,
    ]
    &&& r.suspended_ttl_max == 60
    &&& r.suspended_to_offline_move_delay == 60
}

impl Default for ConfigChunkPools {
    fn default() -> (r: Self)
        ensures
            default_pools(r),
    {
        let mut whitelist: Vec<PartialTickProcessingType> = Vec::new();
        whitelist.push(PartialTickProcessingType::MobPassive);
        whitelist.push(PartialTickProcessingType::MobHostile);
        assert(whitelist@ =~= seq![
            PartialTickProcessingType::MobPassive,
            PartialTickProcessingType::MobHostile,
        ]);
        Self {
            online_to_partial_scan_interval: 45,
            online_to_partial_distance_max: 8,
            online_to_partial_move_delay: 15,
            partial_keepalive_distance_max: 8,
            partial_to_suspended_move_delay: 120,
            partial_culling_whitelist: whitelist,
            suspended_ttl_max: 60,
            suspended_to_offline_move_delay: 60,
        }
    }
}

/// How much work the server takes on. Times are in seconds, but for the
/// length of a tick, which is in microseconds.
#[derive(Debug, Clone, PartialEq, Eq)]
pub struct ConfigPerf {
    pub view_distance_chunks: u64,
    pub items_dropped_ttl: u64,
    pub chunks_active_enable: bool,
    pub chunks_active_max: Option<u64>,
    pub spawn_active_keep: bool,
    pub smp_threads_tick: Option<u64>,
    pub chunks_pools: ConfigChunkPools,
    pub target_tick_micros: u64,
}

impl Default for ConfigPerf {
    fn default() -> (r: Self)
        ensures
            r.view_distance_chunks == 16,
            r.items_dropped_ttl == 300,
            r.chunks_active_enable,
            r.chunks_active_max == Some(32u64),
            r.spawn_active_keep,
            r.smp_threads_tick.is_none(),
            default_pools(r.chunks_pools),
            r.target_tick_micros == 50_000,
    {
        Self {
            view_distance_chunks: 16,
            items_dropped_ttl: 300,
            chunks_active_enable: true,
            chunks_active_max: Some(32),
            spawn_active_keep: true,
            smp_threads_tick: None,
            chunks_pools: ConfigChunkPools::default(),
            target_tick_micros: 50_000,
        }
    }
}

/// Something about the performance settings that whoever runs the server
/// should know.
#[derive(Debug, Clone, Copy, PartialEq, Eq, Structural)]
pub enum PerfWarning {
    /// The machine has four logical cores or fewer: so many.
    FewCores(usize),
    /// Dropped items live longer than ten minutes: so many seconds.
    LongItemTtl(u64),
    /// More threads are set for the tick than the machine should give it.
    ManyTickThreads { set: u64, recommended: u64 },
}

/// How many threads a machine with `total_threads` logical cores should
/// give the tick at most: all but two.
pub open spec fn recommended_tick_threads(total_threads: usize) -> u64 {
    if total_threads >= 2 {
        (total_threads - 2) as u64
    } else {
        0
    }
}

/// What is to be said of the settings `perf` on a machine with
/// `total_threads` logical cores, in the order in which it is said.
pub open spec fn perf_warnings(perf: ConfigPerf, total_threads: usize) -> Seq<PerfWarning> {
    (if total_threads <= 4 {
        seq![PerfWarning::FewCores(total_threads)]
    } else {
        Seq::empty()
    }) + (if perf.items_dropped_ttl > 600 {
        seq![PerfWarning::LongItemTtl(perf.items_dropped_ttl)]
    } else {
        Seq::empty()
    }) + (match perf.smp_threads_tick {
        Some(stt) => if stt > recommended_tick_threads(total_threads) {
            seq![
                PerfWarning::ManyTickThreads {
                    set: stt,
                    recommended: recommended_tick_threads(total_threads),
                },
            ]
        } else {
            Seq::empty()
        },
        None => Seq::empty(),
    })
}

impl ConfigPerf {
    pub fn get_filename() -> (r: &'static str)
        ensures
            r@ == "performance.json"@,
    {
        "performance.json"
    }

    /// What is to be said of these settings on a machine with
    /// `total_threads` logical cores.
    pub fn warnings(&self, total_threads: usize) -> (r: Vec<PerfWarning>)
        ensures
            r@ == perf_warnings(*self, total_threads),
    {
        let mut r: Vec<PerfWarning> = Vec::new();
        if total_threads <= 4 {
            r.push(PerfWarning::FewCores(total_threads));
        }
        if self.items_dropped_ttl > 600 {
            r.push(PerfWarning::LongItemTtl(self.items_dropped_ttl));
        }
        if let Some(stt) = self.smp_threads_tick {
            let recommended: u64 = if total_threads >= 2 {
                (total_threads - 2) as u64
            } else {
                0
            };
            if stt > recommended {
                r.push(PerfWarning::ManyTickThreads { set: stt, recommended });
            }
        }
        assert(r@ =~= perf_warnings(*self, total_threads));
        r
    }
}

/// What a look at a configuration has to say.
#[derive(Debug, Clone, PartialEq, Eq)]
pub enum ValidatorInfo {
    Info(String),
    Warn(String),
    /// What is wrong, and the cause as the store worded it.
    Error(String, String),
}

/// A configuration that can be looked over.
pub trait ConfigValidator {
    fn validate(&self) -> Vec<ValidatorInfo>;
}

/// Collection of configs used in the server.
/// A restart is required for the changes to take effect,
/// the reason being access is frequent and synchronization incurs too much performance penalty.
#[derive(Debug, Clone, PartialEq, Eq)]
pub struct ConfigCollection {
    pub auth: ConfigAuth,
    pub cap: ConfigCap,
    pub exp: ConfigExp,
    pub init: ConfigInit,
    pub net: ConfigNet,
    pub perf: ConfigPerf,
}

/// Where the configuration files lie: the pieces of the folder's path.
#[derive(Debug, Clone, PartialEq, Eq)]
pub struct ConfigFolder(pub Vec<String>);

} // verus!
