// The radar's reads run against a game image laid out in memflow's dummy OS: a process
// whose memory holds the globals, the entity list and the entities at known places.
use memflow::dummy::{DummyMemory, DummyOs};
use memflow::mem::MemoryView;
use memflow::os::Os;
use memflow::plugins::os::create_instance;
use memflow::plugins::{LibArc, OsArgs};
use memflow::types::{size, Address};

use radarflow::csflow::context::CheatCtx as FlowCtx;
use radarflow::csflow::entity::{CBaseEntity, CPlayerController, CPlayerPawn};
use radarflow::csflow::gamerules::GameRules;
use radarflow::csflow::global_vars::GlobalVars;
use radarflow::dma::threaddata::CsData;
use radarflow::enums::teamid::TeamID;
use radarflow::sdk::structs::PlayerController;
use radarflow::dma::cache::{Cache, CachedEntity};
use radarflow::dma::context::DmaCtx;
use radarflow::dma::process::ProcessHandle;
use radarflow::dma::radar::{collect_radar_data, poll, rebuild_cache, PollOutcome};
use radarflow::enums::player_type::PlayerType;
use radarflow::error::RadarError;
use radarflow::offsets::Offsets;
use radarflow::radarflow::cache::Cache as FlowCache;
use radarflow::radarflow::comms::{BombData, EntityData, PlayerData};
use radarflow::radarflow::dma::{tick, RoundState, TickOutcome};
use radarflow::sdk::functions::{
    get_entity_list, get_globals, get_local, get_local_pawn, highest_entity_index, is_bomb_dropped, is_bomb_planted, is_ingame,
    map_name,
};
use radarflow::structs::vec3::Vec3;

const PHYS_SIZE: usize = 64 * 1024 * 1024;
const MAP_SIZE: usize = 0x10000;

// Where things stand, relative to the image's base.
const LOCAL: u64 = 0x1000;
const ENEMY: u64 = 0x1200;
const C4: u64 = 0x1400;
const SPECTATOR: u64 = 0x1600;
const LOCAL_PAWN: u64 = 0x1800;
const ENEMY_PAWN: u64 = 0x1A00;
const WEAPON: u64 = 0x1C00;
const PLANTED: u64 = 0x1E00;
const TEAMMATE: u64 = 0x3200;
const GLOBALS: u64 = 0x2000;
const GAMERULES: u64 = 0x2400;
const ENTITY_SYSTEM: u64 = 0x2800;
const PLANTED_SLOT: u64 = 0x2C00;
const ENTITY_LIST: u64 = 0x4000;
const CHUNK: u64 = 0x5000;
const IDENTITIES: u64 = 0x6000;
const NAMES: u64 = 0x7000;
const ENGINE: u64 = 0x8000;
const NETWORK_CLIENT: u64 = 0x8800;
const SCENE_NODES: u64 = 0x9000;
const WEAPON_SERVICES: u64 = 0xA000;
const WEAPON_DATA: u64 = 0xA800;

fn offsets() -> Offsets {
    Offsets {
        local_player_controller: 0x100,
        local_player_pawn: 0x108,
        planted_c4: 0x110,
        global_vars: 0x118,
        game_rules: 0x120,
        entity_list: 0x128,
        game_entity_system: 0x130,
        game_entity_system_highest_entity_index: 0x10,
        build_number: 0x10,
        network_game_client: 0x18,
        network_game_client_sign_on_state: 0x20,
        base_entity_game_scene_node: 0x30,
        base_entity_team_num: 0x50,
        base_entity_health: 0x54,
        base_entity_subclass_id: 0x58,
        game_scene_node_abs_origin: 0x40,
        entity_instance_entity: 0x10,
        entity_identity_designer_name: 0x20,
        entity_identity_next_by_class: 0x28,
        entity_identity_prev_by_class: 0x30,
        entity_identity_name_stringable_index: 0x38,
        player_controller_player_pawn: 0x60,
        base_player_pawn_weapon_services: 0x90,
        base_player_pawn_old_origin: 0x70,
        weapon_services_my_weapons: 0x40,
        weapon_base_vdata_weapon_type: 0x100,
        player_pawn_base_eye_angles: 0x80,
        player_pawn_base_clipping_weapon: 0x98,
        player_pawn_base_is_scoped: 0xA0,
        econ_entity_attribute_manager: 0x100,
        attribute_container_item: 0x50,
        econ_item_view_item_definition_index: 0x1BA,
        game_rules_bomb_dropped: 0x30,
        game_rules_bomb_planted: 0x31,
        game_rules_total_rounds_played: 0x34,
        game_rules_game_phase: 0x38,
        game_rules_freeze_period: 0x3C,
        game_rules_round_start_count: 0x40,
        planted_c4_timer_length: 0x44,
        planted_c4_bomb_defused: 0x48,
        planted_c4_defuse_length: 0x4C,
        planted_c4_has_exploded: 0x50,
        planted_c4_being_defused: 0x51,
        game_build_number: 14000,
    }
}

/// The base address the dummy OS gives the first process it makes (its generator is seeded,
/// so it gives the same base each time).
fn image_base() -> u64 {
    let mut os = DummyOs::new(DummyMemory::new(PHYS_SIZE));
    let pid = os.alloc_process(MAP_SIZE, &[]);
    os.process_info_by_pid(pid).unwrap().address.to_umem()
}

struct Image {
    base: u64,
    buf: Vec<u8>,
}

impl Image {
    fn put(&mut self, at: u64, bytes: &[u8]) {
        let at = at as usize;
        self.buf[at..at + bytes.len()].copy_from_slice(bytes);
    }
    fn ptr(&mut self, at: u64, target: u64) {
        let v = self.base + target;
        self.put(at, &v.to_le_bytes());
    }
    fn i32(&mut self, at: u64, v: i32) {
        self.put(at, &v.to_le_bytes());
    }
    fn u32(&mut self, at: u64, v: u32) {
        self.put(at, &v.to_le_bytes());
    }
    fn vec3(&mut self, at: u64, v: [f32; 3]) {
        for (i, c) in v.iter().enumerate() {
            self.put(at + 4 * i as u64, &c.to_le_bytes());
        }
    }
    fn text(&mut self, at: u64, s: &str) {
        self.put(at, s.as_bytes());
        self.put(at + s.len() as u64, &[0]);
    }
    /// An entity: its identity and designer name, its scene node and position.
    fn entity(&mut self, at: u64, k: u64, name: &str, pos: [f32; 3]) {
        let o = offsets();
        self.ptr(at + o.entity_instance_entity, IDENTITIES + 0x100 * k);
        self.ptr(IDENTITIES + 0x100 * k + o.entity_identity_designer_name, NAMES + 0x40 * k);
        self.text(NAMES + 0x40 * k, name);
        self.ptr(at + o.base_entity_game_scene_node, SCENE_NODES + 0x100 * k);
        self.vec3(SCENE_NODES + 0x100 * k + o.game_scene_node_abs_origin, pos);
    }
    /// The entity list's single chunk holds `ptr` at slot `slot`.
    fn slot(&mut self, slot: u64, ptr: u64) {
        self.ptr(CHUNK + 120 * slot, ptr);
    }
}

/// A game on de_dust2, round 3, with the local player (T), an enemy (CT) who carries the
/// bomb, a spectator and a dropped bomb entity; the highest entity index is 5.
fn game() -> Image {
    let o = offsets();
    let mut m = Image { base: image_base(), buf: vec![0u8; MAP_SIZE] };
    // client globals
    m.ptr(o.local_player_controller, LOCAL);
    m.ptr(o.planted_c4, PLANTED_SLOT);
    m.ptr(PLANTED_SLOT, PLANTED);
    m.ptr(o.global_vars, GLOBALS);
    m.ptr(o.game_rules, GAMERULES);
    m.ptr(o.entity_list, ENTITY_LIST);
    m.ptr(o.game_entity_system, ENTITY_SYSTEM);
    m.i32(ENTITY_SYSTEM + o.game_entity_system_highest_entity_index, 5);
    // engine globals
    m.u32(ENGINE + o.build_number, 14000);
    m.ptr(ENGINE + o.network_game_client, NETWORK_CLIENT);
    m.i32(NETWORK_CLIENT + o.network_game_client_sign_on_state, 6);
    // global variables and game rules
    m.ptr(GLOBALS + 0x188, NAMES + 0x400);
    // the thread data reads the map's name through the pointer eight bytes before
    m.ptr(GLOBALS + 384, NAMES + 0x400);
    m.text(NAMES + 0x400, "de_dust2");
    m.i32(GLOBALS + 0x40, 100);
    m.put(GAMERULES + o.game_rules_bomb_dropped, &[1]);
    m.put(GAMERULES + o.game_rules_bomb_planted, &[0]);
    m.i32(GAMERULES + o.game_rules_total_rounds_played, 3);
    m.i32(GAMERULES + o.game_rules_game_phase, 2);
    // the entity list: one chunk for indices 0..512
    m.ptr(ENTITY_LIST + 16, CHUNK);
    m.slot(1, LOCAL);
    m.slot(2, ENEMY);
    m.slot(3, C4);
    m.slot(4, SPECTATOR);
    m.slot(0x10, LOCAL_PAWN);
    m.slot(0x11, ENEMY_PAWN);
    m.slot(0x20, WEAPON);
    // controllers
    m.entity(LOCAL, 1, "cs_player_controller", [0.0, 0.0, 0.0]);
    m.i32(LOCAL + o.base_entity_team_num, 2);
    m.u32(LOCAL + o.player_controller_player_pawn, 0x10);
    m.entity(ENEMY, 2, "cs_player_controller", [0.0, 0.0, 0.0]);
    m.i32(ENEMY + o.base_entity_team_num, 3);
    m.u32(ENEMY + o.player_controller_player_pawn, 0x11);
    m.entity(C4, 3, "weapon_c4", [10.0, 20.0, 30.0]);
    m.entity(SPECTATOR, 4, "cs_player_controller", [0.0, 0.0, 0.0]);
    m.i32(SPECTATOR + o.base_entity_team_num, 1);
    m.entity(PLANTED, 5, "planted_c4", [-1.0, -2.0, -3.0]);
    // pawns
    m.u32(LOCAL_PAWN + o.base_entity_health, 100);
    m.vec3(LOCAL_PAWN + o.base_player_pawn_old_origin, [1.0, 2.0, 3.0]);
    m.vec3(LOCAL_PAWN + o.player_pawn_base_eye_angles, [0.0, 90.0, 0.0]);
    m.ptr(LOCAL_PAWN + o.base_player_pawn_weapon_services, WEAPON_SERVICES);
    m.i32(WEAPON_SERVICES + o.weapon_services_my_weapons, 0);
    m.u32(ENEMY_PAWN + o.base_entity_health, 42);
    m.vec3(ENEMY_PAWN + o.base_player_pawn_old_origin, [4.0, 5.0, 6.0]);
    m.vec3(ENEMY_PAWN + o.player_pawn_base_eye_angles, [0.0, -45.0, 0.0]);
    m.ptr(ENEMY_PAWN + o.base_player_pawn_weapon_services, WEAPON_SERVICES + 0x100);
    m.i32(WEAPON_SERVICES + 0x100 + o.weapon_services_my_weapons, 2);
    m.ptr(WEAPON_SERVICES + 0x100 + o.weapon_services_my_weapons + 8, WEAPON_SERVICES + 0x200);
    m.i32(WEAPON_SERVICES + 0x200, -1);
    m.i32(WEAPON_SERVICES + 0x204, 0x20);
    m.ptr(WEAPON + o.base_entity_subclass_id + 8, WEAPON_DATA);
    m.i32(WEAPON_DATA + o.weapon_base_vdata_weapon_type, 7);
    // the enemy holds an AWP, scoped in
    m.ptr(ENEMY_PAWN + o.player_pawn_base_clipping_weapon, WEAPON);
    m.put(WEAPON + o.econ_entity_attribute_manager + o.attribute_container_item + o.econ_item_view_item_definition_index, &9i16.to_le_bytes());
    m.put(ENEMY_PAWN + o.player_pawn_base_is_scoped, &[1]);
    // the local pawn, the round start count, and the enemy's next controller of its class
    m.ptr(o.local_player_pawn, LOCAL_PAWN);
    m.i32(TEAMMATE + o.base_entity_team_num, 2);
    m.put(GAMERULES + o.game_rules_round_start_count, &[4]);
    m.ptr(IDENTITIES + 0x200 + o.entity_identity_next_by_class, IDENTITIES + 0x400);
    m.ptr(IDENTITIES + 0x400, SPECTATOR);
    m
}

/// Opens the image as a process and connects to it; the client module is at the image's
/// base, the engine module `ENGINE` bytes into it.
fn connect(m: &Image) -> DmaCtx {
    let mut os = DummyOs::new(DummyMemory::new(PHYS_SIZE));
    let pid = os.alloc_process(MAP_SIZE, &m.buf);
    assert_eq!(os.process_info_by_pid(pid).unwrap().address.to_umem(), m.base);
    let instance = create_instance(os, LibArc::default(), &OsArgs::default());
    let process = instance.into_process_by_pid(pid).unwrap();
    DmaCtx::new(ProcessHandle { inner: process }, m.base, m.base + ENGINE, offsets())
}

fn write(ctx: &mut DmaCtx, base: u64, at: u64, bytes: &[u8]) {
    ctx.process.inner.write_raw(Address::from(base + at), bytes).unwrap();
}

fn v(x: f32, y: f32, z: f32) -> Vec3 {
    Vec3 { x: x.to_bits(), y: y.to_bits(), z: z.to_bits() }
}

#[test]
fn globals_are_read_where_the_offsets_say() {
    let m = game();
    let mut ctx = connect(&m);
    assert_eq!(get_entity_list(&mut ctx).ok(), Some(m.base + ENTITY_LIST));
    assert_eq!(get_globals(&mut ctx).ok(), Some(m.base + GLOBALS));
    assert_eq!(highest_entity_index(&mut ctx).ok(), Some(5));
    assert_eq!(get_local(&mut ctx).ok().map(|c| c.0), Some(m.base + LOCAL));
    assert_eq!(map_name(m.base + GLOBALS, &mut ctx).ok().as_deref(), Some("de_dust2"));
    assert_eq!(is_ingame(&mut ctx).ok(), Some(true));
    assert_eq!(is_bomb_planted(&mut ctx).ok(), Some(false));
    assert_eq!(is_bomb_dropped(&mut ctx).ok(), Some(true));
}

#[test]
fn version_check_compares_the_build() {
    let m = game();
    let mut ctx = connect(&m);
    assert!(ctx.check_version().is_ok());
    write(&mut ctx, m.base, ENGINE + offsets().build_number, &14001u32.to_le_bytes());
    match ctx.check_version() {
        Err(RadarError::GameVersionMismatch(game, dumped)) => {
            assert_eq!(game, 14001);
            assert_eq!(dumped, 14000);
        },
        _ => panic!("expected a version mismatch"),
    }
}

#[test]
fn rebuild_follows_local_first_and_skips_spectators() {
    let m = game();
    let mut ctx = connect(&m);
    let cache = rebuild_cache(&mut ctx).ok().unwrap();
    assert_eq!(cache.map_name, "de_dust2");
    assert_eq!(cache.entity_list, m.base + ENTITY_LIST);
    assert!(cache.is_valid());
    let expected = vec![
        CachedEntity::Player { ptr: m.base + LOCAL, player_type: PlayerType::Local },
        CachedEntity::Player { ptr: m.base + LOCAL, player_type: PlayerType::Local },
        CachedEntity::Player { ptr: m.base + ENEMY, player_type: PlayerType::Enemy },
        CachedEntity::Bomb { ptr: m.base + C4 },
    ];
    assert_eq!(cache.entity_cache, expected);
}

#[test]
fn rebuild_without_a_local_pawn_follows_nothing() {
    let m = game();
    let mut ctx = connect(&m);
    // the local pawn's handle points into a chunk that is not there
    write(&mut ctx, m.base, LOCAL + offsets().player_controller_player_pawn, &0x210u32.to_le_bytes());
    let cache = rebuild_cache(&mut ctx).ok().unwrap();
    assert!(cache.entity_cache.is_empty());
}

#[test]
fn collect_reports_players_and_the_dropped_bomb() {
    let m = game();
    let mut ctx = connect(&m);
    let mut cache = rebuild_cache(&mut ctx).ok().unwrap();
    let data = collect_radar_data(&mut ctx, &mut cache).ok().unwrap();
    let local = EntityData::Player(PlayerData { pos: v(1.0, 2.0, 3.0), yaw: 90.0f32.to_bits(), player_type: PlayerType::Local, has_bomb: false });
    let enemy = EntityData::Player(PlayerData { pos: v(4.0, 5.0, 6.0), yaw: (-45.0f32).to_bits(), player_type: PlayerType::Enemy, has_bomb: true });
    let bomb = EntityData::Bomb(BombData { pos: v(10.0, 20.0, 30.0), planted: false });
    assert_eq!(data, vec![local, local, enemy, bomb]);
}

#[test]
fn collect_reports_the_planted_bomb_first() {
    let m = game();
    let mut ctx = connect(&m);
    let mut cache = rebuild_cache(&mut ctx).ok().unwrap();
    write(&mut ctx, m.base, GAMERULES + offsets().game_rules_bomb_planted, &[1]);
    write(&mut ctx, m.base, GAMERULES + offsets().game_rules_bomb_dropped, &[0]);
    write(&mut ctx, m.base, ENEMY_PAWN + offsets().base_entity_health, &0u32.to_le_bytes());
    let data = collect_radar_data(&mut ctx, &mut cache).ok().unwrap();
    let planted = EntityData::Bomb(BombData { pos: v(-1.0, -2.0, -3.0), planted: true });
    let local = EntityData::Player(PlayerData { pos: v(1.0, 2.0, 3.0), yaw: 90.0f32.to_bits(), player_type: PlayerType::Local, has_bomb: false });
    assert_eq!(data, vec![planted, local, local]);
}

#[test]
fn poll_publishes_while_in_game() {
    let m = game();
    let mut ctx = connect(&m);
    let mut cache = Cache::new_invalid();
    match poll(&mut ctx, &mut cache).ok().unwrap() {
        PollOutcome::Publish(d) => {
            assert!(d.ingame);
            assert_eq!(d.map_name, "de_dust2");
            assert_eq!(d.entity_data.len(), 4);
        },
        PollOutcome::ProcessExited => panic!("the process is alive"),
    }
    assert_eq!(cache.entity_cache.len(), 4);
}

#[test]
fn poll_publishes_empty_data_between_games() {
    let m = game();
    let mut ctx = connect(&m);
    let mut cache = Cache::new_invalid();
    write(&mut ctx, m.base, GAMERULES + offsets().game_rules_game_phase, &1i32.to_le_bytes());
    match poll(&mut ctx, &mut cache).ok().unwrap() {
        PollOutcome::Publish(d) => {
            assert!(!d.ingame);
            assert_eq!(d.map_name, "");
            assert!(d.entity_data.is_empty());
        },
        PollOutcome::ProcessExited => panic!("the process is alive"),
    }
}

#[test]
fn ticks_note_round_phase_and_drop_then_publish_each_tick_once() {
    let m = game();
    let mut ctx = FlowCtx(connect(&m));
    // the flow's rebuild goes up to and including the highest index
    write(&mut ctx.0, m.base, ENTITY_SYSTEM + offsets().game_entity_system_highest_entity_index, &4i32.to_le_bytes());
    let mut cache = FlowCache::new_invalid();
    let mut state = RoundState::new();
    assert!(matches!(tick(&mut ctx, &mut cache, &mut state).ok().unwrap(), TickOutcome::Repeat));
    assert_eq!(state.last_round, 3);
    assert!(!cache.valid);
    assert!(matches!(tick(&mut ctx, &mut cache, &mut state).ok().unwrap(), TickOutcome::Repeat));
    assert_eq!(state.last_gamephase, 2);
    assert!(matches!(tick(&mut ctx, &mut cache, &mut state).ok().unwrap(), TickOutcome::Repeat));
    assert!(state.last_bomb_dropped);
    match tick(&mut ctx, &mut cache, &mut state).ok().unwrap() {
        TickOutcome::PublishThenWait(d) => {
            assert!(d.ingame);
            assert_eq!(d.map_name, "de_dust2");
            assert_eq!(d.entity_data.len(), 4);
        },
        _ => panic!("expected the new tick's data"),
    }
    assert_eq!(state.last_tickcount, 100);
    assert!(cache.valid);
    assert_eq!(
        cache.entity_cache,
        vec![
            CachedEntity::Player { ptr: m.base + LOCAL, player_type: PlayerType::Local },
            CachedEntity::Player { ptr: m.base + LOCAL, player_type: PlayerType::Local },
            CachedEntity::Player { ptr: m.base + ENEMY, player_type: PlayerType::Enemy },
            CachedEntity::Bomb { ptr: m.base + C4 },
        ]
    );
    assert_eq!(cache.globals.0, m.base + GLOBALS);
    assert_eq!(cache.gamerules.0, m.base + GAMERULES);
    assert!(matches!(tick(&mut ctx, &mut cache, &mut state).ok().unwrap(), TickOutcome::Wait));
    write(&mut ctx.0, m.base, GLOBALS + 0x40, &101i32.to_le_bytes());
    assert!(matches!(tick(&mut ctx, &mut cache, &mut state).ok().unwrap(), TickOutcome::PublishThenWait(_)));
    assert_eq!(state.last_tickcount, 101);
}

#[test]
fn ticks_without_a_map_publish_empty_data_and_forget_the_round() {
    let m = game();
    let mut ctx = FlowCtx(connect(&m));
    write(&mut ctx.0, m.base, ENTITY_SYSTEM + offsets().game_entity_system_highest_entity_index, &4i32.to_le_bytes());
    write(&mut ctx.0, m.base, NAMES + 0x400, b"<empty>\0");
    let mut cache = FlowCache::new_invalid();
    let mut state = RoundState { last_tickcount: 7, last_round: 3, last_gamephase: 2, last_bomb_dropped: true };
    match tick(&mut ctx, &mut cache, &mut state).ok().unwrap() {
        TickOutcome::PublishThenRepeat(d) => {
            assert!(!d.ingame);
            assert!(d.map_name.is_empty() && d.entity_data.is_empty());
        },
        _ => panic!("expected empty data"),
    }
    assert_eq!(state, RoundState { last_tickcount: 7, last_round: -1, last_gamephase: -1, last_bomb_dropped: true });
    write(&mut ctx.0, m.base, NAMES + 0x400, b"\0");
    assert!(matches!(tick(&mut ctx, &mut cache, &mut state).ok().unwrap(), TickOutcome::Repeat));
    assert!(!cache.valid);
}

#[test]
fn ticks_wait_outside_a_game() {
    let m = game();
    let mut ctx = FlowCtx(connect(&m));
    write(&mut ctx.0, m.base, ENTITY_SYSTEM + offsets().game_entity_system_highest_entity_index, &4i32.to_le_bytes());
    write(&mut ctx.0, m.base, NETWORK_CLIENT + offsets().network_game_client_sign_on_state, &5i32.to_le_bytes());
    let mut cache = FlowCache::new_invalid();
    let mut state = RoundState::new();
    assert!(matches!(tick(&mut ctx, &mut cache, &mut state).ok().unwrap(), TickOutcome::Wait));
    assert_eq!(state, RoundState::new());
    assert!(cache.valid);
}

#[test]
fn entities_are_told_apart_by_their_names() {
    let m = game();
    let mut ctx = FlowCtx(connect(&m));
    assert_eq!(CBaseEntity(m.base + C4).is_dropped_c4(&mut ctx).ok(), Some(true));
    assert_eq!(CBaseEntity(m.base + ENEMY).is_dropped_c4(&mut ctx).ok(), Some(false));
    assert_eq!(CBaseEntity(m.base + ENEMY).is_cs_player_controller(&mut ctx).ok(), Some(true));
    assert_eq!(CBaseEntity(m.base + C4).is_cs_player_controller(&mut ctx).ok(), Some(false));
    assert_eq!(CBaseEntity(m.base + ENEMY).next_by_class(&mut ctx).ok().map(|e| e.0), Some(m.base + SPECTATOR));
    // only the whole name counts
    write(&mut ctx.0, m.base, NAMES + 0x40 * 3, b"xxxxxxxc4\0");
    assert_eq!(CBaseEntity(m.base + C4).is_dropped_c4(&mut ctx).ok(), Some(false));
    write(&mut ctx.0, m.base, NAMES + 0x40 * 2, b"cs_player_controller_x\0");
    assert_eq!(CBaseEntity(m.base + ENEMY).is_cs_player_controller(&mut ctx).ok(), Some(false));
    assert_eq!(ctx.0.is_cs_player_controller(m.base + ENEMY).ok(), Some(false));
    assert_eq!(ctx.0.is_dropped_c4(m.base + C4).ok(), Some(false));
}

#[test]
fn controllers_lead_to_teams_and_pawns() {
    let m = game();
    let mut ctx = FlowCtx(connect(&m));
    let list = m.base + ENTITY_LIST;
    let enemy = CPlayerController(m.base + ENEMY);
    assert_eq!(enemy.get_team(&mut ctx).ok(), Some(Some(TeamID::CT)));
    assert_eq!(CPlayerController(m.base + SPECTATOR).get_team(&mut ctx).ok(), Some(Some(TeamID::Spectator)));
    assert_eq!(enemy.get_pawn(&mut ctx, list).ok().map(|p| p.map(|p| p.0)), Some(Some(m.base + ENEMY_PAWN)));
    let local = CPlayerController(m.base + LOCAL);
    assert_eq!(enemy.get_player_type(&mut ctx, &local).ok(), Some(Some(PlayerType::Enemy)));
    assert_eq!(local.get_player_type(&mut ctx, &local).ok(), Some(Some(PlayerType::Local)));
    assert_eq!(local.get_player_type(&mut ctx, &enemy).ok(), Some(Some(PlayerType::Enemy)));
    let mate = CPlayerController(m.base + TEAMMATE);
    assert_eq!(mate.get_player_type(&mut ctx, &local).ok(), Some(Some(PlayerType::Team)));
    assert_eq!(local.get_player_type(&mut ctx, &mate).ok(), Some(Some(PlayerType::Team)));
    assert_eq!(CPlayerController(m.base + SPECTATOR).get_player_type(&mut ctx, &local).ok(), Some(Some(PlayerType::Spectator)));
    let pawn = CPlayerPawn(m.base + ENEMY_PAWN);
    assert_eq!(pawn.health(&mut ctx).ok(), Some(42));
    assert_eq!(pawn.is_alive(&mut ctx).ok(), Some(true));
    assert_eq!(pawn.has_c4(&mut ctx, list).ok(), Some(true));
    assert_eq!(CPlayerPawn(m.base + LOCAL_PAWN).has_c4(&mut ctx, list).ok(), Some(false));
    assert_eq!(pawn.pos(&mut ctx).ok(), Some(v(4.0, 5.0, 6.0)));
    assert_eq!(pawn.angles(&mut ctx).ok(), Some(v(0.0, -45.0, 0.0)));
}

#[test]
fn lookups_by_index_and_the_local_pawn() {
    let m = game();
    let mut ctx = connect(&m);
    let list = m.base + ENTITY_LIST;
    assert_eq!(PlayerController::from_entity_list_v2(&mut ctx, list, 2).ok().map(|c| c.map(|c| c.0)), Some(Some(m.base + ENEMY)));
    assert_eq!(get_local_pawn(&mut ctx).ok().map(|p| p.0), Some(m.base + LOCAL_PAWN));
}

#[test]
fn batched_player_read_gathers_a_players_state() {
    let m = game();
    let mut ctx = connect(&m);
    let d = ctx.batched_player_read(m.base + ENEMY, m.base + ENEMY_PAWN).ok().unwrap();
    assert_eq!(d.pos, v(4.0, 5.0, 6.0));
    assert_eq!(f32::from_bits(d.yaw), -45.0);
    assert_eq!(d.health, 42);
    assert_eq!(d.team, Some(TeamID::CT));
    assert!(d.has_awp);
    assert!(d.is_scoped);
}

#[test]
fn cs_data_reads_pointers_and_common_state() {
    let m = game();
    let mut ctx = connect(&m);
    let mut d = CsData::default();
    d.update_pointers(&mut ctx);
    assert_eq!(d.globals, m.base + GLOBALS);
    assert_eq!(d.gamerules, m.base + GAMERULES);
    assert_eq!(d.entity_list, m.base + ENTITY_LIST);
    assert_eq!(d.game_ent_sys, m.base + ENTITY_SYSTEM);
    d.update_common(&mut ctx);
    assert_eq!(d.local, m.base + LOCAL);
    assert_eq!(d.local_pawn, m.base + LOCAL_PAWN);
    assert_eq!(d.tick_count, 100);
    assert!(d.bomb_dropped);
    assert!(!d.bomb_planted);
    assert!(!d.freeze_period);
    assert_eq!(d.round_start_count, 4);
    assert_eq!(d.highest_index, 5);
    assert_eq!(d.map, "de_dust2");
}

#[test]
fn cs_data_finds_players_with_pawns() {
    let m = game();
    let mut ctx = connect(&m);
    let mut d = CsData::default();
    d.update_pointers(&mut ctx);
    d.update_common(&mut ctx);
    assert!(d.update_players(&mut ctx).is_ok());
    assert_eq!(d.players, vec![(m.base + ENEMY, m.base + ENEMY_PAWN), (m.base + SPECTATOR, 0)]);
}

#[test]
fn cs_data_finds_the_bomb() {
    let m = game();
    let mut ctx = connect(&m);
    let mut d = CsData::default();
    d.update_pointers(&mut ctx);
    d.update_common(&mut ctx);
    assert!(d.update_bomb(&mut ctx).is_ok());
    assert_eq!(d.bomb, m.base + C4);
    write(&mut ctx, m.base, GAMERULES + offsets().game_rules_bomb_dropped, &[0]);
    write(&mut ctx, m.base, GAMERULES + offsets().game_rules_bomb_planted, &[1]);
    d.update_common(&mut ctx);
    assert!(d.bomb_planted && !d.bomb_dropped);
    assert!(d.update_bomb(&mut ctx).is_ok());
    assert_eq!(d.bomb, m.base + PLANTED);
}

#[test]
fn global_variables_and_game_rules() {
    let m = game();
    let mut ctx = FlowCtx(connect(&m));
    write(&mut ctx.0, m.base, GLOBALS, &12.5f32.to_le_bytes());
    write(&mut ctx.0, m.base, GLOBALS + 0x4, &777i32.to_le_bytes());
    write(&mut ctx.0, m.base, GLOBALS + 0x8, &0.015625f32.to_le_bytes());
    write(&mut ctx.0, m.base, GLOBALS + 0xC, &0.5f32.to_le_bytes());
    write(&mut ctx.0, m.base, GLOBALS + 0x10, &10i32.to_le_bytes());
    let g = GlobalVars(m.base + GLOBALS);
    assert_eq!(g.real_time(&mut ctx).ok().map(f32::from_bits), Some(12.5));
    assert_eq!(g.frame_count(&mut ctx).ok(), Some(777));
    assert_eq!(g.frame_time(&mut ctx).ok().map(f32::from_bits), Some(0.015625));
    assert_eq!(g.absolute_frame_time(&mut ctx).ok().map(f32::from_bits), Some(0.5));
    assert_eq!(g.max_clients(&mut ctx).ok(), Some(10));
    assert_eq!(g.tick_count(&mut ctx).ok(), Some(100));
    assert_eq!(g.map_name(&mut ctx).ok().as_deref(), Some("de_dust2"));
    let r = GameRules(m.base + GAMERULES);
    assert_eq!(r.bomb_dropped(&mut ctx).ok(), Some(true));
    assert_eq!(r.bomb_planted(&mut ctx).ok(), Some(false));
    assert_eq!(r.total_rounds_played(&mut ctx).ok(), Some(3));
    assert_eq!(r.game_phase(&mut ctx).ok(), Some(2));
    assert_eq!(ctx.network_is_ingame().ok(), Some(true));
    assert_eq!(ctx.get_gamerules().ok().map(|g| g.0), Some(m.base + GAMERULES));
    assert_eq!(ctx.get_plantedc4().ok().map(|b| b.0), Some(m.base + PLANTED));
}

#[test]
fn cs_data_stamps_the_plant_with_the_instant_given() {
    let m = game();
    let mut ctx = connect(&m);
    let mut d = CsData::default();
    d.update_pointers(&mut ctx);
    write(&mut ctx, m.base, GAMERULES + offsets().game_rules_bomb_planted, &[1]);
    d.update_common(&mut ctx);
    assert!(d.bomb_planted);
    assert!(d.bomb_planted_stamp.is_none());
    d.bomb = m.base + PLANTED;
    let now = tokio::time::Instant::now();
    d.update_common_at(&mut ctx, now);
    assert_eq!(d.bomb_planted_stamp, Some(now));
    assert!(d.bomb_defuse_stamp.is_none());
    let later = tokio::time::Instant::now();
    d.update_common_at(&mut ctx, later);
    assert_eq!(d.bomb_planted_stamp, Some(now));
}
