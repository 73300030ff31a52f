use vstd::prelude::*;
use crate::csflow::context::CheatCtx;
use crate::csflow::entity::{CBaseEntity, CPlayerController};
use crate::csflow::traits::BaseEntity;
use crate::dma::address::wrap_addr;
use crate::dma::context::{double_pointer_read, DmaCtx};
use crate::dma::entity::{class_name_reads, player_type_reads, pointer_read_gave, pointer_then_i32, scene_origin_reads};
use crate::dma::process::{failed_read, process_is_dead, MemRead};
use crate::dma::radar::{
    entity_scan_reads, entity_scan_with, entity_step_reads, followed_player, lemma_scan_no_spectator, local_pawn_reads, lookup_len,
    alive_pawn_reads, not_spectator, player_step_reads, present,
};
use crate::dma::trace::{concat, lemma_concat_push, lemma_reads_grew_trans, read_at, reads_between, reads_grew, text_at, text_of, triple_of, value_of};
use crate::enums::player_type::PlayerType;
use crate::error::RadarError;
use crate::offsets::Offsets;
use crate::radarflow::cache::{invalidated, Cache, CacheBuilder, CachedEntity};
use crate::radarflow::comms::{BombData, EntityData, PlayerData, RadarData};

verus! {

/// Nanoseconds in a second.
pub const SECOND_AS_NANO: u64 = 1_000_000_000;

/// How long one tick of a 128-tick server takes, in nanoseconds: the interval the radar
/// keeps to.
pub const TICK_NANOS: u64 = 7_812_500;

/// What the radar last saw of the round: the tick it last published, the round, the game
/// phase and whether the bomb was dropped. A change of round, phase or drop status makes
/// the radar rebuild its cache; a new tick makes it publish.
#[derive(Clone, Copy, Debug, PartialEq, Eq, Structural)]
pub struct RoundState {
    pub last_tickcount: i32,
    pub last_round: i32,
    pub last_gamephase: i32,
    pub last_bomb_dropped: bool,
}

impl RoundState {
    /// Nothing seen yet: tick, round and phase -1, the bomb not dropped.
    pub fn new() -> (r: RoundState)
        ensures
            r.last_tickcount == -1,
            r.last_round == -1,
            r.last_gamephase == -1,
            !r.last_bomb_dropped,
    {
        RoundState { last_tickcount: -1, last_round: -1, last_gamephase: -1, last_bomb_dropped: false }
    }
}

/// What a tick of the radar decided.
pub enum TickOutcome {
    /// The game's process exited: the radar stops.
    ProcessExited,
    /// Hand `data` to the clients and tick again at once.
    PublishThenRepeat(RadarData),
    /// Tick again at once (the cache was invalidated).
    Repeat,
    /// Hand `data` to the clients, then keep to the tick interval.
    PublishThenWait(RadarData),
    /// Nothing new: keep to the tick interval.
    Wait,
}

/// What a tick decided, with its radar data seen as plain values.
pub ghost enum TickView {
    Stop,
    PublishThenRepeat(bool, Seq<char>, Seq<EntityData>),
    Repeat,
    PublishThenWait(bool, Seq<char>, Seq<EntityData>),
    Wait,
}

/// The view of a tick's outcome.
pub open spec fn tick_view(o: &TickOutcome) -> TickView {
    match o {
        TickOutcome::ProcessExited => TickView::Stop,
        TickOutcome::PublishThenRepeat(d) => TickView::PublishThenRepeat(d.ingame, d.map_name@, d.entity_data@),
        TickOutcome::Repeat => TickView::Repeat,
        TickOutcome::PublishThenWait(d) => TickView::PublishThenWait(d.ingame, d.map_name@, d.entity_data@),
        TickOutcome::Wait => TickView::Wait,
    }
}

/// The reads of a cache rebuild and the cache it built: the global variables, the highest
/// entity index, the entity list, the game rules, the local player and its pawn; where the
/// local player has a pawn, the local player first and then what entity indices 1 up to
/// and including the highest index add; where it has none, nothing. The cache is valid.
pub open spec fn rebuild_reads(ctx: DmaCtx, t: Seq<MemRead>, cache: Cache) -> bool {
    let o = ctx.offsets;
    let base = ctx.client_module;
    let el = value_of(t[3]) as u64;
    let local = value_of(t[5]) as u64;
    let k = lookup_len(t[7]);
    let pawn: Option<u64> = if k == 1 { None } else { Some(value_of(t[8]) as u64) };
    &&& t.len() >= 8
    &&& pointer_read_gave(t.subrange(0, 1), base, o.global_vars, value_of(t[0]) as u64)
    &&& pointer_then_i32(t.subrange(1, 3), base, o.game_entity_system, o.game_entity_system_highest_entity_index, value_of(t[2]) as i32)
    &&& pointer_read_gave(t.subrange(3, 4), base, o.entity_list, el)
    &&& pointer_read_gave(t.subrange(4, 5), base, o.game_rules, value_of(t[4]) as u64)
    &&& pointer_read_gave(t.subrange(5, 6), base, o.local_player_controller, local)
    &&& t.len() >= 7 + k
    &&& local_pawn_reads(o, el, local, t.subrange(6, 7 + k), pawn)
    &&& cache.globals.0 == value_of(t[0]) as u64
    &&& cache.gamerules.0 == value_of(t[4]) as u64
    &&& cache.entity_list == el
    &&& cache.valid
    &&& cache.timestamp is Some
    &&& match pawn {
        Some(_) => exists|found: Seq<CachedEntity>| {
            &&& entity_scan_reads(o, el, local, 1, value_of(t[2]) + 1, t.subrange(7 + k, t.len() as int), found)
            &&& cache.entity_cache@ == seq![CachedEntity::Player { ptr: local, player_type: PlayerType::Local }] + found
        },
        None => t.len() == 7 + k && cache.entity_cache@.len() == 0,
    }
}

/// One entity index of a rebuild: the entity it adds, if any.
fn cache_entity_at(ctx: &mut CheatCtx, entity_list: u64, local: &CPlayerController, index: i32) -> (r: Result<Option<CachedEntity>, RadarError>)
    ensures
        final(ctx).0.same_game(old(ctx).0),
        reads_grew(old(ctx).0, final(ctx).0),
        match r {
            Ok(out) => entity_step_reads(old(ctx).0.offsets, entity_list, local.0, index, reads_between(old(ctx).0, final(ctx).0), out),
            Err(e) => failed_read(e),
        },
{
    let ghost s0 = ctx.0;
    let entity = match CBaseEntity::from_index(ctx, entity_list, index)? {
        Some(e) => e,
        None => return Ok(None),
    };
    let ghost s1 = ctx.0;
    let class_name = entity.class_name(ctx)?;
    let ghost s2 = ctx.0;
    proof {
        lemma_reads_grew_trans(s0, s1, s2);
        let t = reads_between(s0, s2);
        assert(t.subrange(0, 2) =~= reads_between(s0, s1));
        assert(t.subrange(2, 5) =~= reads_between(s1, s2));
    }
    let is_c4 = class_name == "weapon_c4".to_owned();
    let is_controller = class_name == "cs_player_controller".to_owned();
    proof {
        let t = reads_between(s0, s2);
        assert(value_of(t[1]) as u64 == entity.0);
        assert(text_of(t[4]) == class_name@);
    }
    if is_c4 {
        Ok(Some(CachedEntity::Bomb { ptr: entity.0 }))
    } else if is_controller {
        let controller = entity.to_player_controller();
        let player_type = controller.get_player_type(ctx, local)?;
        proof {
            lemma_reads_grew_trans(s0, s2, ctx.0);
            let t = reads_between(s0, ctx.0);
            assert(t.subrange(0, 2) =~= reads_between(s0, s1));
            assert(t.subrange(2, 5) =~= reads_between(s1, s2));
            assert(t.subrange(5, t.len() as int) =~= reads_between(s2, ctx.0));
            assert(player_type_reads(s0.offsets, entity.0, local.0, t.subrange(5, t.len() as int), player_type));
        }
        let out = match player_type {
            Some(t) => {
                if t == PlayerType::Spectator {
                    None
                } else {
                    Some(CachedEntity::Player { ptr: entity.0, player_type: t })
                }
            },
            None => None,
        };
        proof {
            let t = reads_between(s0, ctx.0);
            assert(player_type_reads(s0.offsets, entity.0, local.0, t.subrange(5, t.len() as int), player_type)
                && out == followed_player(entity.0, player_type));
        }
        Ok(out)
    } else {
        Ok(None)
    }
}

/// Rebuilds the cache: reads the global variables, the highest entity index, the entity
/// list and the game rules; where the local player has a pawn, follows the local player and
/// then every bomb and every player of a known type but spectators among entity indices 1
/// up to and including the highest index.
pub fn rebuild_cache(ctx: &mut CheatCtx) -> (r: Result<Cache, RadarError>)
    ensures
        final(ctx).0.same_game(old(ctx).0),
        reads_grew(old(ctx).0, final(ctx).0),
        match r {
            Ok(cache) => rebuild_reads(old(ctx).0, reads_between(old(ctx).0, final(ctx).0), cache),
            Err(e) => failed_read(e),
        },
{
    let ghost s0 = ctx.0;
    let globals = ctx.get_globals()?;
    let ghost s1 = ctx.0;
    let highest_index = ctx.highest_entity_index()?;
    let ghost s2 = ctx.0;
    let entity_list = ctx.get_entity_list()?;
    let ghost s3 = ctx.0;
    let gamerules = ctx.get_gamerules()?;
    let ghost s4 = ctx.0;
    let local = ctx.get_local()?;
    let ghost s5 = ctx.0;
    let pawn = local.get_pawn(ctx, entity_list)?;
    let ghost s6 = ctx.0;
    proof {
        lemma_reads_grew_trans(s0, s1, s2);
        lemma_reads_grew_trans(s0, s2, s3);
        lemma_reads_grew_trans(s0, s3, s4);
        lemma_reads_grew_trans(s0, s4, s5);
        lemma_reads_grew_trans(s0, s5, s6);
    }
    let mut cached_entities: Vec<CachedEntity> = Vec::new();
    let ghost mut pieces: Seq<Seq<MemRead>> = Seq::empty();
    let ghost mut outs: Seq<Option<CachedEntity>> = Seq::empty();
    if pawn.is_some() {
        cached_entities.push(CachedEntity::Player { ptr: local.0, player_type: PlayerType::Local });
        let mut idx: i64 = 1;
        while idx <= highest_index as i64
            invariant
                1 <= idx,
                idx <= highest_index as i64 + 1 || idx == 1,
                s0 == old(ctx).0,
                ctx.0.same_game(s0),
                reads_grew(s0, s6),
                reads_grew(s6, ctx.0),
                pieces.len() == idx - 1,
                outs.len() == idx - 1,
                forall|i: int| 0 <= i < idx - 1 ==> entity_step_reads(s0.offsets, entity_list, local.0, (1 + i) as i32, #[trigger] pieces[i], outs[i]),
                reads_between(s6, ctx.0) == concat(pieces),
                cached_entities@ == seq![CachedEntity::Player { ptr: local.0, player_type: PlayerType::Local }] + present(outs),
            decreases highest_index as i64 + 1 - idx,
        {
            let ghost before = ctx.0;
            let index = idx as i32;
            let out = cache_entity_at(ctx, entity_list, &local, index)?;
            proof {
                lemma_reads_grew_trans(s6, before, ctx.0);
                let p = reads_between(before, ctx.0);
                lemma_concat_push(pieces, p);
                assert(outs.push(out).drop_last() =~= outs);
                pieces = pieces.push(p);
                outs = outs.push(out);
            }
            if let Some(entity) = out {
                cached_entities.push(entity);
            }
            idx += 1;
        }
        proof {
            lemma_reads_grew_trans(s0, s6, ctx.0);
        }
    }
    let cache = match CacheBuilder::new()
        .entity_cache(cached_entities)
        .entity_list(entity_list)
        .globals(globals)
        .gamerules(gamerules)
        .build() {
        Ok(c) => c,
        Err(_) => {
            proof { assert(false); }
            return Ok(Cache::new_invalid());
        },
    };
    proof {
        let t = reads_between(s0, ctx.0);
        assert(t.subrange(0, 1) =~= reads_between(s0, s1));
        assert(t.subrange(1, 3) =~= reads_between(s1, s2));
        assert(t.subrange(3, 4) =~= reads_between(s2, s3));
        assert(t.subrange(4, 5) =~= reads_between(s3, s4));
        assert(t.subrange(5, 6) =~= reads_between(s4, s5));
        let k = lookup_len(t[7]);
        assert(t.subrange(6, 7 + k) =~= reads_between(s5, s6));
        if pawn.is_some() {
            assert(t.subrange(7 + k, t.len() as int) =~= reads_between(s6, ctx.0));
            assert(entity_scan_with(s0.offsets, entity_list, local.0, 1, value_of(t[2]) + 1, t.subrange(7 + k, t.len() as int), present(outs), pieces, outs));
        }
    }
    Ok(cache)
}


/// The reads that a followed bomb makes while the radar collects its data, and what it
/// adds: the game rules' dropped flag; where set, the bomb's position.
pub open spec fn bomb_step_reads(o: Offsets, gamerules: u64, ptr: u64, t: Seq<MemRead>, out: Option<EntityData>) -> bool {
    &&& t.len() >= 1
    &&& read_at(t[0], wrap_addr(gamerules + o.game_rules_bomb_dropped), 1)
    &&& if value_of(t[0]) == 0 {
        t.len() == 1 && out is None
    } else {
        &&& t.len() == 3
        &&& scene_origin_reads(o, ptr, t.subrange(1, 3), triple_of(t[2]))
        &&& out == Some(EntityData::Bomb(BombData { pos: triple_of(t[2]), planted: false }))
    }
}

/// The reads that one followed entity makes while the radar collects its data, and what it
/// adds: a bomb its position while dropped; a player position, yaw, type and whether it
/// carries the bomb, while it has a pawn whose health is above zero.
pub open spec fn radar_step_reads(o: Offsets, cache: Cache, c: CachedEntity, t: Seq<MemRead>, out: Option<EntityData>) -> bool {
    match c {
        CachedEntity::Bomb { ptr } => bomb_step_reads(o, cache.gamerules.0, ptr, t, out),
        CachedEntity::Player { ptr, player_type } => player_step_reads(o, cache.entity_list, ptr, player_type, t, out),
    }
}

/// The reads of a collection of radar data from `cache`, and the data: the planted bomb
/// first, with its position, where the game rules say it is planted; then what each
/// followed entity adds, in order.
pub open spec fn radar_reads(ctx: DmaCtx, cache: Cache, t: Seq<MemRead>, data: Seq<EntityData>) -> bool {
    let o = ctx.offsets;
    let planted = value_of(t[0]) != 0;
    let m: int = if planted { 5 } else { 1 };
    let head: Seq<EntityData> = if planted {
        seq![EntityData::Bomb(BombData { pos: triple_of(t[4]), planted: true })]
    } else {
        Seq::empty()
    };
    let entities = cache.entity_cache@;
    &&& t.len() >= m
    &&& read_at(t[0], wrap_addr(cache.gamerules.0 + o.game_rules_bomb_planted), 1)
    &&& planted ==> {
        &&& double_pointer_read(t.subrange(1, 3), ctx.client_module, o.planted_c4)
        &&& scene_origin_reads(o, value_of(t[2]) as u64, t.subrange(3, 5), triple_of(t[4]))
    }
    &&& exists|pieces: Seq<Seq<MemRead>>, outs: Seq<Option<EntityData>>| {
        &&& pieces.len() == entities.len()
        &&& outs.len() == entities.len()
        &&& forall|i: int| 0 <= i < entities.len() ==> radar_step_reads(o, cache, entities[i], #[trigger] pieces[i], outs[i])
        &&& t.subrange(m, t.len() as int) == concat(pieces)
        &&& data == head + present(outs)
    }
}

/// One followed entity's part of the radar data.
fn radar_entity(ctx: &mut CheatCtx, cache: &Cache, c: CachedEntity) -> (r: Result<Option<EntityData>, RadarError>)
    ensures
        final(ctx).0.same_game(old(ctx).0),
        reads_grew(old(ctx).0, final(ctx).0),
        match r {
            Ok(out) => radar_step_reads(old(ctx).0.offsets, *cache, c, reads_between(old(ctx).0, final(ctx).0), out),
            Err(e) => failed_read(e),
        },
{
    let ghost s0 = ctx.0;
    match c {
        CachedEntity::Bomb { ptr } => {
            if cache.gamerules().bomb_dropped(ctx)? {
                let ghost s1 = ctx.0;
                let bomb_entity = CBaseEntity(ptr);
                let pos = bomb_entity.pos(ctx)?;
                proof {
                    lemma_reads_grew_trans(s0, s1, ctx.0);
                    let t = reads_between(s0, ctx.0);
                    assert(t.subrange(1, 3) =~= reads_between(s1, ctx.0));
                }
                Ok(Some(EntityData::Bomb(BombData::new(pos, false))))
            } else {
                Ok(None)
            }
        },
        CachedEntity::Player { ptr, player_type } => {
            let controller = CPlayerController(ptr);
            let entity_list = cache.entity_list();
            let pawn = controller.get_pawn(ctx, entity_list)?;
            let ghost s1 = ctx.0;
            match pawn {
                None => {
                    proof {
                        let t = reads_between(s0, ctx.0);
                        assert(t.subrange(0, t.len() as int) =~= t);
                        assert(t.subrange(1, t.len() as int).len() == 1);
                    }
                    Ok(None)
                },
                Some(pawn) => {
                    let alive = pawn.is_alive(ctx)?;
                    let ghost s2 = ctx.0;
                    proof {
                        lemma_reads_grew_trans(s0, s1, s2);
                    }
                    if !alive {
                        proof {
                            let t = reads_between(s0, ctx.0);
                            assert(t[1] == reads_between(s0, s1)[1]);
                            assert(t[2] == reads_between(s0, s1)[2]);
                            assert(t.subrange(0, 3) =~= reads_between(s0, s1));
                            assert(t.subrange(3, t.len() as int) =~= reads_between(s1, s2));
                        }
                        return Ok(None);
                    }
                    let pos = pawn.pos(ctx)?;
                    let ghost s3 = ctx.0;
                    let yaw = pawn.angles(ctx)?.y;
                    let ghost s4 = ctx.0;
                    let has_bomb = pawn.has_c4(ctx, entity_list)?;
                    let out = Some(EntityData::Player(PlayerData::new(pos, yaw, player_type, has_bomb)));
                    proof {
                        lemma_reads_grew_trans(s0, s2, s3);
                        lemma_reads_grew_trans(s0, s3, s4);
                        lemma_reads_grew_trans(s0, s4, ctx.0);
                        lemma_reads_grew_trans(s1, s2, s3);
                        lemma_reads_grew_trans(s1, s3, s4);
                        lemma_reads_grew_trans(s1, s4, ctx.0);
                        let t = reads_between(s0, ctx.0);
                        assert(t[1] == reads_between(s0, s1)[1]);
                        assert(t[2] == reads_between(s0, s1)[2]);
                        assert(t.subrange(0, 3) =~= reads_between(s0, s1));
                        let u = t.subrange(3, t.len() as int);
                        assert(u =~= reads_between(s1, ctx.0));
                        assert(u[0] == reads_between(s1, s2)[0]);
                        assert(u[1] == reads_between(s2, s3)[0]);
                        assert(u[2] == reads_between(s3, s4)[0]);
                        assert(u.subrange(3, u.len() as int) =~= reads_between(s4, ctx.0));
                    }
                    Ok(out)
                },
            }
        },
    }
}

/// The radar data for a new tick: the planted bomb, if planted, then what each followed
/// entity adds.
pub fn collect_radar_data(ctx: &mut CheatCtx, cache: &mut Cache) -> (r: Result<Vec<EntityData>, RadarError>)
    ensures
        final(ctx).0.same_game(old(ctx).0),
        reads_grew(old(ctx).0, final(ctx).0),
        *final(cache) == *old(cache),
        match r {
            Ok(data) => radar_reads(old(ctx).0, *old(cache), reads_between(old(ctx).0, final(ctx).0), data@),
            Err(e) => failed_read(e),
        },
{
    let ghost s0 = ctx.0;
    let mut radar_data: Vec<EntityData> = Vec::new();
    let planted = cache.gamerules().bomb_planted(ctx)?;
    let ghost s1 = ctx.0;
    if planted {
        let bomb = ctx.get_plantedc4()?;
        let ghost s2 = ctx.0;
        let bomb_pos = bomb.pos(ctx)?;
        proof {
            lemma_reads_grew_trans(s1, s2, ctx.0);
            let t = reads_between(s1, ctx.0);
            assert(t.subrange(0, 2) =~= reads_between(s1, s2));
            assert(t.subrange(2, 4) =~= reads_between(s2, ctx.0));
        }
        radar_data.push(EntityData::Bomb(BombData::new(bomb_pos, true)));
    }
    let ghost s_head = ctx.0;
    proof {
        lemma_reads_grew_trans(s0, s1, s_head);
    }
    let entities = cache.entity_cache();
    let ghost head = radar_data@;
    let ghost mut pieces: Seq<Seq<MemRead>> = Seq::empty();
    let ghost mut outs: Seq<Option<EntityData>> = Seq::empty();
    let mut i: usize = 0;
    while i < entities.len()
        invariant
            i <= entities@.len(),
            entities@ == old(cache).entity_cache@,
            s0 == old(ctx).0,
            ctx.0.same_game(s0),
            reads_grew(s0, s_head),
            reads_grew(s_head, ctx.0),
            pieces.len() == i,
            outs.len() == i,
            forall|j: int| 0 <= j < i ==> radar_step_reads(s0.offsets, *old(cache), entities@[j], #[trigger] pieces[j], outs[j]),
            *cache == *old(cache),
            reads_between(s_head, ctx.0) == concat(pieces),
            radar_data@ == head + present(outs),
        decreases entities@.len() - i,
    {
        let ghost before = ctx.0;
        let out = radar_entity(ctx, cache, entities[i]);
        let out = out?;
        proof {
            lemma_reads_grew_trans(s_head, before, ctx.0);
            let p = reads_between(before, ctx.0);
            lemma_concat_push(pieces, p);
            assert(outs.push(out).drop_last() =~= outs);
            pieces = pieces.push(p);
            outs = outs.push(out);
        }
        if let Some(d) = out {
            radar_data.push(d);
        }
        i += 1;
    }
    proof {
        lemma_reads_grew_trans(s0, s_head, ctx.0);
        let t = reads_between(s0, ctx.0);
        let m: int = if planted { 5 } else { 1 };
        assert(t.subrange(0, 1) =~= reads_between(s0, s1));
        assert(t.subrange(m, t.len() as int) =~= concat(pieces));
        if planted {
            assert(t.subrange(1, 3) =~= reads_between(s1, s_head).subrange(0, 2));
            assert(t.subrange(3, 5) =~= reads_between(s1, s_head).subrange(2, 4));
        }
    }
    Ok(radar_data)
}


/// A rebuild's reads and the cache it built, or no reads where the cache was kept (a valid,
/// built one).
pub open spec fn rebuilt_or_kept(ctx: DmaCtx, before: Cache, t: Seq<MemRead>, mid: Cache) -> bool {
    ||| (t.len() == 0 && mid == before && before.valid && before.timestamp is Some)
    ||| rebuild_reads(ctx, t, mid)
}

/// The reads of a tick after its first part, which rebuilt the cache where needed (see
/// [`tick_trace`]), and what it decided, with `c` the cache it used: whether the network
/// client is in game (sign-on state 6); if not, wait.
pub open spec fn tick_reads(ctx: DmaCtx, c: Cache, s: RoundState, t: Seq<MemRead>, c2: Cache, s2: RoundState, out: TickView) -> bool {
    let o = ctx.offsets;
    &&& t.len() >= 2
    &&& read_at(t[0], wrap_addr(ctx.engine_module + o.network_game_client), 8)
    &&& read_at(t[1], wrap_addr(value_of(t[0]) + o.network_game_client_sign_on_state), 4)
    &&& if value_of(t[1]) != 6 {
        t.len() == 2 && c2 == c && s2 == s && out == TickView::Wait
    } else {
        ingame_reads(ctx, c, s, t.subrange(2, t.len() as int), c2, s2, out)
    }
}

/// [`tick_reads`] once in game: the map's name; `<empty>` means no map, so the clients get
/// empty data at once and the round and phase are forgotten; an empty name means the
/// globals are stale, so the cache is invalidated.
pub open spec fn ingame_reads(ctx: DmaCtx, c: Cache, s: RoundState, t: Seq<MemRead>, c2: Cache, s2: RoundState, out: TickView) -> bool {
    let map = text_of(t[1]);
    &&& t.len() >= 2
    &&& read_at(t[0], wrap_addr(c.globals.0 + 0x188), 8)
    &&& text_at(t[1], value_of(t[0]) as u64, 32)
    &&& if map == "<empty>"@ {
        &&& t.len() == 2
        &&& c2 == c
        &&& s2 == (RoundState { last_tickcount: s.last_tickcount, last_round: -1i32, last_gamephase: -1i32, last_bomb_dropped: s.last_bomb_dropped })
        &&& out == TickView::PublishThenRepeat(false, Seq::empty(), Seq::empty())
    } else if map.len() == 0 {
        t.len() == 2 && c2 == invalidated(c) && s2 == s && out == TickView::Repeat
    } else {
        round_reads(ctx, c, s, map, t.subrange(2, t.len() as int), c2, s2, out)
    }
}

/// [`ingame_reads`] on a map: the rounds played, the game phase, the bomb's drop status and
/// the tick count, in turn; the first of the first three that changed is noted and
/// invalidates the cache; else a new tick is noted and its data collected and handed on.
pub open spec fn round_reads(ctx: DmaCtx, c: Cache, s: RoundState, map: Seq<char>, t: Seq<MemRead>, c2: Cache, s2: RoundState, out: TickView) -> bool {
    let o = ctx.offsets;
    let round = value_of(t[0]) as i32;
    let phase = value_of(t[1]) as i32;
    let dropped = value_of(t[2]) != 0;
    let tick = value_of(t[3]) as i32;
    &&& t.len() >= 1
    &&& read_at(t[0], wrap_addr(c.gamerules.0 + o.game_rules_total_rounds_played), 4)
    &&& if round != s.last_round {
        &&& t.len() == 1
        &&& c2 == invalidated(c)
        &&& s2 == (RoundState { last_round: round, ..s })
        &&& out == TickView::Repeat
    } else {
        &&& t.len() >= 2
        &&& read_at(t[1], wrap_addr(c.gamerules.0 + o.game_rules_game_phase), 4)
        &&& if phase != s.last_gamephase {
            &&& t.len() == 2
            &&& c2 == invalidated(c)
            &&& s2 == (RoundState { last_gamephase: phase, ..s })
            &&& out == TickView::Repeat
        } else {
            &&& t.len() >= 3
            &&& read_at(t[2], wrap_addr(c.gamerules.0 + o.game_rules_bomb_dropped), 1)
            &&& if dropped != s.last_bomb_dropped {
                &&& t.len() == 3
                &&& c2 == invalidated(c)
                &&& s2 == (RoundState { last_bomb_dropped: dropped, ..s })
                &&& out == TickView::Repeat
            } else {
                &&& t.len() >= 4
                &&& read_at(t[3], wrap_addr(c.globals.0 + 0x40), 4)
                &&& if tick != s.last_tickcount {
                    &&& c2 == c
                    &&& s2 == (RoundState { last_tickcount: tick, ..s })
                    &&& exists|data: Seq<EntityData>| {
                        &&& #[trigger] radar_reads(ctx, c, t.subrange(4, t.len() as int), data)
                        &&& out == TickView::PublishThenWait(true, map, data)
                    }
                } else {
                    t.len() == 4 && c2 == c && s2 == s && out == TickView::Wait
                }
            }
        }
    }
}

/// The reads of a tick that found the process alive, cut where the cache was made fresh,
/// and what it decided.
pub open spec fn tick_trace(ctx: DmaCtx, before: Cache, s: RoundState, t: Seq<MemRead>, after: Cache, s2: RoundState, out: TickView) -> bool {
    exists|k: int, mid: Cache| #![trigger rebuilt_or_kept(ctx, before, t.subrange(0, k), mid)] {
        &&& 0 <= k <= t.len()
        &&& rebuilt_or_kept(ctx, before, t.subrange(0, k), mid)
        &&& tick_reads(ctx, mid, s, t.subrange(k, t.len() as int), after, s2, out)
    }
}

/// Reads made in two steps are the first step's followed by the second's.
proof fn lemma_split_at(a: DmaCtx, b: DmaCtx, c: DmaCtx)
    requires
        reads_grew(a, b),
        reads_grew(b, c),
    ensures
        reads_grew(a, c),
        reads_between(a, c).subrange(0, reads_between(a, b).len() as int) == reads_between(a, b),
        reads_between(a, c).subrange(reads_between(a, b).len() as int, reads_between(a, c).len() as int) == reads_between(b, c),
        forall|i: int| 0 <= i < reads_between(a, b).len() ==> reads_between(a, c)[i] == #[trigger] reads_between(a, b)[i],
        forall|i: int| 0 <= i < reads_between(b, c).len() ==> reads_between(a, c)[reads_between(a, b).len() + i] == #[trigger] reads_between(b, c)[i],
{
    lemma_reads_grew_trans(a, b, c);
    assert(reads_between(a, c).subrange(0, reads_between(a, b).len() as int) =~= reads_between(a, b));
    assert(reads_between(a, c).subrange(reads_between(a, b).len() as int, reads_between(a, c).len() as int) =~= reads_between(b, c));
}

/// The reads of a tick that found the process alive: the check of the process's state,
/// which said it was not dead, then what [`tick_trace`] says.
pub open spec fn alive_tick_trace(ctx: DmaCtx, before: Cache, s: RoundState, t: Seq<MemRead>, after: Cache, s2: RoundState, out: TickView) -> bool {
    &&& t.len() >= 1
    &&& t[0] == MemRead::ProcessState { dead: false }
    &&& tick_trace(ctx, before, s, t.subrange(1, t.len() as int), after, s2, out)
}

/// A tick that found the process alive (between `s0` and `s1`) and whose cache was made
/// fresh between `s1` and `s2` decided as [`tick_reads`] says.
proof fn lemma_tick_trace(s0: DmaCtx, s1: DmaCtx, s2: DmaCtx, end: DmaCtx, before: Cache, mid: Cache, st: RoundState, c2: Cache, st2: RoundState, out: TickView)
    requires
        s1.reads@ == s0.reads@.push(MemRead::ProcessState { dead: false }),
        reads_grew(s1, s2),
        reads_grew(s2, end),
        rebuilt_or_kept(s0, before, reads_between(s1, s2), mid),
        tick_reads(s0, mid, st, reads_between(s2, end), c2, st2, out),
    ensures
        alive_tick_trace(s0, before, st, reads_between(s0, end), c2, st2, out),
{
    lemma_split_at(s1, s2, end);
    assert(reads_grew(s0, s1));
    lemma_split_at(s0, s1, end);
    let t = reads_between(s0, end);
    let t1 = reads_between(s1, end);
    assert(t.subrange(1, t.len() as int) =~= t1);
    assert(reads_between(s0, s1)[0] == MemRead::ProcessState { dead: false });
    let k = reads_between(s1, s2).len() as int;
    assert(rebuilt_or_kept(s0, before, t1.subrange(0, k), mid));
}

/// One tick of the radar: checks the process's state and stops where memflow reports it
/// exited; else rebuilds the cache where it is no longer valid; waits while the network client is not in game; else reads the map's
/// name and the round, phase, drop status and tick in turn, and hands on empty data,
/// invalidates the cache, or hands on the new tick's data, as [`tick_reads`] says.
pub fn tick(ctx: &mut CheatCtx, cache: &mut Cache, state: &mut RoundState) -> (r: Result<TickOutcome, RadarError>)
    ensures
        final(ctx).0.same_game(old(ctx).0),
        reads_grew(old(ctx).0, final(ctx).0),
        match r {
            Ok(TickOutcome::ProcessExited) => {
                &&& final(ctx).0.reads@ == old(ctx).0.reads@.push(MemRead::ProcessState { dead: true })
                &&& *final(cache) == *old(cache)
                &&& *final(state) == *old(state)
            },
            Ok(out) => alive_tick_trace(old(ctx).0, *old(cache), *old(state), reads_between(old(ctx).0, final(ctx).0), *final(cache),
                *final(state), tick_view(&out)),
            Err(e) => {
                let t = reads_between(old(ctx).0, final(ctx).0);
                &&& failed_read(e)
                &&& *final(state) == *old(state)
                &&& t.len() >= 1
                &&& t[0] == MemRead::ProcessState { dead: false }
            },
        },
{
    let ghost s0 = ctx.0;
    let ghost c0 = *cache;
    let ghost st0 = *state;
    if process_is_dead(&mut ctx.0) {
        return Ok(TickOutcome::ProcessExited);
    }
    let ghost s1 = ctx.0;
    assert(reads_grew(s0, s1));
    assert(s1.reads@[s0.reads@.len() as int] == MemRead::ProcessState { dead: false });
    if !cache.is_valid() {
        let rebuilt = rebuild_cache(ctx)?;
        *cache = rebuilt;
    }
    let ghost s2 = ctx.0;
    let ghost mid = *cache;
    proof {
        lemma_reads_grew_trans(s0, s1, s2);
    }
    assert(rebuilt_or_kept(s0, c0, reads_between(s1, s2), mid));
    let ingame = ctx.network_is_ingame()?;
    let ghost s3 = ctx.0;
    if !ingame {
        proof {
            assert(tick_reads(s0, mid, st0, reads_between(s2, s3), *cache, *state, TickView::Wait));
            lemma_tick_trace(s0, s1, s2, s3, c0, mid, st0, *cache, *state, TickView::Wait);
        }
        return Ok(TickOutcome::Wait);
    }
    let map_name = cache.globals().map_name(ctx)?;
    let ghost s4 = ctx.0;
    proof {
        lemma_split_at(s2, s3, s4);
    }
    let no_map = map_name == "<empty>".to_owned();
    if no_map {
        state.last_round = -1;
        state.last_gamephase = -1;
        let data = RadarData::empty();
        proof {
            let u = reads_between(s2, s4);
            assert(data.map_name@ =~= Seq::<char>::empty());
            assert(data.entity_data@ =~= Seq::<EntityData>::empty());
            assert(u.subrange(2, u.len() as int) =~= reads_between(s3, s4));
            let out = tick_view(&TickOutcome::PublishThenRepeat(data));
            assert(tick_reads(s0, mid, st0, u, *cache, *state, out));
            lemma_tick_trace(s0, s1, s2, s4, c0, mid, st0, *cache, *state, out);
        }
        return Ok(TickOutcome::PublishThenRepeat(data));
    } else if map_name.as_str().is_empty() {
        cache.invalidate();
        proof {
            let u = reads_between(s2, s4);
            assert(u.subrange(2, u.len() as int) =~= reads_between(s3, s4));
            assert(tick_reads(s0, mid, st0, u, *cache, *state, TickView::Repeat));
            lemma_tick_trace(s0, s1, s2, s4, c0, mid, st0, *cache, *state, TickView::Repeat);
        }
        return Ok(TickOutcome::Repeat);
    }
    let cur_round = cache.gamerules().total_rounds_played(ctx)?;
    let ghost s5 = ctx.0;
    proof {
        lemma_split_at(s2, s3, s5);
        lemma_split_at(s3, s4, s5);
    }
    if cur_round != state.last_round {
        state.last_round = cur_round;
        cache.invalidate();
        proof {
            let u = reads_between(s2, s5);
            let v = reads_between(s3, s5);
            assert(u.subrange(2, u.len() as int) =~= v);
            assert(v.subrange(2, v.len() as int) =~= reads_between(s4, s5));
            assert(tick_reads(s0, mid, st0, u, *cache, *state, TickView::Repeat));
            lemma_tick_trace(s0, s1, s2, s5, c0, mid, st0, *cache, *state, TickView::Repeat);
        }
        return Ok(TickOutcome::Repeat);
    }
    let cur_gamephase = cache.gamerules().game_phase(ctx)?;
    let ghost s6 = ctx.0;
    proof {
        lemma_split_at(s2, s3, s6);
        lemma_split_at(s3, s4, s6);
        lemma_split_at(s4, s5, s6);
    }
    if cur_gamephase != state.last_gamephase {
        state.last_gamephase = cur_gamephase;
        cache.invalidate();
        proof {
            let u = reads_between(s2, s6);
            let v = reads_between(s3, s6);
            let w = reads_between(s4, s6);
            assert(u.subrange(2, u.len() as int) =~= v);
            assert(v.subrange(2, v.len() as int) =~= w);
            assert(tick_reads(s0, mid, st0, u, *cache, *state, TickView::Repeat));
            lemma_tick_trace(s0, s1, s2, s6, c0, mid, st0, *cache, *state, TickView::Repeat);
        }
        return Ok(TickOutcome::Repeat);
    }
    let cur_bomb_dropped = cache.gamerules().bomb_dropped(ctx)?;
    let ghost s7 = ctx.0;
    proof {
        lemma_split_at(s2, s3, s7);
        lemma_split_at(s3, s4, s7);
        lemma_split_at(s4, s5, s7);
        lemma_split_at(s5, s6, s7);
    }
    if cur_bomb_dropped != state.last_bomb_dropped {
        state.last_bomb_dropped = cur_bomb_dropped;
        cache.invalidate();
        proof {
            let u = reads_between(s2, s7);
            let v = reads_between(s3, s7);
            let w = reads_between(s4, s7);
            assert(u.subrange(2, u.len() as int) =~= v);
            assert(v.subrange(2, v.len() as int) =~= w);
            assert(tick_reads(s0, mid, st0, u, *cache, *state, TickView::Repeat));
            lemma_tick_trace(s0, s1, s2, s7, c0, mid, st0, *cache, *state, TickView::Repeat);
        }
        return Ok(TickOutcome::Repeat);
    }
    let cur_tickcount = cache.globals().tick_count(ctx)?;
    let ghost s8 = ctx.0;
    proof {
        lemma_split_at(s7, s8, s8);
    }
    if cur_tickcount != state.last_tickcount {
        let data = collect_radar_data(ctx, cache)?;
        state.last_tickcount = cur_tickcount;
        let out = RadarData::new(true, map_name, data);
        proof {
            let e = ctx.0;
            lemma_split_at(s2, s3, e);
            lemma_split_at(s3, s4, e);
            lemma_split_at(s4, s5, e);
            lemma_split_at(s5, s6, e);
            lemma_split_at(s6, s7, e);
            lemma_split_at(s7, s8, e);
            let u = reads_between(s2, e);
            let v = reads_between(s3, e);
            let w = reads_between(s4, e);
            assert(u.subrange(2, u.len() as int) =~= v);
            assert(v.subrange(2, v.len() as int) =~= w);
            assert(w.subrange(4, w.len() as int) =~= reads_between(s8, e));
            assert(radar_reads(s0, mid, w.subrange(4, w.len() as int), out.entity_data@));
            let view = tick_view(&TickOutcome::PublishThenWait(out));
            assert(tick_reads(s0, mid, st0, u, *cache, *state, view));
            lemma_tick_trace(s0, s1, s2, e, c0, mid, st0, *cache, *state, view);
        }
        return Ok(TickOutcome::PublishThenWait(out));
    }
    proof {
        lemma_split_at(s2, s3, s8);
        lemma_split_at(s3, s4, s8);
        lemma_split_at(s4, s5, s8);
        lemma_split_at(s5, s6, s8);
        lemma_split_at(s6, s7, s8);
        let u = reads_between(s2, s8);
        let v = reads_between(s3, s8);
        let w = reads_between(s4, s8);
        assert(u.subrange(2, u.len() as int) =~= v);
        assert(v.subrange(2, v.len() as int) =~= w);
        assert(tick_reads(s0, mid, st0, u, *cache, *state, TickView::Wait));
        lemma_tick_trace(s0, s1, s2, s8, c0, mid, st0, *cache, *state, TickView::Wait);
    }
    Ok(TickOutcome::Wait)
}

/// What is left of the tick interval after a tick that took `elapsed_nanos`, `None` where
/// the tick overran it (the radar then ticks again at once).
pub fn tick_remaining(elapsed_nanos: u128) -> (r: Option<u64>)
    ensures
        match r {
            Some(left) => elapsed_nanos <= TICK_NANOS && left + elapsed_nanos == TICK_NANOS,
            None => elapsed_nanos > TICK_NANOS,
        },
{
    let target = (SECOND_AS_NANO / 128) as u128;
    assert(target == TICK_NANOS);
    if elapsed_nanos <= target {
        Some((target - elapsed_nanos) as u64)
    } else {
        None
    }
}


/// A rebuilt cache follows no spectator.
pub proof fn rebuilt_cache_follows_no_spectator(ctx: DmaCtx, t: Seq<MemRead>, cache: Cache)
    requires
        rebuild_reads(ctx, t, cache),
    ensures
        forall|i: int| 0 <= i < cache.entity_cache@.len() ==> not_spectator(#[trigger] cache.entity_cache@[i]),
{
    let k = lookup_len(t[7]);
    if k != 1 {
        let el = value_of(t[3]) as u64;
        let local = value_of(t[5]) as u64;
        let rest = t.subrange(7 + k, t.len() as int);
        let found = choose|found: Seq<CachedEntity>| {
            &&& #[trigger] entity_scan_reads(ctx.offsets, el, local, 1, value_of(t[2]) + 1, rest, found)
            &&& cache.entity_cache@ == seq![CachedEntity::Player { ptr: local, player_type: PlayerType::Local }] + found
        };
        lemma_scan_no_spectator(ctx.offsets, el, local, 1, value_of(t[2]) + 1, rest, found);
        assert forall|i: int| 0 <= i < cache.entity_cache@.len() implies not_spectator(#[trigger] cache.entity_cache@[i]) by {
            if i > 0 {
                assert(cache.entity_cache@[i] == found[i - 1]);
            }
        }
    }
}

/// A rebuilt cache that follows anything follows the local player first.
pub proof fn rebuilt_cache_follows_local_first(ctx: DmaCtx, t: Seq<MemRead>, cache: Cache)
    requires
        rebuild_reads(ctx, t, cache),
        cache.entity_cache@.len() > 0,
    ensures
        cache.entity_cache@[0] == (CachedEntity::Player { ptr: value_of(t[5]) as u64, player_type: PlayerType::Local }),
        pointer_read_gave(t.subrange(5, 6), ctx.client_module, ctx.offsets.local_player_controller, value_of(t[5]) as u64),
{
}

/// The radar publishes a tick's data at most once: a tick that publishes has read a tick
/// count other than the last one published, and notes it.
pub proof fn published_tick_is_new(ctx: DmaCtx, c: Cache, s: RoundState, t: Seq<MemRead>, c2: Cache, s2: RoundState, ingame: bool, map: Seq<char>, data: Seq<EntityData>)
    requires
        tick_reads(ctx, c, s, t, c2, s2, TickView::PublishThenWait(ingame, map, data)),
    ensures
        s2.last_tickcount != s.last_tickcount,
        s2.last_round == s.last_round,
        s2.last_gamephase == s.last_gamephase,
        s2.last_bomb_dropped == s.last_bomb_dropped,
        c2 == c,
{
}

/// A tick that rebuilt nothing and published nothing new leaves what it saw unchanged,
/// so a game that stands still costs reads and nothing else.
pub proof fn waiting_tick_changes_nothing(ctx: DmaCtx, c: Cache, s: RoundState, t: Seq<MemRead>, c2: Cache, s2: RoundState)
    requires
        tick_reads(ctx, c, s, t, c2, s2, TickView::Wait),
    ensures
        s2 == s,
        c2 == c,
{
}


/// A cache that is not valid (as one never built is not) is rebuilt by the next tick that
/// finds the process alive.
pub proof fn invalid_cache_is_rebuilt(ctx: DmaCtx, before: Cache, s: RoundState, t: Seq<MemRead>, after: Cache, s2: RoundState, out: TickView)
    requires
        tick_trace(ctx, before, s, t, after, s2, out),
        !before.valid,
    ensures
        exists|k: int, mid: Cache| 0 <= k <= t.len() && #[trigger] rebuild_reads(ctx, t.subrange(0, k), mid),
{
    let (k, mid) = choose|k: int, mid: Cache| #![trigger rebuilt_or_kept(ctx, before, t.subrange(0, k), mid)] {
        &&& 0 <= k <= t.len()
        &&& rebuilt_or_kept(ctx, before, t.subrange(0, k), mid)
        &&& tick_reads(ctx, mid, s, t.subrange(k, t.len() as int), after, s2, out)
    };
    assert(rebuild_reads(ctx, t.subrange(0, k), mid));
}


/// What a collection of radar data kept is what some followed entity added.
proof fn lemma_present_from(outs: Seq<Option<EntityData>>, k: int)
    requires
        0 <= k < present(outs).len(),
    ensures
        exists|j: int| 0 <= j < outs.len() && outs[j] == Some(present(outs)[k]),
    decreases outs.len(),
{
    if outs.len() > 0 {
        let rest = outs.drop_last();
        match outs.last() {
            Some(x) => {
                if k == present(rest).len() {
                    assert(outs[outs.len() - 1] == Some(present(outs)[k]));
                } else {
                    lemma_present_from(rest, k);
                    let j = choose|j: int| 0 <= j < rest.len() && rest[j] == Some(present(rest)[k]);
                    assert(outs[j] == Some(present(outs)[k]));
                }
            },
            None => {
                lemma_present_from(rest, k);
                let j = choose|j: int| 0 <= j < rest.len() && rest[j] == Some(present(rest)[k]);
                assert(outs[j] == Some(present(outs)[k]));
            },
        }
    }
}

/// The bomb in a tick's radar data is reported as the game rules have it: where the game
/// rules' planted flag is set, the data begins with the bomb read through the planted-bomb
/// pointer, marked planted; every other bomb in the data was found through the dropped flag
/// and is marked not planted. So clients see a planted bomb as planted, and a dropped one
/// as dropped.
pub proof fn bombs_reported_as_the_game_rules_say(ctx: DmaCtx, cache: Cache, t: Seq<MemRead>, data: Seq<EntityData>)
    requires
        radar_reads(ctx, cache, t, data),
    ensures
        value_of(t[0]) != 0 ==> data.len() >= 1 && data[0] == EntityData::Bomb(BombData { pos: triple_of(t[4]), planted: true }),
        forall|i: int| 0 <= i < data.len() && (value_of(t[0]) != 0 ==> i >= 1) ==> match #[trigger] data[i] {
            EntityData::Bomb(b) => !b.planted,
            EntityData::Player(_) => true,
        },
{
    let o = ctx.offsets;
    let planted = value_of(t[0]) != 0;
    let m: int = if planted { 5 } else { 1 };
    let head: Seq<EntityData> = if planted {
        seq![EntityData::Bomb(BombData { pos: triple_of(t[4]), planted: true })]
    } else {
        Seq::empty()
    };
    let entities = cache.entity_cache@;
    let (pieces, outs) = choose|pieces: Seq<Seq<MemRead>>, outs: Seq<Option<EntityData>>| {
        &&& pieces.len() == entities.len()
        &&& outs.len() == entities.len()
        &&& forall|i: int| 0 <= i < entities.len() ==> radar_step_reads(o, cache, entities[i], #[trigger] pieces[i], outs[i])
        &&& t.subrange(m, t.len() as int) == concat(pieces)
        &&& data == head + present(outs)
    };
    assert forall|i: int| 0 <= i < data.len() && (value_of(t[0]) != 0 ==> i >= 1) implies match #[trigger] data[i] {
        EntityData::Bomb(b) => !b.planted,
        EntityData::Player(_) => true,
    } by {
        let k = i - head.len();
        assert(data[i] == present(outs)[k]);
        lemma_present_from(outs, k);
        let j = choose|j: int| 0 <= j < outs.len() && outs[j] == Some(present(outs)[k]);
        assert(radar_step_reads(o, cache, entities[j], pieces[j], outs[j]));
        match entities[j] {
            CachedEntity::Bomb { ptr } => {},
            CachedEntity::Player { ptr, player_type } => {
                let u = pieces[j];
                if lookup_len(u[1]) != 1 {
                    assert(alive_pawn_reads(o, cache.entity_list, value_of(u[2]) as u64, player_type, u.subrange(3, u.len() as int), outs[j]));
                }
            },
        }
    }
}

} // verus!
