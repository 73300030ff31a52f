use vstd::prelude::*;
use crate::dma::address::{entry_missing, wrap_addr};
use crate::dma::cache::{Cache, CacheBuilder, CachedEntity};
use crate::dma::context::{double_pointer_read, has_c4_reads, pawn_lookup, CheatCtx};
use crate::dma::entity::{class_name_reads, index_lookup, player_type_reads, pointer_read_gave, pointer_then_i32, scene_origin_reads, vec3_read};
use crate::dma::process::{failed_read, process_is_dead, MemRead};
use crate::dma::trace::{
    concat, lemma_concat_push, lemma_reads_grew_trans, read_at, reads_between, reads_grew, text_at, text_of, triple_of, value_of,
};
use crate::enums::player_type::PlayerType;
use crate::error::RadarError;
use crate::offsets::Offsets;
use crate::radarflow::comms::{BombData, EntityData, PlayerData, RadarData};
use crate::sdk::functions::{
    flag_behind_reads, get_entity_list, get_globals, get_local, get_plantedc4, highest_entity_index, is_bomb_dropped,
    is_bomb_planted, is_ingame, map_name,
};
use crate::sdk::structs::{pawn_addr, PlayerController};

verus! {

/// The entity a cache follows for a player of type `player_type`: none for spectators or
/// players whose type could not be told.
pub open spec fn followed_player(ptr: u64, player_type: Option<PlayerType>) -> Option<CachedEntity> {
    match player_type {
        Some(t) => if t == PlayerType::Spectator { None } else { Some(CachedEntity::Player { ptr, player_type: t }) },
        None => None,
    }
}

/// The reads that one entity index makes in a cache rebuild, and the entity it adds: the
/// entity at the index, its class name, and for a player controller its player type. The
/// class `weapon_c4` is the bomb; `cs_player_controller` a player, followed unless a
/// spectator or of no known type.
pub open spec fn entity_step_reads(o: Offsets, entity_list: u64, local: u64, index: i32, t: Seq<MemRead>, out: Option<CachedEntity>) -> bool {
    let e = value_of(t[1]) as u64;
    let name = text_of(t[4]);
    &&& t.len() >= 5
    &&& index_lookup(entity_list, index, t.subrange(0, 2), Some(e))
    &&& class_name_reads(o, e, t.subrange(2, 5), name)
    &&& if name == "weapon_c4"@ {
        t.len() == 5 && out == Some(CachedEntity::Bomb { ptr: e })
    } else if name == "cs_player_controller"@ {
        exists|pt: Option<PlayerType>| player_type_reads(o, e, local, t.subrange(5, t.len() as int), pt) && out == followed_player(e, pt)
    } else {
        t.len() == 5 && out is None
    }
}

/// The entities that a list of optional entities holds, in order.
pub open spec fn present<T>(outs: Seq<Option<T>>) -> Seq<T>
    decreases outs.len(),
{
    if outs.len() == 0 {
        Seq::empty()
    } else {
        match outs.last() {
            Some(x) => present(outs.drop_last()).push(x),
            None => present(outs.drop_last()),
        }
    }
}

/// The reads of entity indices `first..end` in a cache rebuild, cut into one piece per
/// index, and the entities they added.
pub open spec fn entity_scan_reads(o: Offsets, entity_list: u64, local: u64, first: int, end: int, t: Seq<MemRead>, found: Seq<CachedEntity>) -> bool {
    exists|pieces: Seq<Seq<MemRead>>, outs: Seq<Option<CachedEntity>>|
        entity_scan_with(o, entity_list, local, first, end, t, found, pieces, outs)
}

/// [`entity_scan_reads`] with the pieces and each index's entity given.
pub open spec fn entity_scan_with(
    o: Offsets,
    entity_list: u64,
    local: u64,
    first: int,
    end: int,
    t: Seq<MemRead>,
    found: Seq<CachedEntity>,
    pieces: Seq<Seq<MemRead>>,
    outs: Seq<Option<CachedEntity>>,
) -> bool {
    let n = if end > first { end - first } else { 0 };
    &&& pieces.len() == n
    &&& outs.len() == n
    &&& forall|i: int| 0 <= i < n ==> entity_step_reads(o, entity_list, local, (first + i) as i32, #[trigger] pieces[i], outs[i])
    &&& t == concat(pieces)
    &&& found == present(outs)
}

/// Reads of the local player's pawn: the handle, then its lookup.
pub open spec fn local_pawn_reads(o: Offsets, entity_list: u64, local: u64, t: Seq<MemRead>, pawn: Option<u64>) -> bool {
    &&& t.len() >= 1
    &&& read_at(t[0], wrap_addr(local + o.player_controller_player_pawn), 4)
    &&& pawn_lookup(entity_list, value_of(t[0]) as u32, t.subrange(1, t.len() as int), pawn)
}

/// The length of the reads of a handle lookup whose first read is `first`.
pub open spec fn lookup_len(first: MemRead) -> int {
    if entry_missing(value_of(first) as u64) { 1 } else { 2 }
}

/// The reads of a cache rebuild and the cache it built: the global variables, the highest
/// entity index, the map's name, the entity list, the local player and its pawn; where the
/// local player has a pawn, the local player first and then what entity indices 1 up to
/// (not including) the highest index add; where it has none, nothing.
pub open spec fn rebuild_reads(ctx: CheatCtx, t: Seq<MemRead>, cache: Cache) -> bool {
    let o = ctx.offsets;
    let base = ctx.client_module;
    let el = value_of(t[5]) as u64;
    let local = value_of(t[6]) as u64;
    let k = lookup_len(t[8]);
    let pawn: Option<u64> = if k == 1 { None } else { Some(value_of(t[9]) as u64) };
    &&& t.len() >= 9
    &&& pointer_read_gave(t.subrange(0, 1), base, o.global_vars, value_of(t[0]) as u64)
    &&& pointer_then_i32(t.subrange(1, 3), base, o.game_entity_system, o.game_entity_system_highest_entity_index, value_of(t[2]) as i32)
    &&& read_at(t[3], wrap_addr(value_of(t[0]) + 0x188), 8)
    &&& text_at(t[4], value_of(t[3]) as u64, 32)
    &&& pointer_read_gave(t.subrange(5, 6), base, o.entity_list, el)
    &&& pointer_read_gave(t.subrange(6, 7), base, o.local_player_controller, local)
    &&& t.len() >= 8 + k
    &&& local_pawn_reads(o, el, local, t.subrange(7, 8 + k), pawn)
    &&& cache.map_name@ == text_of(t[4])
    &&& cache.entity_list == el
    &&& cache.timestamp is Some
    &&& match pawn {
        Some(_) => exists|found: Seq<CachedEntity>| {
            &&& entity_scan_reads(o, el, local, 1, value_of(t[2]), t.subrange(8 + k, t.len() as int), found)
            &&& cache.entity_cache@ == seq![CachedEntity::Player { ptr: local, player_type: PlayerType::Local }] + found
        },
        None => t.len() == 8 + k && cache.entity_cache@.len() == 0,
    }
}

/// The reads that one followed entity makes while the radar collects its data, and what it
/// adds to the radar: a cached bomb adds its position while the game rules say it is
/// dropped; a cached player adds position, yaw (the y of its eye angles), type and whether
/// it carries the bomb, while it has a pawn whose health is above zero.
pub open spec fn radar_step_reads(o: Offsets, client: u64, entity_list: u64, c: CachedEntity, t: Seq<MemRead>, out: Option<EntityData>) -> bool {
    match c {
        CachedEntity::Bomb { ptr } => bomb_step_reads(o, client, ptr, t, out),
        CachedEntity::Player { ptr, player_type } => player_step_reads(o, entity_list, ptr, player_type, t, out),
    }
}

/// [`radar_step_reads`] for a cached bomb.
pub open spec fn bomb_step_reads(o: Offsets, client: u64, ptr: u64, t: Seq<MemRead>, out: Option<EntityData>) -> bool {
    &&& t.len() >= 2
    &&& flag_behind_reads(t.subrange(0, 2), client, o.game_rules, o.game_rules_bomb_dropped, value_of(t[1]) != 0)
    &&& if value_of(t[1]) == 0 {
        t.len() == 2 && out is None
    } else {
        &&& t.len() == 4
        &&& scene_origin_reads(o, ptr, t.subrange(2, 4), triple_of(t[3]))
        &&& out == Some(EntityData::Bomb(BombData { pos: triple_of(t[3]), planted: false }))
    }
}

/// The pawn that a lookup's reads found: `None` where the first read is a missing chunk.
pub open spec fn lookup_found(t: Seq<MemRead>) -> Option<u64> {
    if entry_missing(value_of(t[0]) as u64) { None } else { Some(value_of(t[1]) as u64) }
}

/// [`radar_step_reads`] for a cached player.
pub open spec fn player_step_reads(o: Offsets, entity_list: u64, ptr: u64, player_type: PlayerType, t: Seq<MemRead>, out: Option<EntityData>) -> bool {
    &&& t.len() >= 2
    &&& t.len() >= 1 + lookup_len(t[1])
    &&& local_pawn_reads(o, entity_list, ptr, t.subrange(0, 1 + lookup_len(t[1])), lookup_found(t.subrange(1, t.len() as int)))
    &&& if lookup_len(t[1]) == 1 {
        t.len() == 2 && out is None
    } else {
        alive_pawn_reads(o, entity_list, value_of(t[2]) as u64, player_type, t.subrange(3, t.len() as int), out)
    }
}

/// The reads of a found pawn in [`player_step_reads`]: its health; where above zero, its
/// position, its eye angles and its search for the bomb.
pub open spec fn alive_pawn_reads(o: Offsets, entity_list: u64, p: u64, player_type: PlayerType, t: Seq<MemRead>, out: Option<EntityData>) -> bool {
    &&& t.len() >= 1
    &&& read_at(t[0], wrap_addr(p + o.base_entity_health), 4)
    &&& if value_of(t[0]) <= 0 {
        t.len() == 1 && out is None
    } else {
        &&& t.len() >= 3
        &&& vec3_read(t[1], wrap_addr(p + o.base_player_pawn_old_origin), triple_of(t[1]))
        &&& vec3_read(t[2], wrap_addr(p + o.player_pawn_base_eye_angles), triple_of(t[2]))
        &&& exists|has_bomb: bool| {
            &&& #[trigger] has_c4_reads(o, p, entity_list, t.subrange(3, t.len() as int), has_bomb)
            &&& out == Some(EntityData::Player(PlayerData { pos: triple_of(t[1]), yaw: triple_of(t[2]).y, player_type, has_bomb }))
        }
    }
}

/// The reads of a collection of radar data for the followed `entities`, and the data: the
/// planted bomb first, with its position, where the game rules say it is planted; then what
/// each followed entity adds, in order.
pub open spec fn radar_reads(ctx: CheatCtx, entity_list: u64, entities: Seq<CachedEntity>, t: Seq<MemRead>, data: Seq<EntityData>) -> bool {
    let o = ctx.offsets;
    let planted = value_of(t[1]) != 0;
    let m: int = if planted { 6 } else { 2 };
    let head: Seq<EntityData> = if planted {
        seq![EntityData::Bomb(BombData { pos: triple_of(t[5]), planted: true })]
    } else {
        Seq::empty()
    };
    &&& t.len() >= m
    &&& flag_behind_reads(t.subrange(0, 2), ctx.client_module, o.game_rules, o.game_rules_bomb_planted, planted)
    &&& planted ==> {
        &&& double_pointer_read(t.subrange(2, 4), ctx.client_module, o.planted_c4)
        &&& scene_origin_reads(o, value_of(t[3]) as u64, t.subrange(4, 6), triple_of(t[5]))
    }
    &&& exists|pieces: Seq<Seq<MemRead>>, outs: Seq<Option<EntityData>>| {
        &&& pieces.len() == entities.len()
        &&& outs.len() == entities.len()
        &&& forall|i: int| 0 <= i < entities.len() ==> radar_step_reads(o, ctx.client_module, entity_list, entities[i], #[trigger] pieces[i], outs[i])
        &&& t.subrange(m, t.len() as int) == concat(pieces)
        &&& data == head + present(outs)
    }
}

/// One followed entity's part of the radar data.
fn radar_entity(ctx: &mut CheatCtx, entity_list: u64, c: CachedEntity) -> (r: Result<Option<EntityData>, RadarError>)
    ensures
        final(ctx).same_game(*old(ctx)),
        reads_grew(*old(ctx), *final(ctx)),
        match r {
            Ok(out) => radar_step_reads(old(ctx).offsets, old(ctx).client_module, entity_list, c, reads_between(*old(ctx), *final(ctx)), out),
            Err(e) => failed_read(e),
        },
{
    let ghost s0 = *ctx;
    match c {
        CachedEntity::Bomb { ptr } => {
            if is_bomb_dropped(ctx)? {
                let ghost s1 = *ctx;
                let controller = PlayerController(ptr);
                let pos = controller.pos(ctx)?;
                proof {
                    lemma_reads_grew_trans(s0, s1, *ctx);
                    let t = reads_between(s0, *ctx);
                    assert(t.subrange(0, 2) =~= reads_between(s0, s1));
                    assert(t.subrange(2, 4) =~= reads_between(s1, *ctx));
                }
                Ok(Some(EntityData::Bomb(BombData::new(pos, false))))
            } else {
                proof {
                    assert(reads_between(s0, *ctx).subrange(0, 2) =~= reads_between(s0, *ctx));
                }
                Ok(None)
            }
        },
        CachedEntity::Player { ptr, player_type } => {
            let controller = PlayerController(ptr);
            let pawn = controller.pawn(ctx, entity_list)?;
            let ghost s1 = *ctx;
            match pawn {
                None => {
                    proof {
                        let t = reads_between(s0, *ctx);
                        assert(t.subrange(0, t.len() as int) =~= t);
                        assert(t.subrange(1, t.len() as int).len() == 1);
                    }
                    Ok(None)
                },
                Some(pawn) => {
                    let alive = pawn.is_alive(ctx)?;
                    let ghost s2 = *ctx;
                    proof {
                        lemma_reads_grew_trans(s0, s1, s2);
                    }
                    if !alive {
                        proof {
                            let t = reads_between(s0, *ctx);
                            assert(t[1] == reads_between(s0, s1)[1]);
                            assert(t[2] == reads_between(s0, s1)[2]);
                            assert(t.subrange(0, 3) =~= reads_between(s0, s1));
                            assert(t.subrange(3, t.len() as int) =~= reads_between(s1, s2));
                        }
                        return Ok(None);
                    }
                    let pos = pawn.pos(ctx)?;
                    let ghost s3 = *ctx;
                    let yaw = pawn.angles(ctx)?.y;
                    let ghost s4 = *ctx;
                    let has_bomb = pawn.has_c4(ctx, entity_list)?;
                    let out = Some(EntityData::Player(PlayerData::new(pos, yaw, player_type, has_bomb)));
                    proof {
                        lemma_reads_grew_trans(s0, s2, s3);
                        lemma_reads_grew_trans(s0, s3, s4);
                        lemma_reads_grew_trans(s0, s4, *ctx);
                        lemma_reads_grew_trans(s1, s2, s3);
                        lemma_reads_grew_trans(s1, s3, s4);
                        lemma_reads_grew_trans(s1, s4, *ctx);
                        let t = reads_between(s0, *ctx);
                        assert(t[1] == reads_between(s0, s1)[1]);
                        assert(t[2] == reads_between(s0, s1)[2]);
                        assert(t.subrange(0, 3) =~= reads_between(s0, s1));
                        let u = t.subrange(3, t.len() as int);
                        assert(u =~= reads_between(s1, *ctx));
                        assert(u[0] == reads_between(s1, s2)[0]);
                        assert(u[1] == reads_between(s2, s3)[0]);
                        assert(u[2] == reads_between(s3, s4)[0]);
                        assert(u.subrange(3, u.len() as int) =~= reads_between(s4, *ctx));
                        assert(has_c4_reads(s0.offsets, pawn.0, entity_list, u.subrange(3, u.len() as int), has_bomb));
                    }
                    Ok(out)
                },
            }
        },
    }
}

/// The radar data while a game is under way: the planted bomb, if planted, then what each
/// followed entity adds.
pub fn collect_radar_data(ctx: &mut CheatCtx, cache: &mut Cache) -> (r: Result<Vec<EntityData>, RadarError>)
    ensures
        final(ctx).same_game(*old(ctx)),
        reads_grew(*old(ctx), *final(ctx)),
        *final(cache) == *old(cache),
        match r {
            Ok(data) => radar_reads(*old(ctx), old(cache).entity_list, old(cache).entity_cache@, reads_between(*old(ctx), *final(ctx)), data@),
            Err(e) => failed_read(e),
        },
{
    let ghost s0 = *ctx;
    let mut radar_data: Vec<EntityData> = Vec::new();
    let planted = is_bomb_planted(ctx)?;
    let ghost s1 = *ctx;
    if planted {
        let bomb = get_plantedc4(ctx)?;
        let ghost s2 = *ctx;
        let bomb_pos = bomb.pos(ctx)?;
        proof {
            lemma_reads_grew_trans(s1, s2, *ctx);
            let t = reads_between(s1, *ctx);
            assert(t.subrange(0, 2) =~= reads_between(s1, s2));
            assert(t.subrange(2, 4) =~= reads_between(s2, *ctx));
        }
        radar_data.push(EntityData::Bomb(BombData::new(bomb_pos, true)));
    }
    let ghost s_head = *ctx;
    proof {
        lemma_reads_grew_trans(s0, s1, s_head);
    }
    let entity_list = cache.entity_list();
    let entities = cache.entity_cache();
    let ghost head = radar_data@;
    let ghost mut pieces: Seq<Seq<MemRead>> = Seq::empty();
    let ghost mut outs: Seq<Option<EntityData>> = Seq::empty();
    let mut i: usize = 0;
    while i < entities.len()
        invariant
            i <= entities@.len(),
            entities@ == old(cache).entity_cache@,
            s0 == *old(ctx),
            ctx.same_game(s0),
            reads_grew(s0, s_head),
            reads_grew(s_head, *ctx),
            pieces.len() == i,
            outs.len() == i,
            forall|j: int| 0 <= j < i ==> radar_step_reads(s0.offsets, s0.client_module, entity_list, entities@[j], #[trigger] pieces[j], outs[j]),
            *cache == *old(cache),
            reads_between(s_head, *ctx) == concat(pieces),
            radar_data@ == head + present(outs),
        decreases entities@.len() - i,
    {
        let ghost before = *ctx;
        let out = radar_entity(ctx, entity_list, entities[i]);
        let out = out?;
        proof {
            lemma_reads_grew_trans(s_head, before, *ctx);
            let p = reads_between(before, *ctx);
            lemma_concat_push(pieces, p);
            assert(outs.push(out).drop_last() =~= outs);
            pieces = pieces.push(p);
            outs = outs.push(out);
        }
        if let Some(d) = out {
            radar_data.push(d);
        }
        i += 1;
    }
    proof {
        lemma_reads_grew_trans(s0, s_head, *ctx);
        let t = reads_between(s0, *ctx);
        let m: int = if planted { 6 } else { 2 };
        assert(t.subrange(0, 2) =~= reads_between(s0, s1));
        assert(t.subrange(m, t.len() as int) =~= concat(pieces));
        if planted {
            assert(t.subrange(2, 4) =~= reads_between(s1, s_head).subrange(0, 2));
            assert(t.subrange(4, 6) =~= reads_between(s1, s_head).subrange(2, 4));
        }
    }
    Ok(radar_data)
}

/// One entity index of a cache rebuild: the entity it adds, if any.
fn cache_entity_at(ctx: &mut CheatCtx, entity_list: u64, local: &PlayerController, index: i32) -> (r: Result<Option<CachedEntity>, RadarError>)
    ensures
        final(ctx).same_game(*old(ctx)),
        reads_grew(*old(ctx), *final(ctx)),
        match r {
            Ok(out) => entity_step_reads(old(ctx).offsets, entity_list, local.0, index, reads_between(*old(ctx), *final(ctx)), out),
            Err(e) => failed_read(e),
        },
{
    let ghost s0 = *ctx;
    let entity = match PlayerController::from_entity_list_v2(ctx, entity_list, index)? {
        Some(e) => e,
        None => return Ok(None),
    };
    let ghost s1 = *ctx;
    let class_name = entity.class_name(ctx)?;
    let ghost s2 = *ctx;
    proof {
        lemma_reads_grew_trans(s0, s1, s2);
        let t = reads_between(s0, s2);
        assert(t.subrange(0, 2) =~= reads_between(s0, s1));
        assert(t.subrange(2, 5) =~= reads_between(s1, s2));
    }
    let is_c4 = class_name == "weapon_c4".to_owned();
    let is_controller = class_name == "cs_player_controller".to_owned();
    proof {
        let t = reads_between(s0, s2);
        assert(value_of(t[1]) as u64 == entity.0);
        assert(text_of(t[4]) == class_name@);
        assert(is_c4 == (class_name@ == "weapon_c4"@));
    }
    if is_c4 {
        Ok(Some(CachedEntity::Bomb { ptr: entity.0 }))
    } else if is_controller {
        let player_type = entity.get_player_type(ctx, local)?;
        proof {
            lemma_reads_grew_trans(s0, s2, *ctx);
            let t = reads_between(s0, *ctx);
            assert(t.subrange(0, 2) =~= reads_between(s0, s1));
            assert(t.subrange(2, 5) =~= reads_between(s1, s2));
            assert(t.subrange(5, t.len() as int) =~= reads_between(s2, *ctx));
            assert(player_type_reads(s0.offsets, entity.0, local.0, t.subrange(5, t.len() as int), player_type));
        }
        let out = match player_type {
            Some(t) => {
                if t == PlayerType::Spectator {
                    None
                } else {
                    Some(CachedEntity::Player { ptr: entity.0, player_type: t })
                }
            },
            None => None,
        };
        proof {
            let t = reads_between(s0, *ctx);
            assert(player_type_reads(s0.offsets, entity.0, local.0, t.subrange(5, t.len() as int), player_type)
                && out == followed_player(entity.0, player_type));
        }
        Ok(out)
    } else {
        Ok(None)
    }
}

/// Rebuilds the cache: reads the global variables, the highest entity index, the map's
/// name and the entity list; where the local player has a pawn, follows the local player
/// and then every bomb and every player of a known type but spectators among entity
/// indices 1 up to the highest index.
pub fn rebuild_cache(ctx: &mut CheatCtx) -> (r: Result<Cache, RadarError>)
    ensures
        final(ctx).same_game(*old(ctx)),
        reads_grew(*old(ctx), *final(ctx)),
        match r {
            Ok(cache) => rebuild_reads(*old(ctx), reads_between(*old(ctx), *final(ctx)), cache),
            Err(e) => failed_read(e),
        },
{
    let ghost s0 = *ctx;
    let globals = get_globals(ctx)?;
    let ghost s1 = *ctx;
    let highest_index = highest_entity_index(ctx)?;
    let ghost s2 = *ctx;
    let map = map_name(globals, ctx)?;
    let ghost s3 = *ctx;
    let entity_list = get_entity_list(ctx)?;
    let ghost s4 = *ctx;
    let local = get_local(ctx)?;
    let ghost s5 = *ctx;
    let pawn = local.pawn(ctx, entity_list)?;
    let ghost s6 = *ctx;
    proof {
        lemma_reads_grew_trans(s0, s1, s2);
        lemma_reads_grew_trans(s0, s2, s3);
        lemma_reads_grew_trans(s0, s3, s4);
        lemma_reads_grew_trans(s0, s4, s5);
        lemma_reads_grew_trans(s0, s5, s6);
    }
    let mut cached_entities: Vec<CachedEntity> = Vec::new();
    let ghost mut pieces: Seq<Seq<MemRead>> = Seq::empty();
    let ghost mut outs: Seq<Option<CachedEntity>> = Seq::empty();
    if pawn.is_some() {
        cached_entities.push(CachedEntity::Player { ptr: local.0, player_type: PlayerType::Local });
        let mut idx: i32 = 1;
        while idx < highest_index
            invariant
                1 <= idx,
                idx <= highest_index || idx == 1,
                s0 == *old(ctx),
                ctx.same_game(s0),
                reads_grew(s0, s6),
                reads_grew(s6, *ctx),
                pieces.len() == idx - 1,
                outs.len() == idx - 1,
                forall|i: int| 0 <= i < idx - 1 ==> entity_step_reads(s0.offsets, entity_list, local.0, (1 + i) as i32, #[trigger] pieces[i], outs[i]),
                reads_between(s6, *ctx) == concat(pieces),
                cached_entities@ == seq![CachedEntity::Player { ptr: local.0, player_type: PlayerType::Local }] + present(outs),
            decreases highest_index - idx,
        {
            let ghost before = *ctx;
            let out = cache_entity_at(ctx, entity_list, &local, idx)?;
            proof {
                lemma_reads_grew_trans(s6, before, *ctx);
                let p = reads_between(before, *ctx);
                lemma_concat_push(pieces, p);
                assert(outs.push(out).drop_last() =~= outs);
                pieces = pieces.push(p);
                outs = outs.push(out);
            }
            if let Some(entity) = out {
                cached_entities.push(entity);
            }
            idx += 1;
        }
        proof {
            lemma_reads_grew_trans(s0, s6, *ctx);
        }
    }
    let ghost s7 = *ctx;
    let cache = match CacheBuilder::new()
        .entity_cache(cached_entities)
        .map_name(map)
        .entity_list(entity_list)
        .build() {
        Ok(c) => c,
        Err(_) => {
            proof { assert(false); }
            return Ok(Cache::new_invalid());
        },
    };
    proof {
        let t = reads_between(s0, *ctx);
        assert(t.subrange(0, 1) =~= reads_between(s0, s1));
        assert(t.subrange(1, 3) =~= reads_between(s1, s2));
        assert(t.subrange(5, 6) =~= reads_between(s3, s4));
        assert(t.subrange(6, 7) =~= reads_between(s4, s5));
        let k = lookup_len(t[8]);
        assert(t.subrange(7, 8 + k) =~= reads_between(s5, s6));
        if pawn.is_some() {
            let n = if value_of(t[2]) > 1 { value_of(t[2]) - 1 } else { 0 };
            assert(t.subrange(8 + k, t.len() as int) =~= reads_between(s6, *ctx));
            assert(entity_scan_with(s0.offsets, entity_list, local.0, 1, value_of(t[2]), t.subrange(8 + k, t.len() as int), present(outs), pieces, outs));
        }
    }
    Ok(cache)
}


/// What a poll of the game decided.
pub enum PollOutcome {
    /// The game's process exited: the radar stops.
    ProcessExited,
    /// The radar data to hand to the clients.
    Publish(RadarData),
}

/// The reads of a poll once its cache is fresh, and the radar data it hands on: the game
/// rules' phase; while a game is under way (any phase but 1), the cache's map and the data
/// collected for its followed entities; else empty data.
pub open spec fn publish_reads(ctx: CheatCtx, cache: Cache, t: Seq<MemRead>, ingame: bool, map: Seq<char>, data: Seq<EntityData>) -> bool {
    &&& t.len() >= 2
    &&& read_at(t[0], wrap_addr(ctx.client_module + ctx.offsets.game_rules), 8)
    &&& read_at(t[1], wrap_addr(value_of(t[0]) + ctx.offsets.game_rules_game_phase), 4)
    &&& ingame == (value_of(t[1]) != 1)
    &&& if ingame {
        &&& map == cache.map_name@
        &&& radar_reads(ctx, cache.entity_list, cache.entity_cache@, t.subrange(2, t.len() as int), data)
    } else {
        t.len() == 2 && map.len() == 0 && data.len() == 0
    }
}

/// The reads of a poll that found the process alive, split where the cache was (re)built:
/// either the cache was kept, a built one, or the first `k` reads rebuilt it; the rest
/// decided what was handed on.
pub open spec fn poll_reads(ctx: CheatCtx, before: Cache, after: Cache, t: Seq<MemRead>, ingame: bool, map: Seq<char>, data: Seq<EntityData>) -> bool {
    exists|k: int| #![trigger t.subrange(0, k)] {
        &&& 0 <= k <= t.len()
        &&& {
            ||| (k == 0 && after == before && before.timestamp is Some)
            ||| rebuild_reads(ctx, t.subrange(0, k), after)
        }
        &&& publish_reads(ctx, after, t.subrange(k, t.len() as int), ingame, map, data)
    }
}

/// One poll of the game: checks the process's state and stops where memflow reports it
/// exited; else rebuilds the cache where it is no longer valid (a cache that was never built
/// never is); then hands on the radar data while a game is under way, and empty data
/// otherwise.
pub fn poll(ctx: &mut CheatCtx, cache: &mut Cache) -> (r: Result<PollOutcome, RadarError>)
    ensures
        final(ctx).same_game(*old(ctx)),
        reads_grew(*old(ctx), *final(ctx)),
        match r {
            Ok(PollOutcome::ProcessExited) => {
                &&& final(ctx).reads@ == old(ctx).reads@.push(MemRead::ProcessState { dead: true })
                &&& *final(cache) == *old(cache)
            },
            Ok(PollOutcome::Publish(d)) => {
                let t = reads_between(*old(ctx), *final(ctx));
                &&& t.len() >= 1
                &&& t[0] == MemRead::ProcessState { dead: false }
                &&& poll_reads(*old(ctx), *old(cache), *final(cache), t.subrange(1, t.len() as int), d.ingame, d.map_name@, d.entity_data@)
            },
            Err(e) => {
                let t = reads_between(*old(ctx), *final(ctx));
                &&& failed_read(e)
                &&& t.len() >= 1
                &&& t[0] == MemRead::ProcessState { dead: false }
            },
        },
{
    let ghost s0 = *ctx;
    let ghost c0 = *cache;
    if process_is_dead(ctx) {
        return Ok(PollOutcome::ProcessExited);
    }
    let ghost s1 = *ctx;
    assert(reads_grew(s0, s1));
    assert(s1.reads@[s0.reads@.len() as int] == MemRead::ProcessState { dead: false });
    if !cache.is_valid() {
        let rebuilt = rebuild_cache(ctx)?;
        *cache = rebuilt;
    }
    let ghost s2 = *ctx;
    proof {
        lemma_reads_grew_trans(s0, s1, s2);
    }
    let ingame = is_ingame(ctx)?;
    let ghost s3 = *ctx;
    proof {
        lemma_reads_grew_trans(s0, s2, s3);
        lemma_reads_grew_trans(s1, s2, s3);
    }
    let out = if ingame {
        let data = collect_radar_data(ctx, cache)?;
        let map = cache.map_name();
        RadarData::new(true, map, data)
    } else {
        RadarData::empty()
    };
    proof {
        lemma_reads_grew_trans(s2, s3, *ctx);
        lemma_reads_grew_trans(s0, s2, *ctx);
        lemma_reads_grew_trans(s1, s2, *ctx);
        lemma_reads_grew_trans(s0, s1, *ctx);
        let t = reads_between(s0, *ctx);
        let t1 = reads_between(s1, *ctx);
        assert(t.subrange(1, t.len() as int) =~= t1);
        assert(t[0] == reads_between(s0, s1)[0]);
        let k = reads_between(s1, s2).len() as int;
        assert(t1.subrange(0, k) =~= reads_between(s1, s2));
        let u = t1.subrange(k, t1.len() as int);
        assert(u =~= reads_between(s2, *ctx));
        assert(u.subrange(0, 2) =~= reads_between(s2, s3));
        assert(u[0] == reads_between(s2, s3)[0]);
        assert(u[1] == reads_between(s2, s3)[1]);
        if ingame {
            assert(u.subrange(2, u.len() as int) =~= reads_between(s3, *ctx));
        }
        assert(publish_reads(s0, *cache, u, out.ingame, out.map_name@, out.entity_data@));
        assert(poll_reads(s0, c0, *cache, t1, out.ingame, out.map_name@, out.entity_data@));
    }
    Ok(PollOutcome::Publish(out))
}


/// `c` is no spectator: a bomb, or a player of any type but `Spectator`.
pub open spec fn not_spectator(c: CachedEntity) -> bool {
    match c {
        CachedEntity::Player { ptr: _, player_type } => player_type != PlayerType::Spectator,
        CachedEntity::Bomb { ptr: _ } => true,
    }
}

/// What a list of optional entities holds keeps a property that each entity has.
proof fn lemma_present_no_spectator(outs: Seq<Option<CachedEntity>>)
    requires
        forall|i: int| 0 <= i < outs.len() ==> (#[trigger] outs[i] matches Some(c) ==> not_spectator(c)),
    ensures
        forall|i: int| 0 <= i < present(outs).len() ==> not_spectator(#[trigger] present(outs)[i]),
    decreases outs.len(),
{
    if outs.len() > 0 {
        let rest = outs.drop_last();
        assert forall|i: int| 0 <= i < rest.len() implies (#[trigger] rest[i] matches Some(c) ==> not_spectator(c)) by {
            assert(rest[i] == outs[i]);
        }
        lemma_present_no_spectator(rest);
        assert(outs.last() == outs[outs.len() - 1]);
        let p = present(rest);
        match outs.last() {
            Some(x) => {
                assert(present(outs) == p.push(x));
                assert forall|i: int| 0 <= i < present(outs).len() implies not_spectator(#[trigger] present(outs)[i]) by {
                    if i < p.len() {
                        assert(present(outs)[i] == p[i]);
                    }
                }
            },
            None => {
                assert(present(outs) == p);
            },
        }
    }
}

/// An entity scan adds no spectator: it skips them, and players of no known type.
pub proof fn lemma_scan_no_spectator(o: Offsets, entity_list: u64, local: u64, first: int, end: int, t: Seq<MemRead>, found: Seq<CachedEntity>)
    requires
        entity_scan_reads(o, entity_list, local, first, end, t, found),
    ensures
        forall|i: int| 0 <= i < found.len() ==> not_spectator(#[trigger] found[i]),
{
    let (pieces, outs) = choose|pieces: Seq<Seq<MemRead>>, outs: Seq<Option<CachedEntity>>|
        entity_scan_with(o, entity_list, local, first, end, t, found, pieces, outs);
    let n = if end > first { end - first } else { 0 };
    assert forall|i: int| 0 <= i < outs.len() implies (#[trigger] outs[i] matches Some(c) ==> not_spectator(c)) by {
        assert(entity_step_reads(o, entity_list, local, (first + i) as i32, pieces[i], outs[i]));
    }
    lemma_present_no_spectator(outs);
}

/// A rebuilt cache follows no spectator.
pub proof fn rebuilt_cache_follows_no_spectator(ctx: CheatCtx, t: Seq<MemRead>, cache: Cache)
    requires
        rebuild_reads(ctx, t, cache),
    ensures
        forall|i: int| 0 <= i < cache.entity_cache@.len() ==> not_spectator(#[trigger] cache.entity_cache@[i]),
{
    let k = lookup_len(t[8]);
    if k != 1 {
        let found = choose|found: Seq<CachedEntity>| {
            &&& #[trigger] entity_scan_reads(ctx.offsets, value_of(t[5]) as u64, value_of(t[6]) as u64, 1, value_of(t[2]), t.subrange(8 + k, t.len() as int), found)
            &&& cache.entity_cache@ == seq![CachedEntity::Player { ptr: value_of(t[6]) as u64, player_type: PlayerType::Local }] + found
        };
        lemma_scan_no_spectator(ctx.offsets, value_of(t[5]) as u64, value_of(t[6]) as u64, 1, value_of(t[2]), t.subrange(8 + k, t.len() as int), found);
        assert forall|i: int| 0 <= i < cache.entity_cache@.len() implies not_spectator(#[trigger] cache.entity_cache@[i]) by {
            if i > 0 {
                assert(cache.entity_cache@[i] == found[i - 1]);
            }
        }
    }
}

/// A rebuilt cache that follows anything follows the local player first: the radar follows
/// entities only while the local player has a pawn, and then starts with it.
pub proof fn rebuilt_cache_follows_local_first(ctx: CheatCtx, t: Seq<MemRead>, cache: Cache)
    requires
        rebuild_reads(ctx, t, cache),
        cache.entity_cache@.len() > 0,
    ensures
        cache.entity_cache@[0] == (CachedEntity::Player { ptr: value_of(t[6]) as u64, player_type: PlayerType::Local }),
        pointer_read_gave(t.subrange(6, 7), ctx.client_module, ctx.offsets.local_player_controller, value_of(t[6]) as u64),
{
}

/// While no game is under way a poll hands on empty data: not in game, no map, no
/// entities, the data that `RadarData::empty` makes.
pub proof fn idle_poll_publishes_empty_data(ctx: CheatCtx, cache: Cache, t: Seq<MemRead>, ingame: bool, map: Seq<char>, data: Seq<EntityData>)
    requires
        publish_reads(ctx, cache, t, ingame, map, data),
        !ingame,
    ensures
        map == Seq::<char>::empty(),
        data == Seq::<EntityData>::empty(),
{
    assert(map =~= Seq::<char>::empty());
    assert(data =~= Seq::<EntityData>::empty());
}


/// A cache that was never built is built by the poll that finds it: the poll's first reads
/// are those of a rebuild, and the cache it leaves is the one they built.
pub proof fn unbuilt_cache_is_rebuilt(ctx: CheatCtx, before: Cache, after: Cache, t: Seq<MemRead>, ingame: bool, map: Seq<char>, data: Seq<EntityData>)
    requires
        poll_reads(ctx, before, after, t, ingame, map, data),
        before.timestamp is None,
    ensures
        exists|k: int| 0 <= k <= t.len() && #[trigger] rebuild_reads(ctx, t.subrange(0, k), after),
{
    let k = choose|k: int| {
        &&& 0 <= k <= t.len()
        &&& {
            ||| (k == 0 && after == before && before.timestamp is Some)
            ||| rebuild_reads(ctx, t.subrange(0, k), after)
        }
        &&& #[trigger] publish_reads(ctx, after, t.subrange(k, t.len() as int), ingame, map, data)
    };
    assert(rebuild_reads(ctx, t.subrange(0, k), after));
}

} // verus!
