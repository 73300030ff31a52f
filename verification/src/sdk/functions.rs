use vstd::prelude::*;
use crate::dma::address::wrap_addr;
use crate::dma::context::{double_pointer_read, CheatCtx};
use crate::dma::entity::{pointer_read_gave, pointer_then_i32};
use crate::dma::process::{failed_read, MemRead};
use crate::dma::trace::{read_at, reads_between, reads_grew, text_at, text_of, value_of};
use crate::error::RadarError;
use crate::sdk::structs::{Bomb, PlayerController, PlayerPawn};

verus! {

/// Reads of a flag one pointer away from `base`: the pointer stored `offset` bytes from
/// `base`, then the byte `field` bytes from it; the flag is set unless the byte is zero.
pub open spec fn flag_behind_reads(t: Seq<MemRead>, base: u64, offset: u64, field: u64, flag: bool) -> bool {
    &&& t.len() == 2
    &&& read_at(t[0], wrap_addr(base + offset), 8)
    &&& read_at(t[1], wrap_addr(value_of(t[0]) + field), 1)
    &&& flag == (value_of(t[1]) != 0)
}

/// The local player's controller (`dwLocalPlayerController`).
pub fn get_local(ctx: &mut CheatCtx) -> (r: Result<PlayerController, RadarError>)
    ensures
        final(ctx).same_game(*old(ctx)),
        reads_grew(*old(ctx), *final(ctx)),
        match r {
            Ok(c) => pointer_read_gave(reads_between(*old(ctx), *final(ctx)), old(ctx).client_module, old(ctx).offsets.local_player_controller, c.0),
            Err(e) => failed_read(e),
        },
{
    let base = ctx.client_module;
    let ptr = ctx.pointer_at(base, ctx.offsets.local_player_controller)?;
    Ok(PlayerController(ptr))
}

/// The planted bomb (`dwPlantedC4` points at a pointer to it).
pub fn get_plantedc4(ctx: &mut CheatCtx) -> (r: Result<Bomb, RadarError>)
    ensures
        final(ctx).same_game(*old(ctx)),
        reads_grew(*old(ctx), *final(ctx)),
        match r {
            Ok(b) => {
                let t = reads_between(*old(ctx), *final(ctx));
                double_pointer_read(t, old(ctx).client_module, old(ctx).offsets.planted_c4) && b.0 == value_of(t[1])
            },
            Err(e) => failed_read(e),
        },
{
    let ptr = ctx.get_plantedc4()?;
    Ok(Bomb(ptr))
}

/// Whether the game rules say the bomb is planted.
pub fn is_bomb_planted(ctx: &mut CheatCtx) -> (r: Result<bool, RadarError>)
    ensures
        final(ctx).same_game(*old(ctx)),
        reads_grew(*old(ctx), *final(ctx)),
        match r {
            Ok(planted) => flag_behind_reads(reads_between(*old(ctx), *final(ctx)), old(ctx).client_module,
                old(ctx).offsets.game_rules, old(ctx).offsets.game_rules_bomb_planted, planted),
            Err(e) => failed_read(e),
        },
{
    let base = ctx.client_module;
    let data = ctx.u8_behind(base, ctx.offsets.game_rules, ctx.offsets.game_rules_bomb_planted)?;
    Ok(data != 0)
}

/// Whether the game rules say the bomb is dropped.
pub fn is_bomb_dropped(ctx: &mut CheatCtx) -> (r: Result<bool, RadarError>)
    ensures
        final(ctx).same_game(*old(ctx)),
        reads_grew(*old(ctx), *final(ctx)),
        match r {
            Ok(dropped) => flag_behind_reads(reads_between(*old(ctx), *final(ctx)), old(ctx).client_module,
                old(ctx).offsets.game_rules, old(ctx).offsets.game_rules_bomb_dropped, dropped),
            Err(e) => failed_read(e),
        },
{
    let base = ctx.client_module;
    let data = ctx.u8_behind(base, ctx.offsets.game_rules, ctx.offsets.game_rules_bomb_dropped)?;
    Ok(data != 0)
}

/// Whether a game is under way: the game rules' phase is anything but 1.
pub fn is_ingame(ctx: &mut CheatCtx) -> (r: Result<bool, RadarError>)
    ensures
        final(ctx).same_game(*old(ctx)),
        reads_grew(*old(ctx), *final(ctx)),
        match r {
            Ok(ingame) => {
                let t = reads_between(*old(ctx), *final(ctx));
                &&& t.len() == 2
                &&& read_at(t[0], wrap_addr(old(ctx).client_module + old(ctx).offsets.game_rules), 8)
                &&& read_at(t[1], wrap_addr(value_of(t[0]) + old(ctx).offsets.game_rules_game_phase), 4)
                &&& ingame == (value_of(t[1]) != 1)
            },
            Err(e) => failed_read(e),
        },
{
    let base = ctx.client_module;
    let data = ctx.i32_behind(base, ctx.offsets.game_rules, ctx.offsets.game_rules_game_phase)?;
    Ok(data != 1)
}

/// The local player's pawn (`dwLocalPlayerPawn`).
pub fn get_local_pawn(ctx: &mut CheatCtx) -> (r: Result<PlayerPawn, RadarError>)
    ensures
        final(ctx).same_game(*old(ctx)),
        reads_grew(*old(ctx), *final(ctx)),
        match r {
            Ok(p) => pointer_read_gave(reads_between(*old(ctx), *final(ctx)), old(ctx).client_module, old(ctx).offsets.local_player_pawn, p.0),
            Err(e) => failed_read(e),
        },
{
    let base = ctx.client_module;
    let ptr = ctx.pointer_at(base, ctx.offsets.local_player_pawn)?;
    Ok(PlayerPawn(ptr))
}

/// The entity list (`dwEntityList`).
pub fn get_entity_list(ctx: &mut CheatCtx) -> (r: Result<u64, RadarError>)
    ensures
        final(ctx).same_game(*old(ctx)),
        reads_grew(*old(ctx), *final(ctx)),
        match r {
            Ok(list) => pointer_read_gave(reads_between(*old(ctx), *final(ctx)), old(ctx).client_module, old(ctx).offsets.entity_list, list),
            Err(e) => failed_read(e),
        },
{
    let base = ctx.client_module;
    ctx.pointer_at(base, ctx.offsets.entity_list)
}

/// The global variables (`dwGlobalVars`).
pub fn get_globals(ctx: &mut CheatCtx) -> (r: Result<u64, RadarError>)
    ensures
        final(ctx).same_game(*old(ctx)),
        reads_grew(*old(ctx), *final(ctx)),
        match r {
            Ok(globals) => pointer_read_gave(reads_between(*old(ctx), *final(ctx)), old(ctx).client_module, old(ctx).offsets.global_vars, globals),
            Err(e) => failed_read(e),
        },
{
    let base = ctx.client_module;
    ctx.pointer_at(base, ctx.offsets.global_vars)
}

/// The map's name: the string of up to 32 bytes that the global variables point at from
/// their byte 0x188.
pub fn map_name(global_vars: u64, ctx: &mut CheatCtx) -> (r: Result<String, RadarError>)
    ensures
        final(ctx).same_game(*old(ctx)),
        reads_grew(*old(ctx), *final(ctx)),
        match r {
            Ok(name) => {
                let t = reads_between(*old(ctx), *final(ctx));
                &&& t.len() == 2
                &&& read_at(t[0], wrap_addr(global_vars + 0x188), 8)
                &&& text_at(t[1], value_of(t[0]) as u64, 32)
                &&& name@ == text_of(t[1])
            },
            Err(e) => failed_read(e),
        },
{
    ctx.text_behind(global_vars, 0x188)
}

/// The highest index in use in the entity list, kept by the game entity system.
pub fn highest_entity_index(ctx: &mut CheatCtx) -> (r: Result<i32, RadarError>)
    ensures
        final(ctx).same_game(*old(ctx)),
        reads_grew(*old(ctx), *final(ctx)),
        match r {
            Ok(index) => pointer_then_i32(reads_between(*old(ctx), *final(ctx)), old(ctx).client_module,
                old(ctx).offsets.game_entity_system, old(ctx).offsets.game_entity_system_highest_entity_index, index),
            Err(e) => failed_read(e),
        },
{
    let base = ctx.client_module;
    ctx.i32_behind(base, ctx.offsets.game_entity_system, ctx.offsets.game_entity_system_highest_entity_index)
}

} // verus!
