use vstd::prelude::*;
use vstd::bytes::{
    spec_u32_from_le_bytes, spec_u64_from_le_bytes, u32_from_le_bytes, u32_to_le_bytes,
    u64_from_le_bytes, u64_to_le_bytes,
};
use crate::dma::address::{addr_add, entry_address, lemma_wrap_add, list_entry_address, list_slot_address, slot_address, wrap_addr};
use crate::dma::clock::tokio_now;
use crate::dma::bytes::{c4_bytes, cs_player_controller_bytes, is_c4_name, zero_terminated};
use crate::dma::context::{designer_name_ptr, designer_name_reads, designer_name_reads_cut, double_pointer_read, double_pointer_read_cut, controller_pawn_cut, pawn_lookup, DmaCtx};
use crate::error::RadarError;
use crate::dma::process::failed_read;
use crate::dma::process::{read_batch, read_text, MemRead};
use crate::dma::trace::{concat, batched_at, batched_data, bytes_at, bytes_of, lemma_reads_between_split, lemma_reads_grew_trans, read_at, reads_between, reads_grew, text_at, text_of, value_of};

verus! {

/// What the radar knows of the game between polls.
pub struct CsData {
    // Entities
    /// Each player other than the local one: its controller and its pawn.
    pub players: Vec<(u64, u64)>,
    pub bomb: u64,
    pub bomb_holder: Option<u64>,
    pub recheck_bomb_holder: bool,

    // Pointers
    pub globals: u64,
    pub gamerules: u64,
    pub entity_list: u64,
    pub game_ent_sys: u64,

    // Common
    pub local: u64,
    pub local_pawn: u64,
    pub tick_count: i32,
    pub freeze_period: bool,
    pub round_start_count: u8,
    pub highest_index: i32,
    pub map: String,

    // Bomb
    pub bomb_dropped: bool,
    pub bomb_planted: bool,
    /// When the radar first saw the bomb planted.
    pub bomb_planted_stamp: Option<tokio::time::Instant>,
    /// The bomb's timer length, an `f32` bit pattern.
    pub bomb_plant_timer: u32,
    pub bomb_being_defused: bool,
    /// When the radar first saw the bomb being defused.
    pub bomb_defuse_stamp: Option<tokio::time::Instant>,
    /// The length of the defuse under way, an `f32` bit pattern.
    pub bomb_defuse_length: u32,
    pub bomb_exploded: bool,
    pub bomb_defused: bool,
}

/// The little-endian 64-bit word of an eight-byte buffer.
pub open spec fn le_u64(bytes: Seq<u8>) -> u64 {
    spec_u64_from_le_bytes(bytes)
}

/// The little-endian 32-bit word of a four-byte buffer.
pub open spec fn le_u32(bytes: Seq<u8>) -> u32 {
    spec_u32_from_le_bytes(bytes)
}

/// The batch of [`CsData::update_pointers`]: the four globals of `client.dll` that lead to
/// everything else, and the pointers it took from them.
pub open spec fn pointer_reads(ctx: DmaCtx, t: Seq<MemRead>, d: CsData) -> bool {
    let o = ctx.offsets;
    &&& t.len() == 4
    &&& batched_at(t[0], wrap_addr(ctx.client_module + o.global_vars), 8)
    &&& batched_at(t[1], wrap_addr(ctx.client_module + o.game_rules), 8)
    &&& batched_at(t[2], wrap_addr(ctx.client_module + o.entity_list), 8)
    &&& batched_at(t[3], wrap_addr(ctx.client_module + o.game_entity_system), 8)
    &&& d.globals == le_u64(batched_data(t[0]))
    &&& d.gamerules == le_u64(batched_data(t[1]))
    &&& d.entity_list == le_u64(batched_data(t[2]))
    &&& d.game_ent_sys == le_u64(batched_data(t[3]))
}

/// The first batch of [`CsData::update_common`], as read from `old`, and the fields that it
/// set in `new`.
pub open spec fn common_reads(ctx: DmaCtx, old: CsData, t: Seq<MemRead>, new: CsData) -> bool {
    let o = ctx.offsets;
    &&& t.len() >= 9
    &&& batched_at(t[0], wrap_addr(ctx.client_module + o.local_player_controller), 8)
    &&& batched_at(t[1], wrap_addr(ctx.client_module + o.local_player_pawn), 8)
    &&& batched_at(t[2], wrap_addr(old.globals + 0x40), 4)
    &&& batched_at(t[3], wrap_addr(old.gamerules + o.game_rules_bomb_dropped), 1)
    &&& batched_at(t[4], wrap_addr(old.gamerules + o.game_rules_bomb_planted), 1)
    &&& batched_at(t[5], wrap_addr(old.gamerules + o.game_rules_freeze_period), 1)
    &&& batched_at(t[6], wrap_addr(old.gamerules + o.game_rules_round_start_count), 1)
    &&& batched_at(t[7], wrap_addr(old.game_ent_sys + o.game_entity_system_highest_entity_index), 4)
    &&& batched_at(t[8], wrap_addr(old.globals + 384), 8)
    &&& new.local == le_u64(batched_data(t[0]))
    &&& new.local_pawn == le_u64(batched_data(t[1]))
    &&& new.tick_count == le_u32(batched_data(t[2])) as i32
    &&& new.bomb_dropped == (batched_data(t[3])[0] != 0)
    &&& new.bomb_planted == (batched_data(t[4])[0] != 0)
    &&& new.freeze_period == (batched_data(t[5])[0] != 0)
    &&& new.round_start_count == batched_data(t[6])[0]
    &&& new.highest_index == le_u32(batched_data(t[7])) as i32
}

/// The second batch of [`CsData::update_common`], made only while the bomb was planted at
/// the last update: the planted bomb's state.
pub open spec fn planted_bomb_reads(ctx: DmaCtx, old: CsData, t: Seq<MemRead>, new: CsData) -> bool {
    let o = ctx.offsets;
    &&& t.len() == 5
    &&& batched_at(t[0], wrap_addr(old.bomb + o.planted_c4_timer_length), 4)
    &&& batched_at(t[1], wrap_addr(old.bomb + o.planted_c4_bomb_defused), 1)
    &&& batched_at(t[2], wrap_addr(old.bomb + o.planted_c4_defuse_length), 4)
    &&& batched_at(t[3], wrap_addr(old.bomb + o.planted_c4_has_exploded), 1)
    &&& batched_at(t[4], wrap_addr(old.bomb + o.planted_c4_being_defused), 1)
    &&& new.bomb_plant_timer == le_u32(batched_data(t[0]))
    &&& new.bomb_defused == (batched_data(t[1])[0] != 0)
    &&& new.bomb_defuse_length == le_u32(batched_data(t[2]))
    &&& new.bomb_exploded == (batched_data(t[3])[0] != 0)
    &&& new.bomb_being_defused == (batched_data(t[4])[0] != 0)
}

/// The map's name: the string of at most 32 bytes at the pointer that the first batch
/// read, or `<empty>` where that read failed.
pub open spec fn map_reads(map_ptr: u64, t: Seq<MemRead>, map: Seq<char>) -> bool {
    ||| t.len() == 1 && text_at(t[0], map_ptr, 32) && map == text_of(t[0])
    ||| t.len() == 0 && map == "<empty>"@
}

/// `d` with the four pointers of [`CsData::update_pointers`] set, and nothing else changed.
pub open spec fn with_pointers(d: CsData, globals: u64, gamerules: u64, entity_list: u64, game_ent_sys: u64) -> CsData {
    CsData {
        players: d.players,
        bomb: d.bomb,
        bomb_holder: d.bomb_holder,
        recheck_bomb_holder: d.recheck_bomb_holder,
        globals,
        gamerules,
        entity_list,
        game_ent_sys,
        local: d.local,
        local_pawn: d.local_pawn,
        tick_count: d.tick_count,
        freeze_period: d.freeze_period,
        round_start_count: d.round_start_count,
        highest_index: d.highest_index,
        map: d.map,
        bomb_dropped: d.bomb_dropped,
        bomb_planted: d.bomb_planted,
        bomb_planted_stamp: d.bomb_planted_stamp,
        bomb_plant_timer: d.bomb_plant_timer,
        bomb_being_defused: d.bomb_being_defused,
        bomb_defuse_stamp: d.bomb_defuse_stamp,
        bomb_defuse_length: d.bomb_defuse_length,
        bomb_exploded: d.bomb_exploded,
        bomb_defused: d.bomb_defused,
    }
}

/// `d` with the bomb pointer `v` and every other field as it was.
pub open spec fn with_bomb(d: CsData, v: u64) -> CsData {
    CsData {
        players: d.players,
        bomb: v,
        bomb_holder: d.bomb_holder,
        recheck_bomb_holder: d.recheck_bomb_holder,
        globals: d.globals,
        gamerules: d.gamerules,
        entity_list: d.entity_list,
        game_ent_sys: d.game_ent_sys,
        local: d.local,
        local_pawn: d.local_pawn,
        tick_count: d.tick_count,
        freeze_period: d.freeze_period,
        round_start_count: d.round_start_count,
        highest_index: d.highest_index,
        map: d.map,
        bomb_dropped: d.bomb_dropped,
        bomb_planted: d.bomb_planted,
        bomb_planted_stamp: d.bomb_planted_stamp,
        bomb_plant_timer: d.bomb_plant_timer,
        bomb_being_defused: d.bomb_being_defused,
        bomb_defuse_stamp: d.bomb_defuse_stamp,
        bomb_defuse_length: d.bomb_defuse_length,
        bomb_exploded: d.bomb_exploded,
        bomb_defused: d.bomb_defused,
    }
}

/// `d` with the player list `v` and every other field as it was.
pub open spec fn with_players(d: CsData, v: Vec<(u64, u64)>) -> CsData {
    CsData {
        players: v,
        bomb: d.bomb,
        bomb_holder: d.bomb_holder,
        recheck_bomb_holder: d.recheck_bomb_holder,
        globals: d.globals,
        gamerules: d.gamerules,
        entity_list: d.entity_list,
        game_ent_sys: d.game_ent_sys,
        local: d.local,
        local_pawn: d.local_pawn,
        tick_count: d.tick_count,
        freeze_period: d.freeze_period,
        round_start_count: d.round_start_count,
        highest_index: d.highest_index,
        map: d.map,
        bomb_dropped: d.bomb_dropped,
        bomb_planted: d.bomb_planted,
        bomb_planted_stamp: d.bomb_planted_stamp,
        bomb_plant_timer: d.bomb_plant_timer,
        bomb_being_defused: d.bomb_being_defused,
        bomb_defuse_stamp: d.bomb_defuse_stamp,
        bomb_defuse_length: d.bomb_defuse_length,
        bomb_exploded: d.bomb_exploded,
        bomb_defused: d.bomb_defused,
    }
}

/// The fields that [`CsData::update_common`] leaves alone.
pub open spec fn same_entities_and_pointers(a: CsData, b: CsData) -> bool {
    &&& a.players@ == b.players@
    &&& a.bomb == b.bomb
    &&& a.bomb_holder == b.bomb_holder
    &&& a.recheck_bomb_holder == b.recheck_bomb_holder
    &&& a.globals == b.globals
    &&& a.gamerules == b.gamerules
    &&& a.entity_list == b.entity_list
    &&& a.game_ent_sys == b.game_ent_sys
}

/// The items of `items` whose flag is set, in order.
pub open spec fn select(items: Seq<u64>, flags: Seq<bool>) -> Seq<u64>
    decreases items.len(),
{
    if items.len() == 0 || flags.len() == 0 {
        Seq::empty()
    } else {
        let rest = select(items.drop_last(), flags.drop_last());
        if flags.last() { rest.push(items.last()) } else { rest }
    }
}

/// The reads of a player-controller test whose failure counts as "no": either the complete
/// test and its answer, or a test cut short by a failed read, answered "no".
pub open spec fn controller_test_reads(o: crate::offsets::Offsets, entity: u64, t: Seq<MemRead>, is_controller: bool) -> bool {
    ||| {
        &&& designer_name_reads(o, entity, t)
        &&& t.len() == 3
        &&& bytes_at(t[2], designer_name_ptr(t))
        &&& is_controller == (bytes_of(t[2]) == zero_terminated(cs_player_controller_bytes()))
    }
    ||| !is_controller && designer_name_reads_cut(o, entity, t)
}

/// The reads that find a candidate controller's pawn: none for a null pointer or the local
/// player, else the pawn handle and its lookup.
pub open spec fn candidate_pawn_reads(o: crate::offsets::Offsets, entity_list: u64, local: u64, controller: u64, t: Seq<MemRead>, found: Option<u64>) -> bool {
    if controller == 0 || controller == local {
        t.len() == 0 && found is None
    } else {
        &&& t.len() >= 1
        &&& read_at(t[0], wrap_addr(controller + o.player_controller_player_pawn), 4)
        &&& pawn_lookup(entity_list, value_of(t[0]) as u32, t.subrange(1, t.len() as int), found)
    }
}

/// The candidates whose pawn was found, each with its pawn, in order.
pub open spec fn kept_players(candidates: Seq<u64>, found: Seq<Option<u64>>) -> Seq<(u64, u64)>
    decreases candidates.len(),
{
    if candidates.len() == 0 || found.len() == 0 {
        Seq::empty()
    } else {
        let rest = kept_players(candidates.drop_last(), found.drop_last());
        match found.last() {
            Some(pawn) => rest.push((candidates.last(), pawn)),
            None => rest,
        }
    }
}

/// The reads of [`CsData::update_players`] and the players it found: the chunk pointers for
/// entity indices 0 to 63 in one batch, their entity pointers in a second batch, a
/// player-controller test of each, and the pawn of each controller but a null one or the
/// local player's; the players are the controllers whose pawn was found.
pub open spec fn player_scan(o: crate::offsets::Offsets, entity_list: u64, local: u64, t: Seq<MemRead>, players: Seq<(u64, u64)>) -> bool {
    exists|flags: Seq<bool>, tests: Seq<Seq<MemRead>>, found: Seq<Option<u64>>, lookups: Seq<Seq<MemRead>>|
        player_scan_with(o, entity_list, local, t, players, flags, tests, found, lookups)
}

/// [`player_scan`], with the tests' answers and reads and the lookups' outcomes and reads
/// given.
pub open spec fn player_scan_with(
    o: crate::offsets::Offsets,
    entity_list: u64,
    local: u64,
    t: Seq<MemRead>,
    players: Seq<(u64, u64)>,
    flags: Seq<bool>,
    tests: Seq<Seq<MemRead>>,
    found: Seq<Option<u64>>,
    lookups: Seq<Seq<MemRead>>,
) -> bool {
    let ptrs = Seq::new(64, |i: int| le_u64(batched_data(t[64 + i])));
    let candidates = select(ptrs, flags);
    &&& t.len() == 128 + concat(tests).len() as int + concat(lookups).len()
    &&& forall|i: int| 0 <= i < 64 ==> #[trigger] batched_at(t[i], list_entry_address(entity_list, i as i32), 8)
    &&& forall|i: int| 0 <= i < 64 ==> #[trigger] batched_at(t[64 + i], list_slot_address(le_u64(batched_data(t[i])), i as i32), 8)
    &&& flags.len() == 64
    &&& tests.len() == 64
    &&& forall|i: int| 0 <= i < 64 ==> controller_test_reads(o, ptrs[i], #[trigger] tests[i], flags[i])
    &&& t.subrange(128, 128 + concat(tests).len() as int) == concat(tests)
    &&& found.len() == candidates.len()
    &&& lookups.len() == candidates.len()
    &&& forall|j: int| 0 <= j < candidates.len() ==> candidate_pawn_reads(o, entity_list, local, candidates[j], #[trigger] lookups[j], found[j])
    &&& t.subrange(128 + concat(tests).len() as int, t.len() as int) == concat(lookups)
    &&& players == kept_players(candidates, found)
}

/// The entity pointers that the second batch of [`CsData::update_players`] read, by index.
pub open spec fn player_ptrs(t: Seq<MemRead>) -> Seq<u64> {
    Seq::new(64, |i: int| le_u64(batched_data(t[64 + i])))
}

/// The head of the reads of [`CsData::update_players`]: the chunk pointers for entity indices
/// 0 to 63 in one batch, their entity pointers in a second batch, and a player-controller
/// test of each, with its answer in `flags`.
pub open spec fn player_tests_with(
    o: crate::offsets::Offsets,
    entity_list: u64,
    t: Seq<MemRead>,
    flags: Seq<bool>,
    tests: Seq<Seq<MemRead>>,
) -> bool {
    &&& t.len() >= 128 + concat(tests).len()
    &&& forall|i: int| 0 <= i < 64 ==> #[trigger] batched_at(t[i], list_entry_address(entity_list, i as i32), 8)
    &&& forall|i: int| 0 <= i < 64 ==> #[trigger] batched_at(t[64 + i], list_slot_address(le_u64(batched_data(t[i])), i as i32), 8)
    &&& flags.len() == 64
    &&& tests.len() == 64
    &&& forall|i: int| 0 <= i < 64 ==> controller_test_reads(o, player_ptrs(t)[i], #[trigger] tests[i], flags[i])
    &&& t.subrange(128, 128 + concat(tests).len() as int) == concat(tests)
}

/// [`player_scan_cut`], with the tests' answers and reads, the completed lookups' outcomes
/// and reads, and the reads of the lookup that failed given.
pub open spec fn player_scan_cut_with(
    o: crate::offsets::Offsets,
    entity_list: u64,
    local: u64,
    t: Seq<MemRead>,
    flags: Seq<bool>,
    tests: Seq<Seq<MemRead>>,
    found: Seq<Option<u64>>,
    lookups: Seq<Seq<MemRead>>,
    cut: Seq<MemRead>,
) -> bool {
    let candidates = select(player_ptrs(t), flags);
    let head = 128 + concat(tests).len() as int;
    let k = lookups.len() as int;
    &&& player_tests_with(o, entity_list, t, flags, tests)
    &&& t.len() == head + concat(lookups).len() + cut.len()
    &&& found.len() == k
    &&& k < candidates.len()
    &&& forall|j: int| 0 <= j < k ==> candidate_pawn_reads(o, entity_list, local, candidates[j], #[trigger] lookups[j], found[j])
    &&& t.subrange(head, head + concat(lookups).len()) == concat(lookups)
    &&& t.subrange(head + concat(lookups).len(), t.len() as int) == cut
    &&& candidates[k] != 0
    &&& candidates[k] != local
    &&& controller_pawn_cut(o, entity_list, candidates[k], cut)
}

/// The reads of [`CsData::update_players`] that stopped where a pawn lookup failed: the two
/// batches and the 64 controller tests, the pawn lookups of the candidates before some
/// candidate, each in full, then part of that candidate's lookup; that candidate is neither
/// a null pointer nor the local player. Nothing else fails the update.
pub open spec fn player_scan_cut(o: crate::offsets::Offsets, entity_list: u64, local: u64, t: Seq<MemRead>) -> bool {
    exists|flags: Seq<bool>, tests: Seq<Seq<MemRead>>, found: Seq<Option<u64>>, lookups: Seq<Seq<MemRead>>, cut: Seq<MemRead>|
        player_scan_cut_with(o, entity_list, local, t, flags, tests, found, lookups, cut)
}

/// Reads added after the head of [`CsData::update_players`] leave the head as it was.
proof fn lemma_player_tests_extend(
    o: crate::offsets::Offsets,
    entity_list: u64,
    t: Seq<MemRead>,
    u: Seq<MemRead>,
    flags: Seq<bool>,
    tests: Seq<Seq<MemRead>>,
)
    requires
        player_tests_with(o, entity_list, t, flags, tests),
    ensures
        player_tests_with(o, entity_list, t + u, flags, tests),
        player_ptrs(t + u) == player_ptrs(t),
{
    let tu = t + u;
    assert forall|i: int| 0 <= i < t.len() implies tu[i] == t[i] by {}
    assert(player_ptrs(tu) =~= player_ptrs(t));
    assert(tu.subrange(128, 128 + concat(tests).len() as int) =~= t.subrange(128, 128 + concat(tests).len() as int));
    assert forall|i: int| 0 <= i < 64 implies #[trigger] batched_at(tu[i], list_entry_address(entity_list, i as i32), 8) by {
        assert(batched_at(t[i], list_entry_address(entity_list, i as i32), 8));
    }
    assert forall|i: int| 0 <= i < 64 implies #[trigger] batched_at(tu[64 + i], list_slot_address(le_u64(batched_data(tu[i])), i as i32), 8) by {
        assert(batched_at(t[64 + i], list_slot_address(le_u64(batched_data(t[i])), i as i32), 8));
    }
}

/// The reads of one chunk of the search for the dropped bomb: the `m` entity indices from
/// `start` down, in five batches (chunk pointer, entity pointer, entity identity, designer
/// name pointer, two bytes of the designer name from its eighth byte on).
pub open spec fn bomb_chunk_reads(o: crate::offsets::Offsets, entity_list: u64, start: int, m: int, t: Seq<MemRead>) -> bool {
    &&& t.len() == 5 * m
    &&& forall|j: int| 0 <= j < m ==> {
        &&& #[trigger] batched_at(t[j], list_entry_address(entity_list, (start - j) as i32), 8)
        &&& batched_at(t[m + j], list_slot_address(le_u64(batched_data(t[j])), (start - j) as i32), 8)
        &&& batched_at(t[2 * m + j], wrap_addr(le_u64(batched_data(t[m + j])) + o.entity_instance_entity), 8)
        &&& batched_at(t[3 * m + j], wrap_addr(le_u64(batched_data(t[2 * m + j])) + o.entity_identity_designer_name), 8)
        &&& batched_at(t[4 * m + j], wrap_addr(le_u64(batched_data(t[3 * m + j])) + 7), 2)
    }
}

/// The first entity of a chunk, from `from` on, whose designer name bytes are `"c4"`.
pub open spec fn first_c4(t: Seq<MemRead>, m: int, from: int) -> Option<int>
    decreases m - from,
{
    if from >= m {
        None
    } else if batched_data(t[4 * m + from]) == c4_bytes() {
        Some(from)
    } else {
        first_c4(t, m, from + 1)
    }
}

/// The size of the chunk of the search that starts at entity index `start`: 64, or what is
/// left down to index 0.
pub open spec fn chunk_len(start: int) -> int {
    if start + 1 < 64 { start + 1 } else { 64 }
}

/// The search for the dropped bomb from entity index `start` down to 0, in chunks of 64:
/// the bomb's entity pointer if a chunk holds it, `None` if none does; `None` outside where
/// `t` is not exactly the reads of the search.
pub open spec fn bomb_search(o: crate::offsets::Offsets, entity_list: u64, start: int, t: Seq<MemRead>) -> Option<Option<u64>>
    decreases (if start >= 0 { start + 1 } else { 0 }),
{
    if start < 0 {
        if t.len() == 0 { Some(None) } else { None }
    } else {
        let m = chunk_len(start);
        if !(t.len() >= 5 * m && bomb_chunk_reads(o, entity_list, start, m, t.subrange(0, 5 * m))) {
            None
        } else {
            match first_c4(t.subrange(0, 5 * m), m, 0) {
                Some(j) => if t.len() == 5 * m { Some(Some(le_u64(batched_data(t[m + j])))) } else { None },
                None => bomb_search(o, entity_list, start - 64, t.subrange(5 * m, t.len() as int)),
            }
        }
    }
}

/// A chunk's reads decide the search whatever follows them.
proof fn lemma_bomb_search_step(o: crate::offsets::Offsets, entity_list: u64, start: int, p: Seq<MemRead>, s: Seq<MemRead>)
    requires
        start >= 0,
        p.len() == 5 * chunk_len(start),
        bomb_chunk_reads(o, entity_list, start, chunk_len(start), p),
        first_c4(p, chunk_len(start), 0) is None,
    ensures
        bomb_search(o, entity_list, start, p + s) == bomb_search(o, entity_list, start - 64, s),
{
    let m = chunk_len(start);
    assert((p + s).subrange(0, 5 * m) =~= p);
    assert((p + s).subrange(5 * m, (p + s).len() as int) =~= s);
}

/// The buffer of the little-endian bytes of `x`.
fn le_bytes_u64(x: u64) -> (r: Vec<u8>)
    ensures
        r@.len() == 8,
        le_u64(r@) == x,
{
    proof { vstd::bytes::lemma_auto_spec_u64_to_from_le_bytes(); }
    u64_to_le_bytes(x)
}

/// The buffer of the little-endian bytes of `x`.
fn le_bytes_u32(x: u32) -> (r: Vec<u8>)
    ensures
        r@.len() == 4,
        le_u32(r@) == x,
{
    proof { vstd::bytes::lemma_auto_spec_u32_to_from_le_bytes(); }
    u32_to_le_bytes(x)
}

/// The 64-bit word of an eight-byte buffer.
fn word64(bytes: &Vec<u8>) -> (r: u64)
    requires
        bytes@.len() == 8,
    ensures
        r == le_u64(bytes@),
{
    u64_from_le_bytes(bytes.as_slice())
}

/// The 32-bit word of a four-byte buffer.
fn word32(bytes: &Vec<u8>) -> (r: u32)
    requires
        bytes@.len() == 4,
    ensures
        r == le_u32(bytes@),
{
    u32_from_le_bytes(bytes.as_slice())
}

impl Default for CsData {
    /// Nothing known yet: no players, every pointer null, every count zero, every flag
    /// false, no map name and no stamps.
    fn default() -> (r: CsData)
        ensures
            r.players@.len() == 0,
            r.bomb == 0 && r.bomb_holder is None && !r.recheck_bomb_holder,
            r.globals == 0 && r.gamerules == 0 && r.entity_list == 0 && r.game_ent_sys == 0,
            r.local == 0 && r.local_pawn == 0 && r.tick_count == 0 && !r.freeze_period,
            r.round_start_count == 0 && r.highest_index == 0 && r.map@.len() == 0,
            !r.bomb_dropped && !r.bomb_planted && r.bomb_planted_stamp is None && r.bomb_plant_timer == 0,
            !r.bomb_being_defused && r.bomb_defuse_stamp is None && r.bomb_defuse_length == 0,
            !r.bomb_exploded && !r.bomb_defused,
    {
        CsData {
            players: Vec::new(),
            bomb: 0,
            bomb_holder: None,
            recheck_bomb_holder: false,
            globals: 0,
            gamerules: 0,
            entity_list: 0,
            game_ent_sys: 0,
            local: 0,
            local_pawn: 0,
            tick_count: 0,
            freeze_period: false,
            round_start_count: 0,
            highest_index: 0,
            map: String::new(),
            bomb_dropped: false,
            bomb_planted: false,
            bomb_planted_stamp: None,
            bomb_plant_timer: 0,
            bomb_being_defused: false,
            bomb_defuse_stamp: None,
            bomb_defuse_length: 0,
            bomb_exploded: false,
            bomb_defused: false,
        }
    }
}

impl CsData {
    /// Reads, in one batch, the globals, game rules, entity list and entity system pointers
    /// of `client.dll`. A read that fails gives a null pointer (memflow zero-fills it).
    pub fn update_pointers(&mut self, ctx: &mut DmaCtx)
        ensures
            final(ctx).same_game(*old(ctx)),
            reads_grew(*old(ctx), *final(ctx)),
            pointer_reads(*old(ctx), reads_between(*old(ctx), *final(ctx)), *final(self)),
            *final(self) == with_pointers(*old(self), final(self).globals, final(self).gamerules,
                final(self).entity_list, final(self).game_ent_sys),
    {
        let o = ctx.offsets;
        let base = ctx.client_module;
        let mut addrs: Vec<u64> = Vec::new();
        addrs.push(addr_add(base, o.global_vars));
        addrs.push(addr_add(base, o.game_rules));
        addrs.push(addr_add(base, o.entity_list));
        addrs.push(addr_add(base, o.game_entity_system));
        let mut bufs: Vec<Vec<u8>> = Vec::new();
        bufs.push(le_bytes_u64(self.globals));
        bufs.push(le_bytes_u64(self.gamerules));
        bufs.push(le_bytes_u64(self.entity_list));
        bufs.push(le_bytes_u64(self.game_ent_sys));
        read_batch(ctx, &addrs, &mut bufs);
        self.globals = word64(&bufs[0]);
        self.gamerules = word64(&bufs[1]);
        self.entity_list = word64(&bufs[2]);
        self.game_ent_sys = word64(&bufs[3]);
    }

    /// One chunk of the search for the dropped bomb: the `m` entity indices from `start`
    /// down; the entity pointer of the first whose designer name has `"c4"` at bytes 7 and 8.
    fn bomb_chunk(ctx: &mut DmaCtx, entity_list: u64, start: i32, m: usize) -> (r: Option<u64>)
        requires
            1 <= m <= 64,
            start - m + 1 >= 0,
        ensures
            final(ctx).same_game(*old(ctx)),
            reads_grew(*old(ctx), *final(ctx)),
            bomb_chunk_reads(old(ctx).offsets, entity_list, start as int, m as int, reads_between(*old(ctx), *final(ctx))),
            r == match first_c4(reads_between(*old(ctx), *final(ctx)), m as int, 0) {
                Some(j) => Some(le_u64(batched_data(reads_between(*old(ctx), *final(ctx))[m + j]))),
                None => None,
            },
    {
        let ghost s0 = *ctx;
        let o = ctx.offsets;
        // Chunk pointers.
        let mut addrs: Vec<u64> = Vec::new();
        let mut bufs: Vec<Vec<u8>> = Vec::new();
        let mut j: usize = 0;
        while j < m
            invariant
                j <= m <= 64,
                start - m + 1 >= 0,
                addrs@.len() == j,
                bufs@.len() == j,
                forall|i: int| 0 <= i < j ==> #[trigger] addrs@[i] == list_entry_address(entity_list, (start - i) as i32),
                forall|i: int| 0 <= i < j ==> (#[trigger] bufs@[i])@.len() == 8,
            decreases m - j,
        {
            addrs.push(entry_address(entity_list, start - j as i32));
            bufs.push(vec![0u8; 8]);
            j += 1;
        }
        read_batch(ctx, &addrs, &mut bufs);
        let ghost s1 = *ctx;
        // Entity pointers, read over the chunk pointers.
        let mut addrs2: Vec<u64> = Vec::new();
        let mut bufs2: Vec<Vec<u8>> = Vec::new();
        let mut j: usize = 0;
        while j < m
            invariant
                j <= m <= 64,
                start - m + 1 >= 0,
                bufs@.len() == m,
                forall|i: int| 0 <= i < m ==> (#[trigger] bufs@[i])@.len() == 8,
                addrs2@.len() == j,
                bufs2@.len() == j,
                forall|i: int| 0 <= i < j ==> #[trigger] addrs2@[i] == list_slot_address(le_u64(bufs@[i]@), (start - i) as i32),
                forall|i: int| 0 <= i < j ==> (#[trigger] bufs2@[i])@.len() == 8,
            decreases m - j,
        {
            let list_entry = word64(&bufs[j]);
            addrs2.push(slot_address(list_entry, start - j as i32));
            bufs2.push(le_bytes_u64(list_entry));
            j += 1;
        }
        read_batch(ctx, &addrs2, &mut bufs2);
        let ghost s2 = *ctx;
        // Entity identities.
        let mut addrs3: Vec<u64> = Vec::new();
        let mut bufs3: Vec<Vec<u8>> = Vec::new();
        let mut j: usize = 0;
        while j < m
            invariant
                j <= m,
                bufs2@.len() == m,
                forall|i: int| 0 <= i < m ==> (#[trigger] bufs2@[i])@.len() == 8,
                addrs3@.len() == j,
                bufs3@.len() == j,
                forall|i: int| 0 <= i < j ==> #[trigger] addrs3@[i] == wrap_addr(le_u64(bufs2@[i]@) + o.entity_instance_entity),
                forall|i: int| 0 <= i < j ==> (#[trigger] bufs3@[i])@.len() == 8,
            decreases m - j,
        {
            addrs3.push(addr_add(word64(&bufs2[j]), o.entity_instance_entity));
            bufs3.push(vec![0u8; 8]);
            j += 1;
        }
        read_batch(ctx, &addrs3, &mut bufs3);
        let ghost s3 = *ctx;
        // Designer name pointers.
        let mut addrs4: Vec<u64> = Vec::new();
        let mut bufs4: Vec<Vec<u8>> = Vec::new();
        let mut j: usize = 0;
        while j < m
            invariant
                j <= m,
                bufs3@.len() == m,
                forall|i: int| 0 <= i < m ==> (#[trigger] bufs3@[i])@.len() == 8,
                addrs4@.len() == j,
                bufs4@.len() == j,
                forall|i: int| 0 <= i < j ==> #[trigger] addrs4@[i] == wrap_addr(le_u64(bufs3@[i]@) + o.entity_identity_designer_name),
                forall|i: int| 0 <= i < j ==> (#[trigger] bufs4@[i])@.len() == 8,
            decreases m - j,
        {
            addrs4.push(addr_add(word64(&bufs3[j]), o.entity_identity_designer_name));
            bufs4.push(vec![0u8; 8]);
            j += 1;
        }
        read_batch(ctx, &addrs4, &mut bufs4);
        let ghost s4 = *ctx;
        // Two bytes of each designer name.
        let mut addrs5: Vec<u64> = Vec::new();
        let mut bufs5: Vec<Vec<u8>> = Vec::new();
        let mut j: usize = 0;
        while j < m
            invariant
                j <= m,
                bufs4@.len() == m,
                forall|i: int| 0 <= i < m ==> (#[trigger] bufs4@[i])@.len() == 8,
                addrs5@.len() == j,
                bufs5@.len() == j,
                forall|i: int| 0 <= i < j ==> #[trigger] addrs5@[i] == wrap_addr(le_u64(bufs4@[i]@) + 7),
                forall|i: int| 0 <= i < j ==> (#[trigger] bufs5@[i])@.len() == 2,
            decreases m - j,
        {
            addrs5.push(addr_add(word64(&bufs4[j]), 7));
            bufs5.push(vec![0u8; 2]);
            j += 1;
        }
        read_batch(ctx, &addrs5, &mut bufs5);
        let ghost t = reads_between(s0, *ctx);
        proof {
            lemma_reads_grew_trans(s0, s1, s2);
            lemma_reads_grew_trans(s0, s2, s3);
            lemma_reads_grew_trans(s0, s3, s4);
            lemma_reads_grew_trans(s0, s4, *ctx);
            assert forall|i: int| 0 <= i < m implies {
                &&& t[i] == (MemRead::Batched { addr: addrs@[i], data: bufs@[i]@ })
                &&& t[m + i] == (MemRead::Batched { addr: addrs2@[i], data: bufs2@[i]@ })
                &&& t[2 * m + i] == (MemRead::Batched { addr: addrs3@[i], data: bufs3@[i]@ })
                &&& t[3 * m + i] == (MemRead::Batched { addr: addrs4@[i], data: bufs4@[i]@ })
                &&& #[trigger] t[4 * m + i] == (MemRead::Batched { addr: addrs5@[i], data: bufs5@[i]@ })
            } by {
            }
            assert(bomb_chunk_reads(o, entity_list, start as int, m as int, t));
        }
        // The first entity whose name bytes are "c4".
        let mut j: usize = 0;
        while j < m
            invariant
                j <= m,
                s0 == *old(ctx),
                o == s0.offsets,
                ctx.same_game(*old(ctx)),
                reads_grew(*old(ctx), *ctx),
                t == reads_between(*old(ctx), *ctx),
                t.len() == 5 * m,
                bomb_chunk_reads(o, entity_list, start as int, m as int, t),
                bufs5@.len() == m,
                bufs2@.len() == m,
                forall|i: int| 0 <= i < m ==> (#[trigger] bufs2@[i])@.len() == 8,
                forall|i: int| 0 <= i < m ==> #[trigger] t[4 * m + i] == (MemRead::Batched { addr: addrs5@[i], data: bufs5@[i]@ }),
                forall|i: int| 0 <= i < m ==> #[trigger] t[m + i] == (MemRead::Batched { addr: addrs2@[i], data: bufs2@[i]@ }),
                first_c4(t, m as int, 0) == first_c4(t, m as int, j as int),
            decreases m - j,
        {
            if is_c4_name(bufs5[j].as_slice()) {
                return Some(word64(&bufs2[j]));
            }
            j += 1;
        }
        None
    }

    /// Finds the bomb. While it is dropped, searches the entity list from the highest index
    /// down, 64 entities a batch, for the first entity whose designer name has `"c4"` at
    /// bytes 7 and 8, and keeps its pointer if one is found; while it is planted, reads the
    /// planted bomb's pointer, returning the error where that fails.
    pub fn update_bomb(&mut self, ctx: &mut DmaCtx) -> (r: Result<(), RadarError>)
        ensures
            final(ctx).same_game(*old(ctx)),
            reads_grew(*old(ctx), *final(ctx)),
            *final(self) == with_bomb(*old(self), final(self).bomb),
            old(self).bomb_dropped ==> r is Ok && match bomb_search(old(ctx).offsets, old(self).entity_list, old(self).highest_index as int, reads_between(*old(ctx), *final(ctx))) {
                Some(Some(bomb)) => final(self).bomb == bomb,
                Some(None) => final(self).bomb == old(self).bomb,
                None => false,
            },
            !old(self).bomb_dropped && old(self).bomb_planted ==> match r {
                Ok(()) => {
                    let t = reads_between(*old(ctx), *final(ctx));
                    double_pointer_read(t, old(ctx).client_module, old(ctx).offsets.planted_c4) && final(self).bomb == value_of(t[1])
                },
                Err(e) => failed_read(e) && final(self).bomb == old(self).bomb && double_pointer_read_cut(
                    reads_between(*old(ctx), *final(ctx)), old(ctx).client_module, old(ctx).offsets.planted_c4),
            },
            !old(self).bomb_dropped && !old(self).bomb_planted ==> r is Ok && final(self).bomb == old(self).bomb
                && reads_between(*old(ctx), *final(ctx)).len() == 0,
    {
        if self.bomb_dropped {
            let ghost start = *ctx;
            let entity_list = self.entity_list;
            let o = ctx.offsets;
            let mut next: i32 = self.highest_index;
            while next >= 0
                invariant
                    start == *old(ctx),
                    *self == *old(self),
                    self.bomb_dropped,
                    entity_list == self.entity_list,
                    o == start.offsets,
                    ctx.same_game(start),
                    ctx.offsets == o,
                    reads_grew(start, *ctx),
                    forall|s: Seq<MemRead>| #[trigger] bomb_search(o, entity_list, self.highest_index as int, reads_between(start, *ctx) + s)
                        == bomb_search(o, entity_list, next as int, s),
                decreases next + 1,
            {
                let ghost before = *ctx;
                let m: usize = if next < 63 { (next + 1) as usize } else { 64 };
                let found = Self::bomb_chunk(ctx, entity_list, next, m);
                proof {
                    lemma_reads_grew_trans(start, before, *ctx);
                }
                if let Some(bomb) = found {
                    proof {
                        let p = reads_between(before, *ctx);
                        let e = Seq::<MemRead>::empty();
                        lemma_reads_between_split(start, before, *ctx, e);
                        assert(p + e =~= p);
                        assert(reads_between(start, *ctx) + e =~= reads_between(start, *ctx));
                        assert((p + e).subrange(0, 5 * m) =~= p);
                        assert(bomb_search(o, entity_list, next as int, p + e) == Some(Some(bomb)));
                    }
                    self.bomb = bomb;
                    return Ok(());
                }
                proof {
                    let p = reads_between(before, *ctx);
                    assert forall|s: Seq<MemRead>| #[trigger] bomb_search(o, entity_list, self.highest_index as int, reads_between(start, *ctx) + s)
                        == bomb_search(o, entity_list, next - 64, s) by {
                        lemma_reads_between_split(start, before, *ctx, s);
                        assert(bomb_search(o, entity_list, self.highest_index as int, reads_between(start, before) + (p + s))
                            == bomb_search(o, entity_list, next as int, p + s));
                        lemma_bomb_search_step(o, entity_list, next as int, p, s);
                    }
                }
                if next < 64 {
                    next = -1;
                } else {
                    next = next - 64;
                }
            }
            proof {
                let e = Seq::<MemRead>::empty();
                assert(reads_between(start, *ctx) + e =~= reads_between(start, *ctx));
            }
            Ok(())
        } else if self.bomb_planted {
            let bomb = ctx.get_plantedc4()?;
            self.bomb = bomb;
            Ok(())
        } else {
            Ok(())
        }
    }

    /// Finds the players among entity indices 0 to 63: reads their chunk pointers and entity
    /// pointers in two batches, keeps the entities that pass the player-controller test (a
    /// failed test counts as "no"), drops null pointers and the local player, and keeps each
    /// remaining controller with its pawn where it has one. Where a pawn lookup fails the
    /// players are left as they were and the error is returned.
    pub fn update_players(&mut self, ctx: &mut DmaCtx) -> (r: Result<(), RadarError>)
        ensures
            final(ctx).same_game(*old(ctx)),
            reads_grew(*old(ctx), *final(ctx)),
            *final(self) == with_players(*old(self), final(self).players),
            match r {
                Ok(()) => player_scan(old(ctx).offsets, old(self).entity_list, old(self).local, reads_between(*old(ctx), *final(ctx)), final(self).players@),
                Err(e) => {
                    &&& failed_read(e)
                    &&& final(self).players@ == old(self).players@
                    &&& player_scan_cut(old(ctx).offsets, old(self).entity_list, old(self).local, reads_between(*old(ctx), *final(ctx)))
                },
            },
    {
        let ghost start = *ctx;
        let o = ctx.offsets;
        let ent_list = self.entity_list;
        let mut addrs: Vec<u64> = Vec::new();
        let mut bufs: Vec<Vec<u8>> = Vec::new();
        let mut idx: i32 = 0;
        while idx < 64
            invariant
                0 <= idx <= 64,
                addrs@.len() == idx,
                bufs@.len() == idx,
                forall|i: int| 0 <= i < idx ==> #[trigger] addrs@[i] == list_entry_address(ent_list, i as i32),
                forall|i: int| 0 <= i < idx ==> (#[trigger] bufs@[i])@.len() == 8,
            decreases 64 - idx,
        {
            addrs.push(entry_address(ent_list, idx));
            bufs.push(vec![0u8; 8]);
            idx += 1;
        }
        read_batch(ctx, &addrs, &mut bufs);
        let ghost after_entries = *ctx;

        let mut ptr_addrs: Vec<u64> = Vec::new();
        let mut ptr_bufs: Vec<Vec<u8>> = Vec::new();
        let mut k: usize = 0;
        while k < 64
            invariant
                0 <= k <= 64,
                bufs@.len() == 64,
                forall|i: int| 0 <= i < 64 ==> (#[trigger] bufs@[i])@.len() == 8,
                ptr_addrs@.len() == k,
                ptr_bufs@.len() == k,
                forall|i: int| 0 <= i < k ==> #[trigger] ptr_addrs@[i] == list_slot_address(le_u64(bufs@[i]@), i as i32),
                forall|i: int| 0 <= i < k ==> (#[trigger] ptr_bufs@[i])@.len() == 8,
            decreases 64 - k,
        {
            let list_entry = word64(&bufs[k]);
            ptr_addrs.push(slot_address(list_entry, k as i32));
            ptr_bufs.push(vec![0u8; 8]);
            k += 1;
        }
        read_batch(ctx, &ptr_addrs, &mut ptr_bufs);
        let ghost after_ptrs = *ctx;
        let ghost ptrs = Seq::new(64, |i: int| le_u64(ptr_bufs@[i]@));

        let mut new_players: Vec<u64> = Vec::new();
        let ghost mut flags: Seq<bool> = Seq::empty();
        let ghost mut tests: Seq<Seq<MemRead>> = Seq::empty();
        let mut n: usize = 0;
        while n < 64
            invariant
                0 <= n <= 64,
                ctx.same_game(start),
                ctx.offsets == o,
                reads_grew(after_ptrs, *ctx),
                ptr_bufs@.len() == 64,
                forall|i: int| 0 <= i < 64 ==> (#[trigger] ptr_bufs@[i])@.len() == 8,
                ptrs == Seq::new(64, |i: int| le_u64(ptr_bufs@[i]@)),
                flags.len() == n,
                tests.len() == n,
                forall|i: int| 0 <= i < n ==> controller_test_reads(o, ptrs[i], #[trigger] tests[i], flags[i]),
                reads_between(after_ptrs, *ctx) == concat(tests),
                new_players@ == select(ptrs.subrange(0, n as int), flags),
            decreases 64 - n,
        {
            let ghost before = *ctx;
            let ptr = word64(&ptr_bufs[n]);
            let res = ctx.is_cs_player_controller(ptr);
            let is_controller = match res {
                Ok(b) => b,
                Err(_) => false,
            };
            proof {
                let p = reads_between(before, *ctx);
                match res {
                    Ok(b) => {
                        assert(designer_name_reads(o, ptr, p));
                    },
                    Err(e) => {
                        assert(designer_name_reads_cut(o, ptr, p));
                    },
                }
            }
            proof {
                lemma_reads_grew_trans(after_ptrs, before, *ctx);
                let p = reads_between(before, *ctx);
                assert(ptrs[n as int] == ptr);
                assert(controller_test_reads(o, ptrs[n as int], p, is_controller));
                assert(tests.push(p).drop_last() =~= tests);
                let ghost old_flags = flags;
                flags = flags.push(is_controller);
                tests = tests.push(p);
                assert(ptrs.subrange(0, n + 1).drop_last() =~= ptrs.subrange(0, n as int));
                assert(flags.drop_last() =~= old_flags);
                assert(ptrs.subrange(0, n + 1).last() == ptr);
            }
            if is_controller {
                new_players.push(ptr);
            }
            n += 1;
        }
        let ghost after_tests = *ctx;
        proof {
            assert(ptrs.subrange(0, 64) =~= ptrs);
            lemma_reads_grew_trans(start, after_entries, after_ptrs);
            lemma_reads_grew_trans(start, after_ptrs, after_tests);
            let pre = reads_between(start, after_tests);
            assert(pre.subrange(128, 128 + concat(tests).len() as int) =~= concat(tests));
            assert(player_ptrs(pre) =~= ptrs);
            assert(player_tests_with(o, ent_list, pre, flags, tests));
        }

        let mut players: Vec<(u64, u64)> = Vec::new();
        let ghost mut found: Seq<Option<u64>> = Seq::empty();
        let ghost mut lookups: Seq<Seq<MemRead>> = Seq::empty();
        let local = self.local;
        let mut j: usize = 0;
        while j < new_players.len()
            invariant
                0 <= j <= new_players@.len(),
                start == *old(ctx),
                reads_grew(start, after_tests),
                reads_grew(start, *ctx),
                ctx.same_game(start),
                ctx.offsets == o,
                reads_grew(after_tests, *ctx),
                found.len() == j,
                lookups.len() == j,
                forall|m: int| 0 <= m < j ==> candidate_pawn_reads(o, ent_list, local, new_players@[m], #[trigger] lookups[m], found[m]),
                reads_between(after_tests, *ctx) == concat(lookups),
                players@ == kept_players(new_players@.subrange(0, j as int), found),
                player_tests_with(o, ent_list, reads_between(start, after_tests), flags, tests),
                reads_between(start, after_tests).len() == 128 + concat(tests).len(),
                new_players@ == select(player_ptrs(reads_between(start, after_tests)), flags),
                ent_list == old(self).entity_list,
                local == old(self).local,
                o == old(ctx).offsets,
                *self == *old(self),
            decreases new_players@.len() - j,
        {
            let ghost before = *ctx;
            let controller = new_players[j];
            let mut pawn: Option<u64> = None;
            if controller != 0 && controller != local {
                pawn = match ctx.pawn_from_controller(controller, ent_list) {
                    Ok(pawn) => pawn,
                    Err(e) => {
                        proof {
                            lemma_reads_grew_trans(after_tests, before, *ctx);
                            lemma_reads_grew_trans(start, after_tests, *ctx);
                            let pre = reads_between(start, after_tests);
                            let cut = reads_between(before, *ctx);
                            let t = reads_between(start, *ctx);
                            let head = 128 + concat(tests).len() as int;
                            assert(t =~= pre + (concat(lookups) + cut));
                            lemma_player_tests_extend(o, ent_list, pre, concat(lookups) + cut, flags, tests);
                            assert(t.subrange(head, head + concat(lookups).len()) =~= concat(lookups));
                            assert(t.subrange(head + concat(lookups).len(), t.len() as int) =~= cut);
                            assert(player_scan_cut_with(o, ent_list, local, t, flags, tests, found, lookups, cut));
                            assert(player_scan_cut(o, ent_list, local, t));
                        }
                        return Err(e);
                    },
                };
                if let Some(p) = pawn {
                    players.push((controller, p));
                }
            }
            proof {
                lemma_reads_grew_trans(after_tests, before, *ctx);
                let p = reads_between(before, *ctx);
                assert(lookups.push(p).drop_last() =~= lookups);
                assert(found.push(pawn).drop_last() =~= found);
                assert(new_players@.subrange(0, j + 1).drop_last() =~= new_players@.subrange(0, j as int));
                found = found.push(pawn);
                lookups = lookups.push(p);
            }
            j += 1;
        }
        self.players = players;
        proof {
            lemma_reads_grew_trans(start, after_entries, after_ptrs);
            lemma_reads_grew_trans(start, after_ptrs, after_tests);
            lemma_reads_grew_trans(start, after_tests, *ctx);
            let t = reads_between(start, *ctx);
            assert(new_players@.subrange(0, new_players@.len() as int) =~= new_players@);
            assert(t.subrange(128, 128 + concat(tests).len() as int) =~= concat(tests));
            assert(t.subrange(128 + concat(tests).len() as int, t.len() as int) =~= concat(lookups));
            assert(Seq::new(64, |i: int| le_u64(batched_data(t[64 + i]))) =~= ptrs);
            assert(player_scan_with(o, ent_list, local, t, self.players@, flags, tests, found, lookups));
        }
        Ok(())
    }

    /// Reads, in one batch, the local player's controller and pawn, the tick count, the
    /// bomb's dropped and planted flags, the freeze period, the round start count, the
    /// highest entity index and the map name's pointer. While the bomb was planted at the
    /// last update, it reads the planted bomb's timer, defuse state and explosion in a
    /// second batch, stamps `now` as when the bomb was first seen planted and when its defuse began,
    /// and clears the defuse stamp once no defuse is under way; otherwise it clears both
    /// stamps. Last it reads the map's name, `<empty>` where that read fails.
    #[verifier::rlimit(100)]
    pub fn update_common_at(&mut self, ctx: &mut DmaCtx, now: tokio::time::Instant)
        ensures
            final(ctx).same_game(*old(ctx)),
            reads_grew(*old(ctx), *final(ctx)),
            same_entities_and_pointers(*old(self), *final(self)),
            ({
                let t = reads_between(*old(ctx), *final(ctx));
                let k: int = if old(self).bomb_planted { 14 } else { 9 };
                &&& common_reads(*old(ctx), *old(self), t, *final(self))
                &&& t.len() >= k
                &&& map_reads(le_u64(batched_data(t[8])), t.subrange(k, t.len() as int), final(self).map@)
                &&& old(self).bomb_planted ==> planted_bomb_reads(*old(ctx), *old(self), t.subrange(9, 14), *final(self))
            }),
            !old(self).bomb_planted ==> {
                &&& !final(self).bomb_defused
                &&& !final(self).bomb_exploded
                &&& !final(self).bomb_being_defused
                &&& final(self).bomb_plant_timer == old(self).bomb_plant_timer
                &&& final(self).bomb_defuse_length == old(self).bomb_defuse_length
                &&& final(self).bomb_planted_stamp is None
                &&& final(self).bomb_defuse_stamp is None
            },
            old(self).bomb_planted ==> {
                &&& if old(self).bomb_planted_stamp is None && old(self).bomb != 0 {
                    final(self).bomb_planted_stamp == Some(now)
                } else {
                    final(self).bomb_planted_stamp == old(self).bomb_planted_stamp
                }
                &&& if old(self).bomb_being_defused {
                    if old(self).bomb_defuse_stamp is None {
                        final(self).bomb_defuse_stamp == Some(now)
                    } else {
                        final(self).bomb_defuse_stamp == old(self).bomb_defuse_stamp
                    }
                } else {
                    final(self).bomb_defuse_stamp is None
                }
            },
    {
        let o = ctx.offsets;
        let base = ctx.client_module;
        let ghost start = *ctx;
        let mut addrs: Vec<u64> = Vec::new();
        addrs.push(addr_add(base, o.local_player_controller));
        addrs.push(addr_add(base, o.local_player_pawn));
        addrs.push(addr_add(self.globals, 0x40));
        addrs.push(addr_add(self.gamerules, o.game_rules_bomb_dropped));
        addrs.push(addr_add(self.gamerules, o.game_rules_bomb_planted));
        addrs.push(addr_add(self.gamerules, o.game_rules_freeze_period));
        addrs.push(addr_add(self.gamerules, o.game_rules_round_start_count));
        addrs.push(addr_add(self.game_ent_sys, o.game_entity_system_highest_entity_index));
        addrs.push(addr_add(self.globals, 384));
        let mut bufs: Vec<Vec<u8>> = Vec::new();
        bufs.push(le_bytes_u64(self.local));
        bufs.push(le_bytes_u64(self.local_pawn));
        bufs.push(le_bytes_u32(self.tick_count as u32));
        bufs.push(vec![0u8]);
        bufs.push(vec![0u8]);
        bufs.push(vec![0u8]);
        bufs.push(vec![self.round_start_count]);
        bufs.push(le_bytes_u32(self.highest_index as u32));
        bufs.push(vec![0u8; 8]);
        read_batch(ctx, &addrs, &mut bufs);
        let ghost after_first = *ctx;
        self.local = word64(&bufs[0]);
        self.local_pawn = word64(&bufs[1]);
        self.tick_count = word32(&bufs[2]) as i32;
        let bomb_dropped: u8 = bufs[3][0];
        let bomb_planted: u8 = bufs[4][0];
        let freeze_period: u8 = bufs[5][0];
        self.round_start_count = bufs[6][0];
        self.highest_index = word32(&bufs[7]) as i32;
        let map_ptr = word64(&bufs[8]);

        let mut bomb_being_defused: u8 = 0;
        let mut bomb_exploded: u8 = 0;
        let mut bomb_defused: u8 = 0;
        if self.bomb_planted {
            let mut bomb_addrs: Vec<u64> = Vec::new();
            bomb_addrs.push(addr_add(self.bomb, o.planted_c4_timer_length));
            bomb_addrs.push(addr_add(self.bomb, o.planted_c4_bomb_defused));
            bomb_addrs.push(addr_add(self.bomb, o.planted_c4_defuse_length));
            bomb_addrs.push(addr_add(self.bomb, o.planted_c4_has_exploded));
            bomb_addrs.push(addr_add(self.bomb, o.planted_c4_being_defused));
            let mut bomb_bufs: Vec<Vec<u8>> = Vec::new();
            bomb_bufs.push(le_bytes_u32(self.bomb_plant_timer));
            bomb_bufs.push(vec![0u8]);
            bomb_bufs.push(le_bytes_u32(self.bomb_defuse_length));
            bomb_bufs.push(vec![0u8]);
            bomb_bufs.push(vec![0u8]);
            read_batch(ctx, &bomb_addrs, &mut bomb_bufs);
            self.bomb_plant_timer = word32(&bomb_bufs[0]);
            bomb_defused = bomb_bufs[1][0];
            self.bomb_defuse_length = word32(&bomb_bufs[2]);
            bomb_exploded = bomb_bufs[3][0];
            bomb_being_defused = bomb_bufs[4][0];

            if self.bomb_planted_stamp.is_none() && self.bomb != 0 {
                self.bomb_planted_stamp = Some(now);
            }
            if self.bomb_being_defused {
                if self.bomb_defuse_stamp.is_none() {
                    self.bomb_defuse_stamp = Some(now);
                }
            } else {
                if self.bomb_defuse_stamp.is_some() {
                    self.bomb_defuse_stamp = None;
                }
            }
        } else {
            if self.bomb_planted_stamp.is_some() {
                self.bomb_planted_stamp = None;
            }
            if self.bomb_defuse_stamp.is_some() {
                self.bomb_defuse_stamp = None;
            }
        }
        let ghost before_map = *ctx;

        let map_string = match read_text(ctx, map_ptr, 32) {
            Ok(s) => s,
            Err(_) => "<empty>".to_owned(),
        };

        self.map = map_string;
        self.bomb_dropped = bomb_dropped != 0;
        self.bomb_planted = bomb_planted != 0;
        self.bomb_exploded = bomb_exploded != 0;
        self.bomb_being_defused = bomb_being_defused != 0;
        self.bomb_defused = bomb_defused != 0;
        self.freeze_period = freeze_period != 0;
        proof {
            let t = reads_between(start, *ctx);
            let k: int = if old(self).bomb_planted { 14 } else { 9 };
            assert(t.subrange(k, t.len() as int) =~= reads_between(before_map, *ctx));
            if old(self).bomb_planted {
                assert(t.subrange(9, 14) =~= reads_between(after_first, before_map));
            }
        }
    }

    /// Reads, in one batch, the local player's controller and pawn, the tick count, the
    /// bomb's dropped and planted flags, the freeze period, the round start count, the
    /// highest entity index and the map name's pointer. While the bomb was planted at the
    /// last update, it reads the planted bomb's timer, defuse state and explosion in a
    /// second batch, stamps the current instant (tokio's clock) as when the bomb was first seen planted and when its defuse began,
    /// and clears the defuse stamp once no defuse is under way; otherwise it clears both
    /// stamps. Last it reads the map's name, `<empty>` where that read fails.
    pub fn update_common(&mut self, ctx: &mut DmaCtx)
        ensures
            final(ctx).same_game(*old(ctx)),
            reads_grew(*old(ctx), *final(ctx)),
            same_entities_and_pointers(*old(self), *final(self)),
            ({
                let t = reads_between(*old(ctx), *final(ctx));
                let k: int = if old(self).bomb_planted { 14 } else { 9 };
                &&& common_reads(*old(ctx), *old(self), t, *final(self))
                &&& t.len() >= k
                &&& map_reads(le_u64(batched_data(t[8])), t.subrange(k, t.len() as int), final(self).map@)
                &&& old(self).bomb_planted ==> planted_bomb_reads(*old(ctx), *old(self), t.subrange(9, 14), *final(self))
            }),
            !old(self).bomb_planted ==> {
                &&& !final(self).bomb_defused
                &&& !final(self).bomb_exploded
                &&& !final(self).bomb_being_defused
                &&& final(self).bomb_plant_timer == old(self).bomb_plant_timer
                &&& final(self).bomb_defuse_length == old(self).bomb_defuse_length
                &&& final(self).bomb_planted_stamp is None
                &&& final(self).bomb_defuse_stamp is None
            },
            old(self).bomb_planted ==> {
                &&& if old(self).bomb_planted_stamp is None && old(self).bomb != 0 {
                    final(self).bomb_planted_stamp is Some
                } else {
                    final(self).bomb_planted_stamp == old(self).bomb_planted_stamp
                }
                &&& if old(self).bomb_being_defused {
                    if old(self).bomb_defuse_stamp is None {
                        final(self).bomb_defuse_stamp is Some
                    } else {
                        final(self).bomb_defuse_stamp == old(self).bomb_defuse_stamp
                    }
                } else {
                    final(self).bomb_defuse_stamp is None
                }
            },
    {
        let now = tokio_now();
        self.update_common_at(ctx, now)
    }
}

} // verus!
