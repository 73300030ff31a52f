use vstd::prelude::*;
use crate::dma::address::{
    addr_add, addr_offset, entry_missing, handle_entry, handle_entry_address, handle_slot,
    handle_slot_address, lemma_wrap_add, list_slot_address, masked_entry, masked_entry_address,
    slot_address, wrap_addr,
};
use crate::dma::bytes::{cs_player_controller_bytes, is_cs_player_controller_name, is_weapon_c4_name, weapon_c4_bytes, zero_terminated};
use crate::dma::process::{
    failed_read, module_base_named, open_os, open_process_named, Opening,
    read_batch, read_i16, read_i32, read_raw, read_u32, read_u64, scan_inventory, MemRead, ProcessHandle,
};
use crate::dma::trace::{batched_at, batched_data, bytes_at, bytes_of, lemma_reads_between_split, lemma_reads_grew_trans, read_at, reads_between, reads_grew, value_of};
use crate::error::RadarError;
use crate::offsets::Offsets;
use crate::structs::connector::{Connector, connector_name};
use crate::structs::vec3::Vec3;
use crate::enums::teamid::{team_of, TeamID};
use vstd::bytes::{spec_u32_from_le_bytes, spec_u64_from_le_bytes, u32_from_le_bytes, u64_from_le_bytes};
use vstd::slice::slice_subrange;

verus! {

/// A connection to the game: its process through memflow, where its client and engine
/// modules were loaded, and the offsets dumped for its build.
pub struct DmaCtx {
    pub process: ProcessHandle,
    /// The base address of `client.dll`.
    pub client_module: u64,
    /// The base address of `engine2.dll`.
    pub engine_module: u64,
    pub offsets: Offsets,
    /// Every read of the game's memory made through this context, in order.
    pub reads: Ghost<Seq<MemRead>>,
    /// How [`DmaCtx::setup`] opened the game; `None` for a process handed in already open.
    pub opening: Ghost<Option<Opening>>,
}

/// How [`DmaCtx::setup`] opens the game for `connector`: the connector's plugin, with the
/// argument `device` set to `pcileech_device` for PCILeech only, memflow's `win32` OS
/// plugin, the process `cs2.exe`, and its modules `client.dll` and `engine2.dll`.
pub open spec fn game_opening(connector: Connector, pcileech_device: Seq<char>) -> Opening {
    Opening {
        connector: connector_name(connector),
        arg: if connector == Connector::Pcileech { Some(("device"@, pcileech_device)) } else { None },
        os: "win32"@,
        process: "cs2.exe"@,
        client_module: "client.dll"@,
        engine_module: "engine2.dll"@,
    }
}

/// The radar's connection to the game, under the name the main loop gives it.
pub type CheatCtx = DmaCtx;

/// The game build that the version check reads, and what it concludes.
pub open spec fn version_reads(ctx: DmaCtx, t: Seq<MemRead>) -> bool {
    &&& t.len() == 1
    &&& read_at(t[0], wrap_addr(ctx.engine_module + ctx.offsets.build_number), 4)
}

/// A read of a pointer stored `offset` bytes from `base`, followed by nothing else: the
/// shape of the radar's simple getters.
pub open spec fn pointer_read(t: Seq<MemRead>, base: u64, offset: u64) -> bool {
    &&& t.len() == 1
    &&& read_at(t[0], wrap_addr(base + offset), 8)
}

/// Reads that follow a pointer stored `offset` bytes from `base` and then the pointer that it
/// points at.
pub open spec fn double_pointer_read(t: Seq<MemRead>, base: u64, offset: u64) -> bool {
    &&& t.len() == 2
    &&& read_at(t[0], wrap_addr(base + offset), 8)
    &&& read_at(t[1], value_of(t[0]) as u64, 8)
}

/// The reads of a [`double_pointer_read`] that stopped at a failed read: none, or the first
/// pointer only.
pub open spec fn double_pointer_read_cut(t: Seq<MemRead>, base: u64, offset: u64) -> bool {
    &&& t.len() < 2
    &&& t.len() == 1 ==> read_at(t[0], wrap_addr(base + offset), 8)
}

/// How a pawn is found from a controller's pawn handle, and what was found: `None` where
/// the entity list has no chunk for the handle.
pub open spec fn pawn_lookup(entity_list: u64, handle: u32, t: Seq<MemRead>, found: Option<u64>) -> bool {
    &&& t.len() >= 1
    &&& read_at(t[0], handle_entry_address(entity_list, handle), 8)
    &&& if entry_missing(value_of(t[0]) as u64) {
        t.len() == 1 && found is None
    } else {
        &&& t.len() == 2
        &&& read_at(t[1], handle_slot_address(value_of(t[0]) as u64, handle), 8)
        &&& found == Some(value_of(t[1]) as u64)
    }
}

/// The reads of [`DmaCtx::pawn_from_controller`] that stopped at a failed read: none, the
/// pawn handle only, or the handle and an entity list chunk that is there.
pub open spec fn controller_pawn_cut(o: Offsets, entity_list: u64, controller: u64, t: Seq<MemRead>) -> bool {
    &&& t.len() < 3
    &&& t.len() >= 1 ==> read_at(t[0], wrap_addr(controller + o.player_controller_player_pawn), 4)
    &&& t.len() >= 2 ==> read_at(t[1], handle_entry_address(entity_list, value_of(t[0]) as u32), 8)
            && !entry_missing(value_of(t[1]) as u64)
}

/// The reads that find an entity's designer name (its class name): the entity's identity at
/// `m_pEntity`, then the name's pointer at `m_designerName`.
pub open spec fn designer_name_reads(o: Offsets, entity: u64, t: Seq<MemRead>) -> bool {
    &&& t.len() >= 2
    &&& read_at(t[0], wrap_addr(entity + o.entity_instance_entity), 8)
    &&& read_at(t[1], wrap_addr(value_of(t[0]) + o.entity_identity_designer_name), 8)
}

/// The reads of a designer name lookup that stopped at a failed read: none, the identity
/// only, or the identity and the name's pointer.
pub open spec fn designer_name_reads_cut(o: Offsets, entity: u64, t: Seq<MemRead>) -> bool {
    &&& t.len() < 3
    &&& t.len() >= 1 ==> read_at(t[0], wrap_addr(entity + o.entity_instance_entity), 8)
    &&& t.len() >= 2 ==> read_at(t[1], wrap_addr(value_of(t[0]) + o.entity_identity_designer_name), 8)
}

/// The designer name pointer that [`designer_name_reads`] found.
pub open spec fn designer_name_ptr(t: Seq<MemRead>) -> u64 {
    value_of(t[1]) as u64
}

/// The reads that one weapon slot of a pawn makes while looking for the bomb, from the
/// slot's handle on: how many reads the slot took and whether its weapon is the bomb
/// (weapon type 7). `None` where `t` does not begin with such reads.
pub open spec fn weapon_slot_reads(o: Offsets, entity_list: u64, weapons: u64, idx: int, t: Seq<MemRead>) -> Option<(int, bool)> {
    if !(t.len() >= 1 && read_at(t[0], wrap_addr(weapons + 4 * idx), 4)) {
        None
    } else if value_of(t[0]) == -1 {
        Some((1, false))
    } else if !(t.len() >= 2 && read_at(t[1], masked_entry_address(entity_list, value_of(t[0]) as i32), 8)) {
        None
    } else if entry_missing(value_of(t[1]) as u64) {
        Some((2, false))
    } else if !(t.len() >= 5
        && read_at(t[2], list_slot_address(value_of(t[1]) as u64, value_of(t[0]) as i32), 8)
        && read_at(t[3], wrap_addr(value_of(t[2]) + o.base_entity_subclass_id + 8), 8)
        && read_at(t[4], wrap_addr(value_of(t[3]) + o.weapon_base_vdata_weapon_type), 4)) {
        None
    } else {
        Some((5, value_of(t[4]) == 7))
    }
}

/// The weapon slots `idx..count` read in turn until the bomb is found: whether it was, or
/// `None` where `t` is not exactly the reads of that search.
pub open spec fn weapon_scan(o: Offsets, entity_list: u64, weapons: u64, idx: int, count: int, t: Seq<MemRead>) -> Option<bool>
    decreases count - idx,
{
    if idx >= count {
        if t.len() == 0 { Some(false) } else { None }
    } else {
        match weapon_slot_reads(o, entity_list, weapons, idx, t) {
            None => None,
            Some((n, found)) => if found {
                if t.len() == n { Some(true) } else { None }
            } else {
                weapon_scan(o, entity_list, weapons, idx + 1, count, t.subrange(n, t.len() as int))
            },
        }
    }
}

/// The reads of one weapon slot that stopped at a failed read: a strict prefix of the slot's
/// reads, cut where the slot still had a read to make (after a handle other than -1, after
/// an entity list chunk that is there, or inside the weapon's own reads).
pub open spec fn weapon_slot_cut(o: Offsets, entity_list: u64, weapons: u64, idx: int, t: Seq<MemRead>) -> bool {
    &&& t.len() < 5
    &&& t.len() >= 1 ==> read_at(t[0], wrap_addr(weapons + 4 * idx), 4) && value_of(t[0]) != -1
    &&& t.len() >= 2 ==> read_at(t[1], masked_entry_address(entity_list, value_of(t[0]) as i32), 8)
            && !entry_missing(value_of(t[1]) as u64)
    &&& t.len() >= 3 ==> read_at(t[2], list_slot_address(value_of(t[1]) as u64, value_of(t[0]) as i32), 8)
    &&& t.len() >= 4 ==> read_at(t[3], wrap_addr(value_of(t[2]) + o.base_entity_subclass_id + 8), 8)
}

/// The reads of a search for the bomb from slot `idx` on that stopped at a failed read: slots
/// that did not hold the bomb, each read in full, then part of a slot below `count`. Nothing
/// after a slot that holds the bomb is read.
pub open spec fn weapon_scan_cut(o: Offsets, entity_list: u64, weapons: u64, idx: int, count: int, t: Seq<MemRead>) -> bool
    decreases count - idx,
{
    if idx >= count {
        false
    } else {
        ||| weapon_slot_cut(o, entity_list, weapons, idx, t)
        ||| match weapon_slot_reads(o, entity_list, weapons, idx, t) {
            Some((n, found)) => !found && weapon_scan_cut(o, entity_list, weapons, idx + 1, count, t.subrange(n, t.len() as int)),
            None => false,
        }
    }
}

/// The reads of a search for the bomb that stopped at a failed read: part of the pawn's
/// weapon services, count and weapon array reads, or all three and then a search through
/// the weapons cut as [`weapon_scan_cut`] says.
pub open spec fn has_c4_reads_cut(o: Offsets, pawn: u64, entity_list: u64, t: Seq<MemRead>) -> bool {
    ||| {
        &&& t.len() < 3
        &&& t.len() >= 1 ==> read_at(t[0], wrap_addr(pawn + o.base_player_pawn_weapon_services), 8)
        &&& t.len() >= 2 ==> read_at(t[1], wrap_addr(value_of(t[0]) + o.weapon_services_my_weapons), 4)
    }
    ||| {
        &&& t.len() >= 3
        &&& read_at(t[0], wrap_addr(pawn + o.base_player_pawn_weapon_services), 8)
        &&& read_at(t[1], wrap_addr(value_of(t[0]) + o.weapon_services_my_weapons), 4)
        &&& read_at(t[2], wrap_addr(value_of(t[0]) + o.weapon_services_my_weapons + 8), 8)
        &&& weapon_scan_cut(o, entity_list, value_of(t[2]) as u64, 0, value_of(t[1]), t.subrange(3, t.len() as int))
    }
}

/// The reads of a search for the bomb among a pawn's weapons, and its outcome: the pawn's
/// weapon services, the count and the array of weapon handles (`m_hMyWeapons`), then the
/// weapons in turn.
pub open spec fn has_c4_reads(o: Offsets, pawn: u64, entity_list: u64, t: Seq<MemRead>, found: bool) -> bool {
    &&& t.len() >= 3
    &&& read_at(t[0], wrap_addr(pawn + o.base_player_pawn_weapon_services), 8)
    &&& read_at(t[1], wrap_addr(value_of(t[0]) + o.weapon_services_my_weapons), 4)
    &&& read_at(t[2], wrap_addr(value_of(t[0]) + o.weapon_services_my_weapons + 8), 8)
    &&& weapon_scan(o, entity_list, value_of(t[2]) as u64, 0, value_of(t[1]), t.subrange(3, t.len() as int)) == Some(found)
}

/// A weapon slot's reads decide the slot whatever follows them.
proof fn lemma_slot_prefix(o: Offsets, entity_list: u64, weapons: u64, idx: int, p: Seq<MemRead>, s: Seq<MemRead>)
    requires
        weapon_slot_reads(o, entity_list, weapons, idx, p) matches Some((n, _)) && n == p.len(),
    ensures
        weapon_slot_reads(o, entity_list, weapons, idx, p + s) == weapon_slot_reads(o, entity_list, weapons, idx, p),
{
}

/// Searching on from a slot that did not hold the bomb is searching from the next slot.
proof fn lemma_scan_step(o: Offsets, entity_list: u64, weapons: u64, idx: int, count: int, p: Seq<MemRead>, s: Seq<MemRead>)
    requires
        idx < count,
        weapon_slot_reads(o, entity_list, weapons, idx, p) == Some((p.len() as int, false)),
    ensures
        weapon_scan(o, entity_list, weapons, idx, count, p + s) == weapon_scan(o, entity_list, weapons, idx + 1, count, s),
{
    lemma_slot_prefix(o, entity_list, weapons, idx, p, s);
    assert((p + s).subrange(p.len() as int, (p + s).len() as int) =~= s);
}

/// A cut search from a slot that did not hold the bomb is a cut search from the next slot.
proof fn lemma_scan_cut_step(o: Offsets, entity_list: u64, weapons: u64, idx: int, count: int, p: Seq<MemRead>, s: Seq<MemRead>)
    requires
        idx < count,
        weapon_slot_reads(o, entity_list, weapons, idx, p) == Some((p.len() as int, false)),
    ensures
        weapon_scan_cut(o, entity_list, weapons, idx, count, p + s) == weapon_scan_cut(o, entity_list, weapons, idx + 1, count, s),
{
    lemma_slot_prefix(o, entity_list, weapons, idx, p, s);
    assert((p + s).subrange(p.len() as int, (p + s).len() as int) =~= s);
    assert((p + s)[0] == p[0]);
    if p.len() >= 2 {
        assert((p + s)[1] == p[1]);
    }
}

/// What one batched read of a player gives: its position, the yaw of its eye angles (an
/// `f32` bit pattern), its team, its health, and whether it holds an AWP or is scoped.
pub struct BatchedPlayerData {
    pub pos: Vec3,
    pub yaw: u32,
    pub team: Option<TeamID>,
    pub health: u32,
    pub has_awp: bool,
    pub is_scoped: bool,
}

/// The little-endian 32-bit word at `bytes[at..at + 4]`.
pub open spec fn le_u32_at(bytes: Seq<u8>, at: int) -> u32 {
    spec_u32_from_le_bytes(bytes.subrange(at, at + 4))
}

/// The batch of [`DmaCtx::batched_player_read`] at the head of `t`: six buffers, for the
/// position, yaw, health, team, clipping weapon and scoped flag.
pub open spec fn batched_player_batch(o: Offsets, controller: u64, pawn: u64, t: Seq<MemRead>) -> bool {
    &&& t.len() >= 6
    &&& batched_at(t[0], wrap_addr(pawn + o.base_player_pawn_old_origin), 12)
    &&& batched_at(t[1], wrap_addr(pawn + o.player_pawn_base_eye_angles + 4), 4)
    &&& batched_at(t[2], wrap_addr(pawn + o.base_entity_health), 4)
    &&& batched_at(t[3], wrap_addr(controller + o.base_entity_team_num), 4)
    &&& batched_at(t[4], wrap_addr(pawn + o.player_pawn_base_clipping_weapon), 8)
    &&& batched_at(t[5], wrap_addr(pawn + o.player_pawn_base_is_scoped), 1)
}

/// The reads of [`DmaCtx::batched_player_read`] and what it makes of them: one batch of six
/// buffers (position, yaw, health, team, clipping weapon, scoped flag), then the item
/// definition index of the clipping weapon; item 9 is the AWP.
pub open spec fn batched_player_reads(o: Offsets, controller: u64, pawn: u64, t: Seq<MemRead>, d: BatchedPlayerData) -> bool {
    &&& t.len() == 7
    &&& batched_player_batch(o, controller, pawn, t)
    &&& d.pos == (Vec3 {
        x: le_u32_at(batched_data(t[0]), 0),
        y: le_u32_at(batched_data(t[0]), 4),
        z: le_u32_at(batched_data(t[0]), 8),
    })
    &&& d.yaw == le_u32_at(batched_data(t[1]), 0)
    &&& d.health == le_u32_at(batched_data(t[2]), 0)
    &&& d.team == team_of(le_u32_at(batched_data(t[3]), 0) as i32 as int)
    &&& d.is_scoped == (batched_data(t[5])[0] != 0)
    &&& read_at(t[6], wrap_addr(spec_u64_from_le_bytes(batched_data(t[4])) + o.econ_entity_attribute_manager
            + o.attribute_container_item + o.econ_item_view_item_definition_index), 2)
    &&& d.has_awp == (value_of(t[6]) == 9)
}

/// The little-endian 32-bit word at `bytes[at..at + 4]`.
fn le_u32(bytes: &Vec<u8>, at: usize) -> (r: u32)
    requires
        at <= 8,
        at + 4 <= bytes@.len(),
    ensures
        r == le_u32_at(bytes@, at as int),
{
    let part = slice_subrange(bytes.as_slice(), at, at + 4);
    u32_from_le_bytes(part)
}

/// The first three reads of a search for the bomb: weapon services, weapon count, weapon array.
pub open spec fn has_c4_reads_header(o: Offsets, pawn: u64, t: Seq<MemRead>, count: i32, weapons: u64) -> bool {
    &&& t.len() == 3
    &&& read_at(t[0], wrap_addr(pawn + o.base_player_pawn_weapon_services), 8)
    &&& read_at(t[1], wrap_addr(value_of(t[0]) + o.weapon_services_my_weapons), 4)
    &&& read_at(t[2], wrap_addr(value_of(t[0]) + o.weapon_services_my_weapons + 8), 8)
    &&& value_of(t[1]) == count as int
    &&& value_of(t[2]) == weapons as int
}

impl DmaCtx {
    /// A connection to a process that is already open, with its modules' bases and the
    /// offsets for its build; nothing has been read through it yet.
    pub fn new(process: ProcessHandle, client_module: u64, engine_module: u64, offsets: Offsets) -> (r: DmaCtx)
        ensures
            r.client_module == client_module,
            r.engine_module == engine_module,
            r.offsets == offsets,
            r.reads@.len() == 0,
            r.opening@ is None,
    {
        DmaCtx { process, client_module, engine_module, offsets, reads: Ghost(Seq::empty()), opening: Ghost(None) }
    }

    /// The two contexts talk to the same modules, opened the same way, with the same offsets.
    pub open spec fn same_game(self, other: DmaCtx) -> bool {
        &&& self.client_module == other.client_module
        &&& self.engine_module == other.engine_module
        &&& self.offsets == other.offsets
        &&& self.opening == other.opening
    }

    /// Compares the game's build number (a `u32` in the engine module) with the build that
    /// the offsets were dumped from.
    pub fn check_version(&mut self) -> (r: Result<(), RadarError>)
        ensures
            final(self).same_game(*old(self)),
            reads_grew(*old(self), *final(self)),
            match r {
                Ok(()) => {
                    let t = reads_between(*old(self), *final(self));
                    version_reads(*old(self), t) && value_of(t[0]) == old(self).offsets.game_build_number
                },
                Err(RadarError::GameVersionMismatch(game, dumped)) => {
                    let t = reads_between(*old(self), *final(self));
                    &&& version_reads(*old(self), t)
                    &&& game == value_of(t[0])
                    &&& dumped == old(self).offsets.game_build_number
                    &&& game != dumped
                },
                Err(e) => failed_read(e) && reads_between(*old(self), *final(self)).len() == 0,
            },
    {
        let addr = addr_add(self.engine_module, self.offsets.build_number);
        let game_build_number = read_u32(self, addr)?;
        let offset_build_number = self.offsets.game_build_number;
        if game_build_number as usize != offset_build_number {
            return Err(RadarError::GameVersionMismatch(game_build_number as usize, offset_build_number));
        }
        Ok(())
    }

    /// Connects to the game through the memflow connector `connector` (PCILeech with the
    /// device `pcileech_device`), opens `cs2.exe` on its win32 layer, finds `client.dll` and
    /// `engine2.dll`, and, unless `skip_version`, checks the game's build against the
    /// offsets'.
    pub fn setup(connector: Connector, pcileech_device: String, offsets: Offsets, skip_version: bool) -> (r: Result<DmaCtx, RadarError>)
        ensures
            match r {
                Ok(ctx) => {
                    &&& ctx.offsets == offsets
                    &&& ctx.opening@ == Some(game_opening(connector, pcileech_device@))
                    &&& if skip_version {
                        ctx.reads@.len() == 0
                    } else {
                        version_reads(ctx, ctx.reads@) && value_of(ctx.reads@[0]) == offsets.game_build_number
                    }
                },
                Err(RadarError::GameVersionMismatch(game, dumped)) => {
                    &&& !skip_version
                    &&& dumped == offsets.game_build_number
                    &&& game != dumped
                },
                Err(e) => failed_read(e),
            },
    {
        let mut inventory = scan_inventory();
        let name = connector.to_string();
        let arg = if connector == Connector::Pcileech { Some(("device", pcileech_device.as_str())) } else { None };
        let (os, Ghost(os_asked)) = open_os(&mut inventory, name.as_str(), arg, "win32");
        let os = match os {
            Ok(os) => os,
            Err(e) => return Err(RadarError::Memflow(e)),
        };
        let (process, Ghost(process_name)) = open_process_named(os, "cs2.exe");
        let mut process = match process {
            Ok(process) => process,
            Err(e) => return Err(RadarError::Memflow(e)),
        };
        let (client, Ghost(client_name)) = module_base_named(&mut process, "client.dll");
        let client_module = match client {
            Ok(base) => base,
            Err(e) => return Err(RadarError::Memflow(e)),
        };
        let (engine, Ghost(engine_name)) = module_base_named(&mut process, "engine2.dll");
        let engine_module = match engine {
            Ok(base) => base,
            Err(e) => return Err(RadarError::Memflow(e)),
        };
        let ghost opening = Opening {
            connector: os_asked.0,
            arg: os_asked.1,
            os: os_asked.2,
            process: process_name,
            client_module: client_name,
            engine_module: engine_name,
        };
        let mut ctx = DmaCtx { process, client_module, engine_module, offsets, reads: Ghost(Seq::empty()), opening: Ghost(Some(opening)) };
        if !skip_version {
            ctx.check_version()?;
        }
        Ok(ctx)
    }

    /// The planted bomb: `client.dll` keeps a pointer to a pointer to it at `dwPlantedC4`.
    pub fn get_plantedc4(&mut self) -> (r: Result<u64, RadarError>)
        ensures
            final(self).same_game(*old(self)),
            reads_grew(*old(self), *final(self)),
            match r {
                Ok(bomb) => {
                    let t = reads_between(*old(self), *final(self));
                    double_pointer_read(t, old(self).client_module, old(self).offsets.planted_c4)
                        && bomb == value_of(t[1])
                },
                Err(e) => failed_read(e) && double_pointer_read_cut(reads_between(*old(self), *final(self)),
                    old(self).client_module, old(self).offsets.planted_c4),
            },
    {
        let addr = addr_add(self.client_module, self.offsets.planted_c4);
        let ptr = read_u64(self, addr)?;
        let ptr2 = read_u64(self, ptr)?;
        Ok(ptr2)
    }

    /// The pawn of a player controller: the controller's pawn handle (a `u32` at
    /// `m_hPlayerPawn`) looked up in the entity list.
    pub fn pawn_from_controller(&mut self, controller: u64, entity_list: u64) -> (r: Result<Option<u64>, RadarError>)
        ensures
            final(self).same_game(*old(self)),
            reads_grew(*old(self), *final(self)),
            match r {
                Ok(pawn) => {
                    let t = reads_between(*old(self), *final(self));
                    &&& t.len() >= 1
                    &&& read_at(t[0], wrap_addr(controller + old(self).offsets.player_controller_player_pawn), 4)
                    &&& pawn_lookup(entity_list, value_of(t[0]) as u32, t.subrange(1, t.len() as int), pawn)
                },
                Err(e) => failed_read(e) && controller_pawn_cut(old(self).offsets, entity_list, controller, reads_between(*old(self), *final(self))),
            },
    {
        let addr = addr_add(controller, self.offsets.player_controller_player_pawn);
        let uhandle = read_u32(self, addr)?;
        let entry_addr = handle_entry(entity_list, uhandle);
        let list_entry = read_u64(self, entry_addr)?;
        if list_entry == 0 || list_entry == 0xffff_ffff_ffff_ffff {
            Ok(None)
        } else {
            let slot = handle_slot(list_entry, uhandle);
            let ptr = read_u64(self, slot)?;
            Ok(Some(ptr))
        }
    }

    /// Whether the entity's class name (its designer name) is `weapon_c4`: the first ten
    /// bytes of the name are `weapon_c4` and its terminating zero.
    pub fn is_dropped_c4(&mut self, entity_ptr: u64) -> (r: Result<bool, RadarError>)
        ensures
            final(self).same_game(*old(self)),
            reads_grew(*old(self), *final(self)),
            match r {
                Ok(is_c4) => {
                    let t = reads_between(*old(self), *final(self));
                    &&& designer_name_reads(old(self).offsets, entity_ptr, t)
                    &&& t.len() == 3
                    &&& bytes_at(t[2], designer_name_ptr(t))
                    &&& is_c4 == (bytes_of(t[2]) == zero_terminated(weapon_c4_bytes()))
                },
                Err(e) => failed_read(e) && designer_name_reads_cut(old(self).offsets, entity_ptr, reads_between(*old(self), *final(self))),
            },
    {
        let identity_addr = addr_add(entity_ptr, self.offsets.entity_instance_entity);
        let entity_identity_ptr = read_u64(self, identity_addr)?;
        let name_addr = addr_add(entity_identity_ptr, self.offsets.entity_identity_designer_name);
        let class_name_ptr = read_u64(self, name_addr)?;
        let data = read_raw(self, class_name_ptr, 10)?;
        Ok(is_weapon_c4_name(data.as_slice()))
    }

    /// Whether the entity's class name (its designer name) is `cs_player_controller`: the
    /// first 21 bytes of the name are `cs_player_controller` and its terminating zero.
    pub fn is_cs_player_controller(&mut self, entity_ptr: u64) -> (r: Result<bool, RadarError>)
        ensures
            final(self).same_game(*old(self)),
            reads_grew(*old(self), *final(self)),
            match r {
                Ok(is_controller) => {
                    let t = reads_between(*old(self), *final(self));
                    &&& designer_name_reads(old(self).offsets, entity_ptr, t)
                    &&& t.len() == 3
                    &&& bytes_at(t[2], designer_name_ptr(t))
                    &&& is_controller == (bytes_of(t[2]) == zero_terminated(cs_player_controller_bytes()))
                },
                Err(e) => failed_read(e) && designer_name_reads_cut(old(self).offsets, entity_ptr, reads_between(*old(self), *final(self))),
            },
    {
        let identity_addr = addr_add(entity_ptr, self.offsets.entity_instance_entity);
        let entity_identity_ptr = read_u64(self, identity_addr)?;
        let name_addr = addr_add(entity_identity_ptr, self.offsets.entity_identity_designer_name);
        let class_name_ptr = read_u64(self, name_addr)?;
        let data = read_raw(self, class_name_ptr, 21)?;
        Ok(is_cs_player_controller_name(data.as_slice()))
    }

    /// Reads a player's position, yaw, health, team, clipping weapon and scoped flag in one
    /// batch, then whether the clipping weapon is an AWP. A read of the batch that fails is no
    /// error (its buffer holds zeros); an error comes only from the item definition read that
    /// follows the batch.
    pub fn batched_player_read(&mut self, controller: u64, pawn: u64) -> (r: Result<BatchedPlayerData, RadarError>)
        ensures
            final(self).same_game(*old(self)),
            reads_grew(*old(self), *final(self)),
            match r {
                Ok(d) => batched_player_reads(old(self).offsets, controller, pawn, reads_between(*old(self), *final(self)), d),
                Err(e) => {
                    let t = reads_between(*old(self), *final(self));
                    &&& failed_read(e)
                    &&& t.len() == 6
                    &&& batched_player_batch(old(self).offsets, controller, pawn, t)
                },
            },
    {
        let o = self.offsets;
        let mut addrs: Vec<u64> = Vec::new();
        addrs.push(addr_add(pawn, o.base_player_pawn_old_origin));
        addrs.push(addr_add(addr_add(pawn, o.player_pawn_base_eye_angles), 4));
        proof { lemma_wrap_add(pawn + o.player_pawn_base_eye_angles, 4); }
        addrs.push(addr_add(pawn, o.base_entity_health));
        addrs.push(addr_add(controller, o.base_entity_team_num));
        addrs.push(addr_add(pawn, o.player_pawn_base_clipping_weapon));
        addrs.push(addr_add(pawn, o.player_pawn_base_is_scoped));
        let mut bufs: Vec<Vec<u8>> = Vec::new();
        bufs.push(vec![0u8; 12]);
        bufs.push(vec![0u8; 4]);
        bufs.push(vec![0u8; 4]);
        bufs.push(vec![0u8; 4]);
        bufs.push(vec![0u8; 8]);
        bufs.push(vec![0u8; 1]);
        read_batch(self, &addrs, &mut bufs);
        let pos = Vec3 { x: le_u32(&bufs[0], 0), y: le_u32(&bufs[0], 4), z: le_u32(&bufs[0], 8) };
        let yaw = le_u32(&bufs[1], 0);
        let health = le_u32(&bufs[2], 0);
        let team = TeamID::from_i32(le_u32(&bufs[3], 0) as i32);
        let clipping_weapon = u64_from_le_bytes(bufs[4].as_slice());
        let is_scoped = bufs[5][0] != 0;
        let a1 = addr_add(clipping_weapon, o.econ_entity_attribute_manager);
        let a2 = addr_add(a1, o.attribute_container_item);
        let items_def_idx_addr = addr_add(a2, o.econ_item_view_item_definition_index);
        proof {
            lemma_wrap_add(clipping_weapon + o.econ_entity_attribute_manager, o.attribute_container_item as int);
            lemma_wrap_add(clipping_weapon + o.econ_entity_attribute_manager + o.attribute_container_item, o.econ_item_view_item_definition_index as int);
        }
        let items_def_idx = read_i16(self, items_def_idx_addr)?;
        let has_awp = items_def_idx == 9;
        Ok(BatchedPlayerData { pos, yaw, team, health, has_awp, is_scoped })
    }

    /// One weapon slot of [`DmaCtx::has_c4`]: whether the weapon behind handle number `idx` of
    /// the array at `weapons` is the bomb.
    fn weapon_slot_is_c4(&mut self, entity_list: u64, weapons: u64, idx: i32) -> (r: Result<bool, RadarError>)
        requires
            idx >= 0,
        ensures
            final(self).same_game(*old(self)),
            reads_grew(*old(self), *final(self)),
            match r {
                Ok(found) => weapon_slot_reads(old(self).offsets, entity_list, weapons, idx as int, reads_between(*old(self), *final(self)))
                    == Some((reads_between(*old(self), *final(self)).len() as int, found)),
                Err(e) => failed_read(e) && weapon_slot_cut(old(self).offsets, entity_list, weapons, idx as int, reads_between(*old(self), *final(self))),
            },
    {
        let o = self.offsets;
        let handle = read_i32(self, addr_offset(weapons, 4 * (idx as i64)))?;
        if handle == -1 {
            return Ok(false);
        }
        let list_entry = read_u64(self, masked_entry(entity_list, handle))?;
        if list_entry == 0 || list_entry == 0xffff_ffff_ffff_ffff {
            return Ok(false);
        }
        let wep_ptr = read_u64(self, slot_address(list_entry, handle))?;
        let data_addr = addr_add(addr_add(wep_ptr, o.base_entity_subclass_id), 8);
        proof { lemma_wrap_add(wep_ptr + o.base_entity_subclass_id, 8); }
        let wep_data = read_u64(self, data_addr)?;
        let id = read_i32(self, addr_add(wep_data, o.weapon_base_vdata_weapon_type))?;
        Ok(id == 7)
    }

    /// Whether the pawn carries the bomb: goes through the handles of its weapons, skipping
    /// empty ones (-1) and those the entity list has no chunk for, until a weapon whose data
    /// has weapon type 7.
    pub fn has_c4(&mut self, pawn: u64, entity_list: u64) -> (r: Result<bool, RadarError>)
        ensures
            final(self).same_game(*old(self)),
            reads_grew(*old(self), *final(self)),
            match r {
                Ok(found) => has_c4_reads(old(self).offsets, pawn, entity_list, reads_between(*old(self), *final(self)), found),
                Err(e) => failed_read(e) && has_c4_reads_cut(old(self).offsets, pawn, entity_list, reads_between(*old(self), *final(self))),
            },
    {
        let ghost start = *self;
        let o = self.offsets;
        let wep_services = read_u64(self, addr_add(pawn, o.base_player_pawn_weapon_services))?;
        let vector_addr = addr_add(wep_services, o.weapon_services_my_weapons);
        let wep_count = read_i32(self, vector_addr)?;
        let wep_base = read_u64(self, addr_add(vector_addr, 8))?;
        proof { lemma_wrap_add(wep_services + o.weapon_services_my_weapons, 8); }
        let ghost header = *self;
        let mut has_c4 = false;
        let mut wep_idx: i32 = 0;
        while wep_idx < wep_count
            invariant_except_break
                0 <= wep_idx <= wep_count || (wep_count < 0 && wep_idx == 0),
                !has_c4,
                forall|s: Seq<MemRead>| #[trigger] weapon_scan_cut(o, entity_list, wep_base, 0, wep_count as int, reads_between(header, *self) + s)
                    == weapon_scan_cut(o, entity_list, wep_base, wep_idx as int, wep_count as int, s),
            invariant
                start == *old(self),
                self.same_game(start),
                reads_grew(start, *self),
                self.offsets == o,
                reads_grew(start, header),
                reads_grew(header, *self),
                has_c4_reads_header(o, pawn, reads_between(start, header), wep_count, wep_base),
                forall|s: Seq<MemRead>| #[trigger] weapon_scan(o, entity_list, wep_base, 0, wep_count as int, reads_between(header, *self) + s)
                    == if has_c4 { if s.len() == 0 { Some(true) } else { None } } else { weapon_scan(o, entity_list, wep_base, wep_idx as int, wep_count as int, s) },
            ensures
                has_c4 || wep_idx >= wep_count,
            decreases wep_count - wep_idx,
        {
            let ghost before = *self;
            let found = match self.weapon_slot_is_c4(entity_list, wep_base, wep_idx) {
                Ok(found) => found,
                Err(e) => {
                    proof {
                        lemma_reads_grew_trans(header, before, *self);
                        lemma_reads_grew_trans(start, header, *self);
                        let p = reads_between(before, *self);
                        let empty = Seq::<MemRead>::empty();
                        assert(p + empty =~= p);
                        lemma_reads_between_split(header, before, *self, empty);
                        assert(reads_between(header, *self) + empty =~= reads_between(header, *self));
                        assert(weapon_scan_cut(o, entity_list, wep_base, wep_idx as int, wep_count as int, p));
                        assert(weapon_scan_cut(o, entity_list, wep_base, 0, wep_count as int, reads_between(header, before) + p));
                        assert(reads_between(start, *self).subrange(3, reads_between(start, *self).len() as int) =~= reads_between(header, *self));
                    }
                    return Err(e);
                },
            };
            proof {
                lemma_reads_grew_trans(header, before, *self);
                lemma_reads_grew_trans(start, before, *self);
                let p = reads_between(before, *self);
                if found {
                    assert forall|s: Seq<MemRead>| #[trigger] weapon_scan(o, entity_list, wep_base, 0, wep_count as int, reads_between(header, *self) + s)
                        == (if s.len() == 0 { Some(true) } else { None }) by {
                        lemma_reads_between_split(header, before, *self, s);
                        assert(weapon_scan(o, entity_list, wep_base, 0, wep_count as int, reads_between(header, before) + (p + s))
                            == weapon_scan(o, entity_list, wep_base, wep_idx as int, wep_count as int, p + s));
                        lemma_slot_prefix(o, entity_list, wep_base, wep_idx as int, p, s);
                        assert((p + s).subrange(p.len() as int, (p + s).len() as int) =~= s);
                    }
                } else {
                    assert forall|s: Seq<MemRead>| #[trigger] weapon_scan(o, entity_list, wep_base, 0, wep_count as int, reads_between(header, *self) + s)
                        == weapon_scan(o, entity_list, wep_base, wep_idx + 1, wep_count as int, s) by {
                        lemma_reads_between_split(header, before, *self, s);
                        assert(weapon_scan(o, entity_list, wep_base, 0, wep_count as int, reads_between(header, before) + (p + s))
                            == weapon_scan(o, entity_list, wep_base, wep_idx as int, wep_count as int, p + s));
                        lemma_scan_step(o, entity_list, wep_base, wep_idx as int, wep_count as int, p, s);
                    }
                    assert forall|s: Seq<MemRead>| #[trigger] weapon_scan_cut(o, entity_list, wep_base, 0, wep_count as int, reads_between(header, *self) + s)
                        == weapon_scan_cut(o, entity_list, wep_base, wep_idx + 1, wep_count as int, s) by {
                        lemma_reads_between_split(header, before, *self, s);
                        assert(weapon_scan_cut(o, entity_list, wep_base, 0, wep_count as int, reads_between(header, before) + (p + s))
                            == weapon_scan_cut(o, entity_list, wep_base, wep_idx as int, wep_count as int, p + s));
                        lemma_scan_cut_step(o, entity_list, wep_base, wep_idx as int, wep_count as int, p, s);
                    }
                }
            }
            if found {
                has_c4 = true;
                break;
            }
            wep_idx += 1;
        }
        proof {
            let empty = Seq::<MemRead>::empty();
            assert(reads_between(header, *self) + empty =~= reads_between(header, *self));
            assert(weapon_scan(o, entity_list, wep_base, 0, wep_count as int, reads_between(header, *self) + empty) == Some(has_c4));
            lemma_reads_grew_trans(start, header, *self);
            assert(reads_between(start, *self).subrange(3, reads_between(start, *self).len() as int) =~= reads_between(header, *self));
        }
        Ok(has_c4)
    }
}

} // verus!
