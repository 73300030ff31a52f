use vstd::prelude::*;
use crate::csflow::context::CheatCtx;
use crate::csflow::traits::{BaseEntity, MemoryClass};
use crate::dma::address::{addr_add, wrap_addr};
use crate::dma::bytes::{cs_player_controller_bytes, weapon_c4_bytes, zero_terminated};
use crate::dma::context::{designer_name_ptr, designer_name_reads, designer_name_reads_cut, has_c4_reads, has_c4_reads_cut, pawn_lookup};
use crate::dma::entity::{alive_reads, health_reads, class_name_reads, index_lookup, player_type_reads, scene_origin_reads, vec3_read};
use crate::dma::process::{failed_read, read_i32, read_text, read_u64, MemRead};
use crate::dma::trace::{bytes_at, bytes_of, read_at, reads_between, reads_grew, text_at, value_of};
use crate::enums::player_type::PlayerType;
use crate::enums::teamid::{team_of, TeamID};
use crate::error::RadarError;
use crate::offsets::Offsets;
use crate::structs::vec3::Vec3;

verus! {

/// An entity (`C_BaseEntity`), by its address.
#[derive(Clone, Copy)]
pub struct CBaseEntity(pub u64);

/// A player controller (`CCSPlayerController`), by its address.
#[derive(Clone, Copy)]
pub struct CPlayerController(pub u64);

/// A player pawn (`C_CSPlayerPawn`), by its address.
#[derive(Clone, Copy)]
pub struct CPlayerPawn(pub u64);

/// Reads that step from an entity to the next or previous entity of its class: the entity's
/// identity, the identity's link at `link`, then the entity that the link points at.
pub open spec fn class_link_reads(o: Offsets, entity: u64, link: u64, t: Seq<MemRead>, next: u64) -> bool {
    &&& t.len() == 3
    &&& read_at(t[0], wrap_addr(entity + o.entity_instance_entity), 8)
    &&& read_at(t[1], wrap_addr(value_of(t[0]) + link), 8)
    &&& read_at(t[2], value_of(t[1]) as u64, 8)
    &&& next == value_of(t[2])
}

impl MemoryClass for CBaseEntity {
    open spec fn addr(&self) -> u64 {
        self.0
    }

    fn ptr(&self) -> (r: u64) {
        self.0
    }

    fn new(ptr: u64) -> (r: Self) {
        CBaseEntity(ptr)
    }
}

impl MemoryClass for CPlayerController {
    open spec fn addr(&self) -> u64 {
        self.0
    }

    fn ptr(&self) -> (r: u64) {
        self.0
    }

    fn new(ptr: u64) -> (r: Self) {
        CPlayerController(ptr)
    }
}

impl MemoryClass for CPlayerPawn {
    open spec fn addr(&self) -> u64 {
        self.0
    }

    fn ptr(&self) -> (r: u64) {
        self.0
    }

    fn new(ptr: u64) -> (r: Self) {
        CPlayerPawn(ptr)
    }
}

/// The address in an optional entity.
pub open spec fn entity_addr(e: Option<CBaseEntity>) -> Option<u64> {
    match e {
        Some(e) => Some(e.0),
        None => None,
    }
}

/// The address in an optional controller.
pub open spec fn controller_addr(e: Option<CPlayerController>) -> Option<u64> {
    match e {
        Some(e) => Some(e.0),
        None => None,
    }
}

/// The address in an optional pawn.
pub open spec fn pawn_addr(e: Option<CPlayerPawn>) -> Option<u64> {
    match e {
        Some(e) => Some(e.0),
        None => None,
    }
}

impl BaseEntity for CBaseEntity {
    /// The entity at `index` of the entity list; as with every lookup by index, one that
    /// reads both pointers finds an entity.
    fn from_index(ctx: &mut CheatCtx, entity_list: u64, index: i32) -> (r: Result<Option<CBaseEntity>, RadarError>)
        ensures
            final(ctx).0.same_game(old(ctx).0),
            reads_grew(old(ctx).0, final(ctx).0),
            match r {
                Ok(found) => index_lookup(entity_list, index, reads_between(old(ctx).0, final(ctx).0), entity_addr(found)),
                Err(e) => failed_read(e),
            },
    {
        match ctx.0.entity_at_index(entity_list, index)? {
            Some(ptr) => Ok(Some(CBaseEntity(ptr))),
            None => Ok(None),
        }
    }

    /// The entity's position, read through its scene node.
    fn pos(&self, ctx: &mut CheatCtx) -> (r: Result<Vec3, RadarError>)
        ensures
            final(ctx).0.same_game(old(ctx).0),
            reads_grew(old(ctx).0, final(ctx).0),
            match r {
                Ok(pos) => scene_origin_reads(old(ctx).0.offsets, self.0, reads_between(old(ctx).0, final(ctx).0), pos),
                Err(e) => failed_read(e),
            },
    {
        ctx.0.scene_origin(self.0)
    }

    /// The entity's class name: its designer name, up to 32 bytes.
    fn class_name(&self, ctx: &mut CheatCtx) -> (r: Result<String, RadarError>)
        ensures
            final(ctx).0.same_game(old(ctx).0),
            reads_grew(old(ctx).0, final(ctx).0),
            match r {
                Ok(name) => class_name_reads(old(ctx).0.offsets, self.0, reads_between(old(ctx).0, final(ctx).0), name@),
                Err(e) => failed_read(e),
            },
    {
        ctx.0.entity_class_name(self.0)
    }
}

impl CBaseEntity {
    /// The next entity of this entity's class (`m_pNextByClass`).
    pub fn next_by_class(&self, ctx: &mut CheatCtx) -> (r: Result<CBaseEntity, RadarError>)
        ensures
            final(ctx).0.same_game(old(ctx).0),
            reads_grew(old(ctx).0, final(ctx).0),
            match r {
                Ok(next) => class_link_reads(old(ctx).0.offsets, self.0, old(ctx).0.offsets.entity_identity_next_by_class,
                    reads_between(old(ctx).0, final(ctx).0), next.0),
                Err(e) => failed_read(e),
            },
    {
        let off = ctx.0.offsets.entity_instance_entity;
        let link = ctx.0.offsets.entity_identity_next_by_class;
        let ptr = ctx.0.pointer_chain3(self.0, off, link)?;
        Ok(CBaseEntity(ptr))
    }

    /// The previous entity of this entity's class (`m_pPrevByClass`).
    pub fn previous_by_class(&self, ctx: &mut CheatCtx) -> (r: Result<CBaseEntity, RadarError>)
        ensures
            final(ctx).0.same_game(old(ctx).0),
            reads_grew(old(ctx).0, final(ctx).0),
            match r {
                Ok(prev) => class_link_reads(old(ctx).0.offsets, self.0, old(ctx).0.offsets.entity_identity_prev_by_class,
                    reads_between(old(ctx).0, final(ctx).0), prev.0),
                Err(e) => failed_read(e),
            },
    {
        let off = ctx.0.offsets.entity_instance_entity;
        let link = ctx.0.offsets.entity_identity_prev_by_class;
        let ptr = ctx.0.pointer_chain3(self.0, off, link)?;
        Ok(CBaseEntity(ptr))
    }

    /// The same entity, as a player controller.
    pub fn to_player_controller(&self) -> (r: CPlayerController)
        ensures
            r.0 == self.0,
    {
        CPlayerController(self.0)
    }

    /// Whether the entity's class name (its designer name) is `weapon_c4`.
    pub fn is_dropped_c4(&self, ctx: &mut CheatCtx) -> (r: Result<bool, RadarError>)
        ensures
            final(ctx).0.same_game(old(ctx).0),
            reads_grew(old(ctx).0, final(ctx).0),
            match r {
                Ok(is_c4) => {
                    let t = reads_between(old(ctx).0, final(ctx).0);
                    &&& designer_name_reads(old(ctx).0.offsets, self.0, t)
                    &&& t.len() == 3
                    &&& bytes_at(t[2], designer_name_ptr(t))
                    &&& is_c4 == (bytes_of(t[2]) == zero_terminated(weapon_c4_bytes()))
                },
                Err(e) => failed_read(e),
            },
    {
        ctx.0.is_dropped_c4(self.0)
    }

    /// Whether the entity's class name (its designer name) is `cs_player_controller`.
    pub fn is_cs_player_controller(&self, ctx: &mut CheatCtx) -> (r: Result<bool, RadarError>)
        ensures
            final(ctx).0.same_game(old(ctx).0),
            reads_grew(old(ctx).0, final(ctx).0),
            match r {
                Ok(is_controller) => {
                    let t = reads_between(old(ctx).0, final(ctx).0);
                    &&& designer_name_reads(old(ctx).0.offsets, self.0, t)
                    &&& t.len() == 3
                    &&& bytes_at(t[2], designer_name_ptr(t))
                    &&& is_controller == (bytes_of(t[2]) == zero_terminated(cs_player_controller_bytes()))
                },
                Err(e) => failed_read(e),
            },
    {
        ctx.0.is_cs_player_controller(self.0)
    }
}

impl BaseEntity for CPlayerController {
    /// The controller at `index` of the entity list.
    fn from_index(ctx: &mut CheatCtx, entity_list: u64, index: i32) -> (r: Result<Option<CPlayerController>, RadarError>)
        ensures
            final(ctx).0.same_game(old(ctx).0),
            reads_grew(old(ctx).0, final(ctx).0),
            match r {
                Ok(found) => index_lookup(entity_list, index, reads_between(old(ctx).0, final(ctx).0), controller_addr(found)),
                Err(e) => failed_read(e),
            },
    {
        match ctx.0.entity_at_index(entity_list, index)? {
            Some(ptr) => Ok(Some(CPlayerController(ptr))),
            None => Ok(None),
        }
    }

    /// The controller's position, read through its scene node (slower than the pawn's).
    fn pos(&self, ctx: &mut CheatCtx) -> (r: Result<Vec3, RadarError>)
        ensures
            final(ctx).0.same_game(old(ctx).0),
            reads_grew(old(ctx).0, final(ctx).0),
            match r {
                Ok(pos) => scene_origin_reads(old(ctx).0.offsets, self.0, reads_between(old(ctx).0, final(ctx).0), pos),
                Err(e) => failed_read(e),
            },
    {
        ctx.0.scene_origin(self.0)
    }

    /// The controller's class name: its designer name, up to 32 bytes.
    fn class_name(&self, ctx: &mut CheatCtx) -> (r: Result<String, RadarError>)
        ensures
            final(ctx).0.same_game(old(ctx).0),
            reads_grew(old(ctx).0, final(ctx).0),
            match r {
                Ok(name) => class_name_reads(old(ctx).0.offsets, self.0, reads_between(old(ctx).0, final(ctx).0), name@),
                Err(e) => failed_read(e),
            },
    {
        ctx.0.entity_class_name(self.0)
    }
}

impl CPlayerController {
    /// The next controller of the class. Besides the link it reads the identity's designer
    /// name and name stringable index, which it does not use.
    pub fn next_by_class(&self, ctx: &mut CheatCtx) -> (r: Result<CPlayerController, RadarError>)
        ensures
            final(ctx).0.same_game(old(ctx).0),
            reads_grew(old(ctx).0, final(ctx).0),
            match r {
                Ok(next) => {
                    let t = reads_between(old(ctx).0, final(ctx).0);
                    let o = old(ctx).0.offsets;
                    &&& t.len() == 6
                    &&& read_at(t[0], wrap_addr(self.0 + o.entity_instance_entity), 8)
                    &&& read_at(t[1], wrap_addr(value_of(t[0]) + o.entity_identity_next_by_class), 8)
                    &&& read_at(t[2], wrap_addr(value_of(t[0]) + o.entity_identity_designer_name), 8)
                    &&& text_at(t[3], value_of(t[2]) as u64, 32)
                    &&& read_at(t[4], wrap_addr(value_of(t[0]) + o.entity_identity_name_stringable_index), 4)
                    &&& read_at(t[5], value_of(t[1]) as u64, 8)
                    &&& next.0 == value_of(t[5])
                },
                Err(e) => failed_read(e),
            },
    {
        let o = ctx.0.offsets;
        let entity_identity_ptr = read_u64(&mut ctx.0, addr_add(self.0, o.entity_instance_entity))?;
        let next_by_class_ptr = read_u64(&mut ctx.0, addr_add(entity_identity_ptr, o.entity_identity_next_by_class))?;
        let class_name_ptr = read_u64(&mut ctx.0, addr_add(entity_identity_ptr, o.entity_identity_designer_name))?;
        let _class_name = read_text(&mut ctx.0, class_name_ptr, 32)?;
        let _stringable_index = read_i32(&mut ctx.0, addr_add(entity_identity_ptr, o.entity_identity_name_stringable_index))?;
        let entity_ptr = read_u64(&mut ctx.0, next_by_class_ptr)?;
        Ok(CPlayerController(entity_ptr))
    }

    /// The previous controller of the class (`m_pPrevByClass`).
    pub fn previous_by_class(&self, ctx: &mut CheatCtx) -> (r: Result<CPlayerController, RadarError>)
        ensures
            final(ctx).0.same_game(old(ctx).0),
            reads_grew(old(ctx).0, final(ctx).0),
            match r {
                Ok(prev) => class_link_reads(old(ctx).0.offsets, self.0, old(ctx).0.offsets.entity_identity_prev_by_class,
                    reads_between(old(ctx).0, final(ctx).0), prev.0),
                Err(e) => failed_read(e),
            },
    {
        let off = ctx.0.offsets.entity_instance_entity;
        let link = ctx.0.offsets.entity_identity_prev_by_class;
        let ptr = ctx.0.pointer_chain3(self.0, off, link)?;
        Ok(CPlayerController(ptr))
    }

    /// The controller's pawn: its pawn handle (`m_hPlayerPawn`) looked up in the entity list.
    pub fn get_pawn(&self, ctx: &mut CheatCtx, entity_list: u64) -> (r: Result<Option<CPlayerPawn>, RadarError>)
        ensures
            final(ctx).0.same_game(old(ctx).0),
            reads_grew(old(ctx).0, final(ctx).0),
            match r {
                Ok(pawn) => {
                    let t = reads_between(old(ctx).0, final(ctx).0);
                    &&& t.len() >= 1
                    &&& read_at(t[0], wrap_addr(self.0 + old(ctx).0.offsets.player_controller_player_pawn), 4)
                    &&& pawn_lookup(entity_list, value_of(t[0]) as u32, t.subrange(1, t.len() as int), pawn_addr(pawn))
                },
                Err(e) => failed_read(e),
            },
    {
        match ctx.0.pawn_from_controller(self.0, entity_list)? {
            Some(p) => Ok(Some(CPlayerPawn(p))),
            None => Ok(None),
        }
    }

    /// The controller's team, `None` where its team number is no team.
    pub fn get_team(&self, ctx: &mut CheatCtx) -> (r: Result<Option<TeamID>, RadarError>)
        ensures
            final(ctx).0.same_game(old(ctx).0),
            reads_grew(old(ctx).0, final(ctx).0),
            match r {
                Ok(team) => {
                    let t = reads_between(old(ctx).0, final(ctx).0);
                    t.len() == 1 && read_at(t[0], wrap_addr(self.0 + old(ctx).0.offsets.base_entity_team_num), 4)
                        && team == team_of(value_of(t[0]))
                },
                Err(e) => failed_read(e),
            },
    {
        ctx.0.controller_team(self.0)
    }

    /// How this player stands to the local player (see
    /// [`crate::sdk::structs::PlayerController::get_player_type`]).
    pub fn get_player_type(&self, ctx: &mut CheatCtx, local: &CPlayerController) -> (r: Result<Option<PlayerType>, RadarError>)
        ensures
            final(ctx).0.same_game(old(ctx).0),
            reads_grew(old(ctx).0, final(ctx).0),
            match r {
                Ok(player_type) => player_type_reads(old(ctx).0.offsets, self.0, local.0, reads_between(old(ctx).0, final(ctx).0), player_type),
                Err(e) => failed_read(e),
            },
            self.0 == local.0 ==> r is Ok && r->Ok_0 == Some(PlayerType::Local) && final(ctx).0.reads@ == old(ctx).0.reads@,
    {
        ctx.0.player_type_of(self.0, local.0)
    }
}

impl CPlayerPawn {
    /// The pawn that an entity handle stands for, `None` where the entity list has no chunk
    /// for it.
    pub fn from_uhandle(ctx: &mut CheatCtx, entity_list: u64, uhandle: u32) -> (r: Result<Option<CPlayerPawn>, RadarError>)
        ensures
            final(ctx).0.same_game(old(ctx).0),
            reads_grew(old(ctx).0, final(ctx).0),
            match r {
                Ok(pawn) => pawn_lookup(entity_list, uhandle, reads_between(old(ctx).0, final(ctx).0), pawn_addr(pawn)),
                Err(e) => failed_read(e),
            },
    {
        match ctx.0.entity_from_handle(entity_list, uhandle)? {
            Some(p) => Ok(Some(CPlayerPawn(p))),
            None => Ok(None),
        }
    }

    /// Whether the pawn carries the bomb.
    pub fn has_c4(&self, ctx: &mut CheatCtx, entity_list: u64) -> (r: Result<bool, RadarError>)
        ensures
            final(ctx).0.same_game(old(ctx).0),
            reads_grew(old(ctx).0, final(ctx).0),
            match r {
                Ok(found) => has_c4_reads(old(ctx).0.offsets, self.0, entity_list, reads_between(old(ctx).0, final(ctx).0), found),
                Err(e) => failed_read(e) && has_c4_reads_cut(old(ctx).0.offsets, self.0, entity_list, reads_between(old(ctx).0, final(ctx).0)),
            },
    {
        ctx.0.has_c4(self.0, entity_list)
    }

    /// The pawn's position (`m_vOldOrigin`).
    pub fn pos(&self, ctx: &mut CheatCtx) -> (r: Result<Vec3, RadarError>)
        ensures
            final(ctx).0.same_game(old(ctx).0),
            reads_grew(old(ctx).0, final(ctx).0),
            match r {
                Ok(pos) => {
                    let t = reads_between(old(ctx).0, final(ctx).0);
                    t.len() == 1 && vec3_read(t[0], wrap_addr(self.0 + old(ctx).0.offsets.base_player_pawn_old_origin), pos)
                },
                Err(e) => failed_read(e),
            },
    {
        let off = ctx.0.offsets.base_player_pawn_old_origin;
        ctx.0.vec3_at(self.0, off)
    }

    /// The pawn's eye angles (`m_angEyeAngles`).
    pub fn angles(&self, ctx: &mut CheatCtx) -> (r: Result<Vec3, RadarError>)
        ensures
            final(ctx).0.same_game(old(ctx).0),
            reads_grew(old(ctx).0, final(ctx).0),
            match r {
                Ok(angles) => {
                    let t = reads_between(old(ctx).0, final(ctx).0);
                    t.len() == 1 && vec3_read(t[0], wrap_addr(self.0 + old(ctx).0.offsets.player_pawn_base_eye_angles), angles)
                },
                Err(e) => failed_read(e),
            },
    {
        let off = ctx.0.offsets.player_pawn_base_eye_angles;
        ctx.0.vec3_at(self.0, off)
    }

    /// The pawn's health (`m_iHealth`, read as a `u32`).
    pub fn health(&self, ctx: &mut CheatCtx) -> (r: Result<u32, RadarError>)
        ensures
            final(ctx).0.same_game(old(ctx).0),
            reads_grew(old(ctx).0, final(ctx).0),
            match r {
                Ok(health) => {
                    let t = reads_between(old(ctx).0, final(ctx).0);
                    health_reads(old(ctx).0.offsets, self.0, t, health as int)
                },
                Err(e) => failed_read(e),
            },
    {
        let off = ctx.0.offsets.base_entity_health;
        ctx.0.u32_at(self.0, off)
    }

    /// Whether the pawn is alive: its health is above zero.
    pub fn is_alive(&self, ctx: &mut CheatCtx) -> (r: Result<bool, RadarError>)
        ensures
            final(ctx).0.same_game(old(ctx).0),
            reads_grew(old(ctx).0, final(ctx).0),
            match r {
                Ok(alive) => {
                    let t = reads_between(old(ctx).0, final(ctx).0);
                    alive_reads(old(ctx).0.offsets, self.0, t, alive)
                },
                Err(e) => failed_read(e),
            },
    {
        Ok(self.health(ctx)? > 0)
    }
}

} // verus!
