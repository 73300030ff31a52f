use vstd::prelude::*;
use crate::dma::address::wrap_addr;
use crate::dma::context::{has_c4_reads, has_c4_reads_cut, pawn_lookup, CheatCtx};
use crate::dma::entity::{alive_reads, health_reads, class_name_reads, index_lookup, player_type_reads, scene_origin_reads, vec3_read};
use crate::dma::process::failed_read;
use crate::dma::trace::{read_at, reads_between, reads_grew, value_of};
use crate::enums::player_type::PlayerType;
use crate::enums::teamid::team_of;
use crate::error::RadarError;
use crate::structs::vec3::Vec3;

pub use crate::csflow::traits::MemoryClass;
pub use crate::enums::teamid::TeamID;

verus! {

/// Functions every entity has, as the radar's main loop reads them.
pub trait BaseEntity: Sized {
    fn from_index(ctx: &mut CheatCtx, entity_list: u64, index: i32) -> Result<Option<Self>, RadarError>;

    fn pos(&self, ctx: &mut CheatCtx) -> Result<Vec3, RadarError>;

    fn class_name(&self, ctx: &mut CheatCtx) -> Result<String, RadarError>;
}

/// A player controller (`CCSPlayerController`), by its address.
pub struct PlayerController(pub u64);

/// A player pawn (`C_CSPlayerPawn`), by its address.
pub struct PlayerPawn(pub u64);

/// The bomb (`C_C4` or `C_PlantedC4`), by its address.
pub struct Bomb(pub u64);

/// The address in an optional entity.
pub open spec fn controller_addr(e: Option<PlayerController>) -> Option<u64> {
    match e {
        Some(c) => Some(c.0),
        None => None,
    }
}

/// The address in an optional pawn.
pub open spec fn pawn_addr(p: Option<PlayerPawn>) -> Option<u64> {
    match p {
        Some(p) => Some(p.0),
        None => None,
    }
}

impl MemoryClass for PlayerController {
    open spec fn addr(&self) -> u64 {
        self.0
    }

    fn ptr(&self) -> (r: u64) {
        self.0
    }

    fn new(ptr: u64) -> (r: Self) {
        PlayerController(ptr)
    }
}

impl MemoryClass for PlayerPawn {
    open spec fn addr(&self) -> u64 {
        self.0
    }

    fn ptr(&self) -> (r: u64) {
        self.0
    }

    fn new(ptr: u64) -> (r: Self) {
        PlayerPawn(ptr)
    }
}

impl MemoryClass for Bomb {
    open spec fn addr(&self) -> u64 {
        self.0
    }

    fn ptr(&self) -> (r: u64) {
        self.0
    }

    fn new(ptr: u64) -> (r: Self) {
        Bomb(ptr)
    }
}

impl BaseEntity for PlayerController {
    /// The controller at `index` of the entity list (see [`PlayerController::from_entity_list_v2`]).
    fn from_index(ctx: &mut CheatCtx, entity_list: u64, index: i32) -> (r: Result<Option<PlayerController>, RadarError>)
        ensures
            final(ctx).same_game(*old(ctx)),
            reads_grew(*old(ctx), *final(ctx)),
            match r {
                Ok(found) => index_lookup(entity_list, index, reads_between(*old(ctx), *final(ctx)), controller_addr(found)),
                Err(e) => failed_read(e),
            },
    {
        PlayerController::from_entity_list_v2(ctx, entity_list, index)
    }

    fn pos(&self, ctx: &mut CheatCtx) -> (r: Result<Vec3, RadarError>)
        ensures
            final(ctx).same_game(*old(ctx)),
            reads_grew(*old(ctx), *final(ctx)),
            match r {
                Ok(pos) => scene_origin_reads(old(ctx).offsets, self.0, reads_between(*old(ctx), *final(ctx)), pos),
                Err(e) => failed_read(e),
            },
    {
        ctx.scene_origin(self.0)
    }

    fn class_name(&self, ctx: &mut CheatCtx) -> (r: Result<String, RadarError>)
        ensures
            final(ctx).same_game(*old(ctx)),
            reads_grew(*old(ctx), *final(ctx)),
            match r {
                Ok(name) => class_name_reads(old(ctx).offsets, self.0, reads_between(*old(ctx), *final(ctx)), name@),
                Err(e) => failed_read(e),
            },
    {
        ctx.entity_class_name(self.0)
    }
}

impl PlayerController {
    /// The entity at `index` of the entity list: the chunk pointer at
    /// `entity_list + 8 * (index >> 9) + 16`, then the entity at `chunk + 120 * (index & 0x1FF)`.
    /// A pointer counts as missing only where it is both null and invalid, which none is, so
    /// a lookup that reads both pointers always finds a controller.
    pub fn from_entity_list_v2(ctx: &mut CheatCtx, entity_list: u64, index: i32) -> (r: Result<Option<PlayerController>, RadarError>)
        ensures
            final(ctx).same_game(*old(ctx)),
            reads_grew(*old(ctx), *final(ctx)),
            match r {
                Ok(found) => index_lookup(entity_list, index, reads_between(*old(ctx), *final(ctx)), controller_addr(found)),
                Err(e) => failed_read(e),
            },
    {
        match ctx.entity_at_index(entity_list, index)? {
            Some(ptr) => Ok(Some(PlayerController(ptr))),
            None => Ok(None),
        }
    }

    /// The controller's position, read through its scene node (slower than the pawn's).
    pub fn pos(&self, ctx: &mut CheatCtx) -> (r: Result<Vec3, RadarError>)
        ensures
            final(ctx).same_game(*old(ctx)),
            reads_grew(*old(ctx), *final(ctx)),
            match r {
                Ok(pos) => scene_origin_reads(old(ctx).offsets, self.0, reads_between(*old(ctx), *final(ctx)), pos),
                Err(e) => failed_read(e),
            },
    {
        ctx.scene_origin(self.0)
    }

    /// The controller's class name: its designer name, up to 32 bytes.
    pub fn class_name(&self, ctx: &mut CheatCtx) -> (r: Result<String, RadarError>)
        ensures
            final(ctx).same_game(*old(ctx)),
            reads_grew(*old(ctx), *final(ctx)),
            match r {
                Ok(name) => class_name_reads(old(ctx).offsets, self.0, reads_between(*old(ctx), *final(ctx)), name@),
                Err(e) => failed_read(e),
            },
    {
        ctx.entity_class_name(self.0)
    }

    /// The controller's team, `None` where its team number is no team.
    pub fn get_team(&self, ctx: &mut CheatCtx) -> (r: Result<Option<TeamID>, RadarError>)
        ensures
            final(ctx).same_game(*old(ctx)),
            reads_grew(*old(ctx), *final(ctx)),
            match r {
                Ok(team) => {
                    let t = reads_between(*old(ctx), *final(ctx));
                    t.len() == 1 && read_at(t[0], wrap_addr(self.0 + old(ctx).offsets.base_entity_team_num), 4)
                        && team == team_of(value_of(t[0]))
                },
                Err(e) => failed_read(e),
            },
    {
        ctx.controller_team(self.0)
    }

    /// How this player stands to the local player: `Local` for the local player itself,
    /// `None` where either team number is no team, else `Spectator`, `Enemy` or `Team`.
    pub fn get_player_type(&self, ctx: &mut CheatCtx, local: &PlayerController) -> (r: Result<Option<PlayerType>, RadarError>)
        ensures
            final(ctx).same_game(*old(ctx)),
            reads_grew(*old(ctx), *final(ctx)),
            match r {
                Ok(player_type) => player_type_reads(old(ctx).offsets, self.0, local.0, reads_between(*old(ctx), *final(ctx)), player_type),
                Err(e) => failed_read(e),
            },
            self.0 == local.0 ==> r is Ok && r->Ok_0 == Some(PlayerType::Local) && final(ctx).reads@ == old(ctx).reads@,
    {
        ctx.player_type_of(self.0, local.0)
    }

    /// The controller's pawn: its pawn handle looked up in the entity list.
    pub fn pawn(&self, ctx: &mut CheatCtx, entity_list: u64) -> (r: Result<Option<PlayerPawn>, RadarError>)
        ensures
            final(ctx).same_game(*old(ctx)),
            reads_grew(*old(ctx), *final(ctx)),
            match r {
                Ok(pawn) => {
                    let t = reads_between(*old(ctx), *final(ctx));
                    &&& t.len() >= 1
                    &&& read_at(t[0], wrap_addr(self.0 + old(ctx).offsets.player_controller_player_pawn), 4)
                    &&& pawn_lookup(entity_list, value_of(t[0]) as u32, t.subrange(1, t.len() as int), pawn_addr(pawn))
                },
                Err(e) => failed_read(e),
            },
    {
        match ctx.pawn_from_controller(self.0, entity_list)? {
            Some(p) => Ok(Some(PlayerPawn(p))),
            None => Ok(None),
        }
    }
}

impl PlayerPawn {
    /// The pawn that an entity handle stands for, `None` where the entity list has no chunk
    /// for it.
    pub fn from_uhandle(ctx: &mut CheatCtx, entity_list: u64, uhandle: u32) -> (r: Result<Option<PlayerPawn>, RadarError>)
        ensures
            final(ctx).same_game(*old(ctx)),
            reads_grew(*old(ctx), *final(ctx)),
            match r {
                Ok(pawn) => pawn_lookup(entity_list, uhandle, reads_between(*old(ctx), *final(ctx)), pawn_addr(pawn)),
                Err(e) => failed_read(e),
            },
    {
        match ctx.entity_from_handle(entity_list, uhandle)? {
            Some(p) => Ok(Some(PlayerPawn(p))),
            None => Ok(None),
        }
    }

    /// Whether the pawn carries the bomb (see [`crate::dma::context::DmaCtx::has_c4`]).
    pub fn has_c4(&self, ctx: &mut CheatCtx, entity_list: u64) -> (r: Result<bool, RadarError>)
        ensures
            final(ctx).same_game(*old(ctx)),
            reads_grew(*old(ctx), *final(ctx)),
            match r {
                Ok(found) => has_c4_reads(old(ctx).offsets, self.0, entity_list, reads_between(*old(ctx), *final(ctx)), found),
                Err(e) => failed_read(e) && has_c4_reads_cut(old(ctx).offsets, self.0, entity_list, reads_between(*old(ctx), *final(ctx))),
            },
    {
        ctx.has_c4(self.0, entity_list)
    }

    /// The pawn's position (`m_vOldOrigin`).
    pub fn pos(&self, ctx: &mut CheatCtx) -> (r: Result<Vec3, RadarError>)
        ensures
            final(ctx).same_game(*old(ctx)),
            reads_grew(*old(ctx), *final(ctx)),
            match r {
                Ok(pos) => {
                    let t = reads_between(*old(ctx), *final(ctx));
                    t.len() == 1 && vec3_read(t[0], wrap_addr(self.0 + old(ctx).offsets.base_player_pawn_old_origin), pos)
                },
                Err(e) => failed_read(e),
            },
    {
        let off = ctx.offsets.base_player_pawn_old_origin;
        ctx.vec3_at(self.0, off)
    }

    /// The pawn's eye angles (`m_angEyeAngles`).
    pub fn angles(&self, ctx: &mut CheatCtx) -> (r: Result<Vec3, RadarError>)
        ensures
            final(ctx).same_game(*old(ctx)),
            reads_grew(*old(ctx), *final(ctx)),
            match r {
                Ok(angles) => {
                    let t = reads_between(*old(ctx), *final(ctx));
                    t.len() == 1 && vec3_read(t[0], wrap_addr(self.0 + old(ctx).offsets.player_pawn_base_eye_angles), angles)
                },
                Err(e) => failed_read(e),
            },
    {
        let off = ctx.offsets.player_pawn_base_eye_angles;
        ctx.vec3_at(self.0, off)
    }

    /// The pawn's health (`m_iHealth`, read as a `u32`).
    pub fn health(&self, ctx: &mut CheatCtx) -> (r: Result<u32, RadarError>)
        ensures
            final(ctx).same_game(*old(ctx)),
            reads_grew(*old(ctx), *final(ctx)),
            match r {
                Ok(health) => {
                    let t = reads_between(*old(ctx), *final(ctx));
                    health_reads(old(ctx).offsets, self.0, t, health as int)
                },
                Err(e) => failed_read(e),
            },
    {
        let off = ctx.offsets.base_entity_health;
        ctx.u32_at(self.0, off)
    }

    /// Whether the pawn is alive: its health is above zero.
    pub fn is_alive(&self, ctx: &mut CheatCtx) -> (r: Result<bool, RadarError>)
        ensures
            final(ctx).same_game(*old(ctx)),
            reads_grew(*old(ctx), *final(ctx)),
            match r {
                Ok(alive) => {
                    let t = reads_between(*old(ctx), *final(ctx));
                    alive_reads(old(ctx).offsets, self.0, t, alive)
                },
                Err(e) => failed_read(e),
            },
    {
        Ok(self.health(ctx)? > 0)
    }
}

impl Bomb {
    /// The bomb's position, read through its scene node.
    pub fn pos(&self, ctx: &mut CheatCtx) -> (r: Result<Vec3, RadarError>)
        ensures
            final(ctx).same_game(*old(ctx)),
            reads_grew(*old(ctx), *final(ctx)),
            match r {
                Ok(pos) => scene_origin_reads(old(ctx).offsets, self.0, reads_between(*old(ctx), *final(ctx)), pos),
                Err(e) => failed_read(e),
            },
    {
        ctx.scene_origin(self.0)
    }
}

} // verus!
