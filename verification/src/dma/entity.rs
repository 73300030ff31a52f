use vstd::prelude::*;
use crate::dma::address::{addr_add, entry_address, handle_entry, handle_slot, list_entry_address, list_slot_address, slot_address, wrap_addr};
use crate::dma::context::{designer_name_ptr, designer_name_reads, pawn_lookup, DmaCtx};
use crate::dma::process::{failed_read, read_f32_bits, read_i32, read_text, read_u32, read_u64, read_u8, read_vec3, MemRead};
use crate::dma::trace::{read_at, reads_between, reads_grew, text_at, text_of, value_of};
use crate::enums::player_type::PlayerType;
use crate::enums::teamid::{team_of, TeamID};
use crate::error::RadarError;
use crate::offsets::Offsets;
use crate::structs::vec3::Vec3;

verus! {

/// Reads of an entity list slot by index: the chunk pointer, then the entity pointer. The
/// lookup treats a chunk or entity pointer as missing only where it is both null and
/// memflow's invalid address, which no pointer is, so it always finds an entity.
pub open spec fn index_lookup(entity_list: u64, index: i32, t: Seq<MemRead>, found: Option<u64>) -> bool {
    &&& t.len() == 2
    &&& read_at(t[0], list_entry_address(entity_list, index), 8)
    &&& read_at(t[1], list_slot_address(value_of(t[0]) as u64, index), 8)
    &&& found == Some(value_of(t[1]) as u64)
}

/// `t` is a read of the vector at `addr`, which gave `v`.
pub open spec fn vec3_read(t: MemRead, addr: u64, v: Vec3) -> bool {
    t == (MemRead::Triple { addr, x: v.x, y: v.y, z: v.z })
}

/// Reads of an entity's position: its scene node, then the node's absolute origin.
pub open spec fn scene_origin_reads(o: Offsets, entity: u64, t: Seq<MemRead>, pos: Vec3) -> bool {
    &&& t.len() == 2
    &&& read_at(t[0], wrap_addr(entity + o.base_entity_game_scene_node), 8)
    &&& vec3_read(t[1], wrap_addr(value_of(t[0]) + o.game_scene_node_abs_origin), pos)
}

/// Reads of an entity's class name: its designer name, read as a string of up to 32 bytes.
pub open spec fn class_name_reads(o: Offsets, entity: u64, t: Seq<MemRead>, name: Seq<char>) -> bool {
    &&& designer_name_reads(o, entity, t)
    &&& t.len() == 3
    &&& text_at(t[2], designer_name_ptr(t), 32)
    &&& name == text_of(t[2])
}

/// Reads of one `i32` field `offset` bytes into `base`, which gave `v`.
pub open spec fn i32_field_read(t: Seq<MemRead>, base: u64, offset: u64, v: i32) -> bool {
    &&& t.len() == 1
    &&& read_at(t[0], wrap_addr(base + offset), 4)
    &&& value_of(t[0]) == v as int
}

/// How a player with team `team` stands to a local player with team `local_team`:
/// spectators are spectators, other teams are enemies, the same team is the team.
pub open spec fn classify(team: TeamID, local_team: TeamID) -> PlayerType {
    if team == TeamID::Spectator {
        PlayerType::Spectator
    } else if team != local_team {
        PlayerType::Enemy
    } else {
        PlayerType::Team
    }
}

/// Team mates see each other as team mates.
pub proof fn team_is_mutual(a: TeamID, b: TeamID)
    requires
        classify(a, b) == PlayerType::Team,
    ensures
        classify(b, a) == PlayerType::Team,
{
}

/// Enemies of a player on a side see that player as an enemy too.
pub proof fn enemy_is_mutual(a: TeamID, b: TeamID)
    requires
        classify(a, b) == PlayerType::Enemy,
        b != TeamID::Spectator,
    ensures
        classify(b, a) == PlayerType::Enemy,
{
}

/// Reads of a player's type and the type: the local player is `Local` without a read;
/// otherwise the player's team, then the local player's, each `None` where the number is
/// no team.
pub open spec fn player_type_reads(o: Offsets, controller: u64, local: u64, t: Seq<MemRead>, r: Option<PlayerType>) -> bool {
    if controller == local {
        t.len() == 0 && r == Some(PlayerType::Local)
    } else {
        &&& t.len() >= 1
        &&& read_at(t[0], wrap_addr(controller + o.base_entity_team_num), 4)
        &&& match team_of(value_of(t[0])) {
            None => t.len() == 1 && r is None,
            Some(team) => {
                &&& t.len() == 2
                &&& read_at(t[1], wrap_addr(local + o.base_entity_team_num), 4)
                &&& r == match team_of(value_of(t[1])) {
                    None => None,
                    Some(local_team) => Some(classify(team, local_team)),
                }
            },
        }
    }
}

/// The read of a pawn's health (`m_iHealth`, as a `u32`) and the health it gave.
pub open spec fn health_reads(o: Offsets, pawn: u64, t: Seq<MemRead>, health: int) -> bool {
    &&& t.len() == 1
    &&& read_at(t[0], wrap_addr(pawn + o.base_entity_health), 4)
    &&& health == value_of(t[0])
}

/// The read of a pawn's health and whether it makes the pawn alive (health above zero).
pub open spec fn alive_reads(o: Offsets, pawn: u64, t: Seq<MemRead>, alive: bool) -> bool {
    &&& t.len() == 1
    &&& read_at(t[0], wrap_addr(pawn + o.base_entity_health), 4)
    &&& alive == (value_of(t[0]) > 0)
}

/// A pawn is alive exactly when the same read gives a health above zero.
pub proof fn alive_is_health_above_zero(o: Offsets, pawn: u64, t: Seq<MemRead>, alive: bool, health: int)
    requires
        alive_reads(o, pawn, t, alive),
        health_reads(o, pawn, t, health),
    ensures
        alive == (health > 0),
{
}

/// Two players see each other alike: where the team numbers read for each are the same
/// in both lookups, a player who sees another as a team mate is seen as one, and a player
/// who sees another as an enemy is seen as an enemy, or as a spectator sees.
pub proof fn player_type_swapped(o: Offsets, a: u64, b: u64, t: Seq<MemRead>, t2: Seq<MemRead>, r: Option<PlayerType>, r2: Option<PlayerType>)
    requires
        a != b,
        player_type_reads(o, a, b, t, r),
        player_type_reads(o, b, a, t2, r2),
        value_of(t[0]) == value_of(t2[1]),
        value_of(t[1]) == value_of(t2[0]),
    ensures
        r == Some(PlayerType::Team) ==> r2 == Some(PlayerType::Team),
        r == Some(PlayerType::Enemy) ==> r2 == Some(PlayerType::Enemy) || r2 == Some(PlayerType::Spectator),
{
    if r == Some(PlayerType::Team) || r == Some(PlayerType::Enemy) {
        let ta = team_of(value_of(t[0])).unwrap();
        let tb = team_of(value_of(t[1])).unwrap();
        if r == Some(PlayerType::Team) {
            team_is_mutual(ta, tb);
        } else if tb != TeamID::Spectator {
            enemy_is_mutual(ta, tb);
        }
    }
}

impl DmaCtx {
    /// The pointer stored `offset` bytes from `base`.
    pub(crate) fn pointer_at(&mut self, base: u64, offset: u64) -> (r: Result<u64, RadarError>)
        ensures
            final(self).same_game(*old(self)),
            reads_grew(*old(self), *final(self)),
            match r {
                Ok(v) => {
                    let t = reads_between(*old(self), *final(self));
                    t.len() == 1 && read_at(t[0], wrap_addr(base + offset), 8) && v == value_of(t[0])
                },
                Err(e) => failed_read(e),
            },
    {
        read_u64(self, addr_add(base, offset))
    }

    /// The `i32` stored `offset` bytes from `base`.
    pub(crate) fn i32_at(&mut self, base: u64, offset: u64) -> (r: Result<i32, RadarError>)
        ensures
            final(self).same_game(*old(self)),
            reads_grew(*old(self), *final(self)),
            match r {
                Ok(v) => i32_field_read(reads_between(*old(self), *final(self)), base, offset, v),
                Err(e) => failed_read(e),
            },
    {
        read_i32(self, addr_add(base, offset))
    }

    /// The byte stored `offset` bytes from `base`, taken as a flag: set unless zero.
    pub(crate) fn flag_at(&mut self, base: u64, offset: u64) -> (r: Result<bool, RadarError>)
        ensures
            final(self).same_game(*old(self)),
            reads_grew(*old(self), *final(self)),
            match r {
                Ok(v) => {
                    let t = reads_between(*old(self), *final(self));
                    t.len() == 1 && read_at(t[0], wrap_addr(base + offset), 1) && v == (value_of(t[0]) != 0)
                },
                Err(e) => failed_read(e),
            },
    {
        let data = read_u8(self, addr_add(base, offset))?;
        Ok(data != 0)
    }

    /// The entity at `index` of the entity list.
    pub(crate) fn entity_at_index(&mut self, entity_list: u64, index: i32) -> (r: Result<Option<u64>, RadarError>)
        ensures
            final(self).same_game(*old(self)),
            reads_grew(*old(self), *final(self)),
            match r {
                Ok(found) => index_lookup(entity_list, index, reads_between(*old(self), *final(self)), found),
                Err(e) => failed_read(e),
            },
    {
        let list_entry = read_u64(self, entry_address(entity_list, index))?;
        if list_entry == 0 && list_entry == 0xffff_ffff_ffff_ffff {
            return Ok(None);
        }
        let player_ptr = read_u64(self, slot_address(list_entry, index))?;
        if player_ptr == 0 && player_ptr == 0xffff_ffff_ffff_ffff {
            return Ok(None);
        }
        Ok(Some(player_ptr))
    }

    /// The entity that an entity handle stands for, `None` where the list has no chunk
    /// for it (a null or invalid chunk pointer).
    pub(crate) fn entity_from_handle(&mut self, entity_list: u64, handle: u32) -> (r: Result<Option<u64>, RadarError>)
        ensures
            final(self).same_game(*old(self)),
            reads_grew(*old(self), *final(self)),
            match r {
                Ok(found) => pawn_lookup(entity_list, handle, reads_between(*old(self), *final(self)), found),
                Err(e) => failed_read(e),
            },
    {
        let list_entry = read_u64(self, handle_entry(entity_list, handle))?;
        if list_entry == 0 || list_entry == 0xffff_ffff_ffff_ffff {
            Ok(None)
        } else {
            let ptr = read_u64(self, handle_slot(list_entry, handle))?;
            Ok(Some(ptr))
        }
    }

    /// The entity's position: the absolute origin of its scene node.
    pub(crate) fn scene_origin(&mut self, entity: u64) -> (r: Result<Vec3, RadarError>)
        ensures
            final(self).same_game(*old(self)),
            reads_grew(*old(self), *final(self)),
            match r {
                Ok(pos) => scene_origin_reads(old(self).offsets, entity, reads_between(*old(self), *final(self)), pos),
                Err(e) => failed_read(e),
            },
    {
        let node = read_u64(self, addr_add(entity, self.offsets.base_entity_game_scene_node))?;
        read_vec3(self, addr_add(node, self.offsets.game_scene_node_abs_origin))
    }

    /// The vector stored `offset` bytes from `base`.
    pub(crate) fn vec3_at(&mut self, base: u64, offset: u64) -> (r: Result<Vec3, RadarError>)
        ensures
            final(self).same_game(*old(self)),
            reads_grew(*old(self), *final(self)),
            match r {
                Ok(v) => {
                    let t = reads_between(*old(self), *final(self));
                    t.len() == 1 && vec3_read(t[0], wrap_addr(base + offset), v)
                },
                Err(e) => failed_read(e),
            },
    {
        read_vec3(self, addr_add(base, offset))
    }

    /// The `u32` stored `offset` bytes from `base`.
    pub(crate) fn u32_at(&mut self, base: u64, offset: u64) -> (r: Result<u32, RadarError>)
        ensures
            final(self).same_game(*old(self)),
            reads_grew(*old(self), *final(self)),
            match r {
                Ok(v) => {
                    let t = reads_between(*old(self), *final(self));
                    t.len() == 1 && read_at(t[0], wrap_addr(base + offset), 4) && v == value_of(t[0])
                },
                Err(e) => failed_read(e),
            },
    {
        read_u32(self, addr_add(base, offset))
    }

    /// The entity's class name: its designer name, up to 32 bytes.
    pub(crate) fn entity_class_name(&mut self, entity: u64) -> (r: Result<String, RadarError>)
        ensures
            final(self).same_game(*old(self)),
            reads_grew(*old(self), *final(self)),
            match r {
                Ok(name) => class_name_reads(old(self).offsets, entity, reads_between(*old(self), *final(self)), name@),
                Err(e) => failed_read(e),
            },
    {
        let entity_identity_ptr = read_u64(self, addr_add(entity, self.offsets.entity_instance_entity))?;
        let class_name_ptr = read_u64(self, addr_add(entity_identity_ptr, self.offsets.entity_identity_designer_name))?;
        read_text(self, class_name_ptr, 32)
    }

    /// The team of a player controller, `None` where its team number is no team.
    pub(crate) fn controller_team(&mut self, controller: u64) -> (r: Result<Option<TeamID>, RadarError>)
        ensures
            final(self).same_game(*old(self)),
            reads_grew(*old(self), *final(self)),
            match r {
                Ok(team) => {
                    let t = reads_between(*old(self), *final(self));
                    t.len() == 1 && read_at(t[0], wrap_addr(controller + old(self).offsets.base_entity_team_num), 4)
                        && team == team_of(value_of(t[0]))
                },
                Err(e) => failed_read(e),
            },
    {
        let team_num = read_i32(self, addr_add(controller, self.offsets.base_entity_team_num))?;
        Ok(TeamID::from_i32(team_num))
    }

    /// How the player of `controller` stands to the local player of `local`.
    pub(crate) fn player_type_of(&mut self, controller: u64, local: u64) -> (r: Result<Option<PlayerType>, RadarError>)
        ensures
            final(self).same_game(*old(self)),
            reads_grew(*old(self), *final(self)),
            match r {
                Ok(player_type) => player_type_reads(old(self).offsets, controller, local, reads_between(*old(self), *final(self)), player_type),
                Err(e) => failed_read(e),
            },
            controller == local ==> r is Ok && r->Ok_0 == Some(PlayerType::Local) && final(self).reads@ == old(self).reads@,
    {
        if controller == local {
            return Ok(Some(PlayerType::Local));
        }
        let team = match self.controller_team(controller)? {
            Some(t) => t,
            None => return Ok(None),
        };
        let local_team = match self.controller_team(local)? {
            Some(t) => t,
            None => return Ok(None),
        };
        let player_type = if team == TeamID::Spectator {
            PlayerType::Spectator
        } else if team != local_team {
            PlayerType::Enemy
        } else {
            PlayerType::Team
        };
        Ok(Some(player_type))
    }
}

} // verus!

verus! {

/// Reads of a pointer stored `offset` bytes from `base`, which gave `v`.
pub open spec fn pointer_read_gave(t: Seq<MemRead>, base: u64, offset: u64, v: u64) -> bool {
    &&& t.len() == 1
    &&& read_at(t[0], wrap_addr(base + offset), 8)
    &&& v == value_of(t[0])
}

/// Reads of a pointer stored `offset` bytes from `base`, then of the `i32` stored
/// `field` bytes from that pointer, which gave `v`.
pub open spec fn pointer_then_i32(t: Seq<MemRead>, base: u64, offset: u64, field: u64, v: i32) -> bool {
    &&& t.len() == 2
    &&& read_at(t[0], wrap_addr(base + offset), 8)
    &&& read_at(t[1], wrap_addr(value_of(t[0]) + field), 4)
    &&& v == value_of(t[1])
}

/// Reads of a pointer stored `offset` bytes from `base`, then of the byte stored `field`
/// bytes from that pointer, which gave `v`.
pub open spec fn pointer_then_u8(t: Seq<MemRead>, base: u64, offset: u64, field: u64, v: int) -> bool {
    &&& t.len() == 2
    &&& read_at(t[0], wrap_addr(base + offset), 8)
    &&& read_at(t[1], wrap_addr(value_of(t[0]) + field), 1)
    &&& v == value_of(t[1])
}

impl DmaCtx {
    /// The bit pattern of the `f32` stored `offset` bytes from `base`.
    pub(crate) fn f32_bits_at(&mut self, base: u64, offset: u64) -> (r: Result<u32, RadarError>)
        ensures
            final(self).same_game(*old(self)),
            reads_grew(*old(self), *final(self)),
            match r {
                Ok(v) => {
                    let t = reads_between(*old(self), *final(self));
                    t.len() == 1 && read_at(t[0], wrap_addr(base + offset), 4) && v == value_of(t[0])
                },
                Err(e) => failed_read(e),
            },
    {
        read_f32_bits(self, addr_add(base, offset))
    }

    /// The pointer stored at the pointer stored `field` bytes from the pointer stored
    /// `offset` bytes from `base`: three pointers followed.
    pub(crate) fn pointer_chain3(&mut self, base: u64, offset: u64, field: u64) -> (r: Result<u64, RadarError>)
        ensures
            final(self).same_game(*old(self)),
            reads_grew(*old(self), *final(self)),
            match r {
                Ok(v) => {
                    let t = reads_between(*old(self), *final(self));
                    &&& t.len() == 3
                    &&& read_at(t[0], wrap_addr(base + offset), 8)
                    &&& read_at(t[1], wrap_addr(value_of(t[0]) + field), 8)
                    &&& read_at(t[2], value_of(t[1]) as u64, 8)
                    &&& v == value_of(t[2])
                },
                Err(e) => failed_read(e),
            },
    {
        let first = read_u64(self, addr_add(base, offset))?;
        let second = read_u64(self, addr_add(first, field))?;
        read_u64(self, second)
    }

    /// The `i32` stored `field` bytes from the pointer stored `offset` bytes from `base`.
    pub(crate) fn i32_behind(&mut self, base: u64, offset: u64, field: u64) -> (r: Result<i32, RadarError>)
        ensures
            final(self).same_game(*old(self)),
            reads_grew(*old(self), *final(self)),
            match r {
                Ok(v) => pointer_then_i32(reads_between(*old(self), *final(self)), base, offset, field, v),
                Err(e) => failed_read(e),
            },
    {
        let ptr = read_u64(self, addr_add(base, offset))?;
        read_i32(self, addr_add(ptr, field))
    }

    /// The byte stored `field` bytes from the pointer stored `offset` bytes from `base`.
    pub(crate) fn u8_behind(&mut self, base: u64, offset: u64, field: u64) -> (r: Result<u8, RadarError>)
        ensures
            final(self).same_game(*old(self)),
            reads_grew(*old(self), *final(self)),
            match r {
                Ok(v) => pointer_then_u8(reads_between(*old(self), *final(self)), base, offset, field, v as int),
                Err(e) => failed_read(e),
            },
    {
        let ptr = read_u64(self, addr_add(base, offset))?;
        read_u8(self, addr_add(ptr, field))
    }

    /// The string of up to 32 bytes that the pointer stored `offset` bytes from `base`
    /// points at.
    pub(crate) fn text_behind(&mut self, base: u64, offset: u64) -> (r: Result<String, RadarError>)
        ensures
            final(self).same_game(*old(self)),
            reads_grew(*old(self), *final(self)),
            match r {
                Ok(s) => {
                    let t = reads_between(*old(self), *final(self));
                    &&& t.len() == 2
                    &&& read_at(t[0], wrap_addr(base + offset), 8)
                    &&& text_at(t[1], value_of(t[0]) as u64, 32)
                    &&& s@ == text_of(t[1])
                },
                Err(e) => failed_read(e),
            },
    {
        let ptr = read_u64(self, addr_add(base, offset))?;
        read_text(self, ptr, 32)
    }
}

} // verus!
