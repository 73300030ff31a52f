use vstd::prelude::*;
use crate::enums::player_type::PlayerType;
use crate::structs::vec3::Vec3;

verus! {

/// A player on the radar: position, yaw (an `f32` bit pattern), how it stands to the local
/// player, and whether it carries the bomb.
#[derive(Clone, Copy, Debug, PartialEq, Eq, Structural)]
pub struct PlayerData {
    pub pos: Vec3,
    pub yaw: u32,
    pub player_type: PlayerType,
    pub has_bomb: bool,
}

impl PlayerData {
    pub fn new(pos: Vec3, yaw: u32, player_type: PlayerType, has_bomb: bool) -> (r: PlayerData)
        ensures
            r == (PlayerData { pos, yaw, player_type, has_bomb }),
    {
        PlayerData { pos, yaw, player_type, has_bomb }
    }
}

/// The bomb on the radar: its position and whether it is planted (else dropped).
#[derive(Clone, Copy, Debug, PartialEq, Eq, Structural)]
pub struct BombData {
    pub pos: Vec3,
    pub planted: bool,
}

impl BombData {
    pub fn new(pos: Vec3, planted: bool) -> (r: BombData)
        ensures
            r == (BombData { pos, planted }),
    {
        BombData { pos, planted }
    }
}

/// One entity on the radar.
#[derive(Clone, Copy, Debug, PartialEq, Eq, Structural)]
pub enum EntityData {
    Player(PlayerData),
    Bomb(BombData),
}

/// What the radar sends its clients: whether a game is under way, the map, and the
/// entities on it.
pub struct RadarData {
    pub ingame: bool,
    pub map_name: String,
    pub entity_data: Vec<EntityData>,
}

impl RadarData {
    pub fn new(ingame: bool, map_name: String, entity_data: Vec<EntityData>) -> (r: RadarData)
        ensures
            r.ingame == ingame,
            r.map_name@ == map_name@,
            r.entity_data@ == entity_data@,
    {
        RadarData { ingame, map_name, entity_data }
    }

    /// What clients get while no game is under way: nothing.
    pub fn empty() -> (r: RadarData)
        ensures
            !r.ingame,
            r.map_name@.len() == 0,
            r.entity_data@.len() == 0,
    {
        RadarData { ingame: false, map_name: String::new(), entity_data: Vec::new() }
    }
}

} // verus!
