use vstd::prelude::*;
use crate::enums::player_type::PlayerType;
use crate::structs::vec3::Vec3;

verus! {

/// A player as the clients see it: position, yaw (an `f32` bit pattern), how it stands to
/// the local player, and whether it carries the bomb or an AWP and is scoped in.
#[derive(Clone, Copy, Debug, PartialEq, Eq, Structural)]
pub struct PlayerData {
    pub pos: Vec3,
    pub yaw: u32,
    pub player_type: PlayerType,
    pub has_bomb: bool,
    pub has_awp: bool,
    pub is_scoped: bool,
}

/// The bomb as the clients see it. The three times are `f32` bit patterns.
#[derive(Clone, Copy, Debug, PartialEq, Eq, Structural)]
pub struct BombData {
    /// Whether the bomb is planted.
    pub planted: bool,
    /// Whether the bomb is dropped.
    pub dropped: bool,
    /// The bomb's position.
    pub pos: Vec3,
    /// Whether the bomb was defused.
    pub defused: bool,
    /// Whether the bomb exploded.
    pub exploded: bool,
    /// Whether the bomb is being defused.
    pub being_defused: bool,
    /// Whether the current defuse can end before the bomb explodes.
    pub can_defuse: bool,
    /// The length of the current defuse (10 or 5 seconds).
    pub defuse_length: u32,
    /// The time left until the bomb explodes.
    pub timeleft: u32,
    /// The time at which the defuse ends.
    pub defuse_end: u32,
}

/// No bomb: every flag false, the position and every time zero.
pub open spec fn no_bomb() -> BombData {
    BombData {
        planted: false,
        dropped: false,
        pos: Vec3 { x: 0, y: 0, z: 0 },
        defused: false,
        exploded: false,
        being_defused: false,
        can_defuse: false,
        defuse_length: 0,
        timeleft: 0,
        defuse_end: 0,
    }
}

impl Default for BombData {
    fn default() -> (r: BombData)
        ensures
            r == no_bomb(),
    {
        BombData {
            planted: false,
            dropped: false,
            pos: Vec3::default(),
            defused: false,
            exploded: false,
            being_defused: false,
            can_defuse: false,
            defuse_length: 0,
            timeleft: 0,
            defuse_end: 0,
        }
    }
}

/// What the clients get: how often the DMA thread polls, whether a game is under way, the
/// map, the players and the bomb.
pub struct RadarData {
    /// How many times a second the DMA thread polls.
    pub freq: usize,
    pub ingame: bool,
    pub map_name: String,
    pub player_data: Vec<PlayerData>,
    pub bomb_data: BombData,
}

impl RadarData {
    pub fn new(freq: usize, ingame: bool, map_name: String, player_data: Vec<PlayerData>, bomb_data: BombData) -> (r: RadarData)
        ensures
            r.freq == freq,
            r.ingame == ingame,
            r.map_name@ == map_name@,
            r.player_data@ == player_data@,
            r.bomb_data == bomb_data,
    {
        RadarData { freq, ingame, map_name, player_data, bomb_data }
    }

    /// What the clients get while no game is under way: no map, no players, no bomb.
    pub fn empty(freq: usize) -> (r: RadarData)
        ensures
            r.freq == freq,
            !r.ingame,
            r.map_name@.len() == 0,
            r.player_data@.len() == 0,
            r.bomb_data == no_bomb(),
    {
        RadarData { freq, ingame: false, map_name: String::new(), player_data: Vec::new(), bomb_data: BombData::default() }
    }
}

} // verus!
