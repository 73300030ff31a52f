use vstd::prelude::*;

verus! {

/// How a player stands to the radar's own player.
#[derive(Clone, Copy, Debug, PartialEq, Eq, Structural)]
pub enum PlayerType {
    Unknown,
    Spectator,
    Local,
    Enemy,
    Team,
}

impl Default for PlayerType {
    fn default() -> (r: PlayerType)
        ensures
            r == PlayerType::Unknown,
    {
        PlayerType::Unknown
    }
}

} // verus!
