use vstd::prelude::*;

verus! {

/// The team numbers the game gives its players (`m_iTeamNum`).
#[derive(Clone, Copy, Debug, PartialEq, Eq, Structural)]
pub enum TeamID {
    Spectator,
    T,
    CT,
}

/// The team that a team number stands for: 1, 2 and 3 are spectators, terrorists and
/// counter-terrorists; no other number is a team.
pub open spec fn team_of(value: int) -> Option<TeamID> {
    if value == 1 {
        Some(TeamID::Spectator)
    } else if value == 2 {
        Some(TeamID::T)
    } else if value == 3 {
        Some(TeamID::CT)
    } else {
        None
    }
}

impl TeamID {
    /// The game's number of this team.
    pub open spec fn number(self) -> int {
        match self {
            TeamID::Spectator => 1,
            TeamID::T => 2,
            TeamID::CT => 3,
        }
    }

    /// The team with the number `value`, if it is one (`FromPrimitive::from_i32`).
    pub fn from_i32(value: i32) -> (r: Option<TeamID>)
        ensures
            r == team_of(value as int),
    {
        if value == 1 {
            Some(TeamID::Spectator)
        } else if value == 2 {
            Some(TeamID::T)
        } else if value == 3 {
            Some(TeamID::CT)
        } else {
            None
        }
    }
}

/// A team's number gives back the team.
pub proof fn team_number_round_trip(team: TeamID)
    ensures
        team_of(team.number()) == Some(team),
{
}

} // verus!
