pub mod player_type;
pub mod teamid;

pub use player_type::PlayerType;
pub use teamid::TeamID;
