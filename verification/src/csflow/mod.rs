pub mod cached_view;
pub mod context;
pub mod entity;
pub mod gamerules;
pub mod global_vars;
pub mod slot_math;
pub mod traits;

pub use crate::enums::{PlayerType, TeamID};
pub use crate::error::RadarError;
pub use crate::structs::connector::Connector;
pub use context::CheatCtx;
pub use entity::{CBaseEntity, CPlayerController, CPlayerPawn};
pub use gamerules::GameRules;
pub use global_vars::GlobalVars;
