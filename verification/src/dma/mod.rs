pub mod address;
pub mod bytes;
pub mod cache;
pub mod clock;
pub mod pacing;
pub mod process;
pub mod radar;
pub mod context;
pub mod entity;
pub mod threaddata;
pub mod trace;

pub use context::{CheatCtx, DmaCtx};
