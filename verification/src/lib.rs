//! A CS2 web radar's core: how entities are found in the game's memory through memflow,
//! what is cached between polls, and what is sent to the radar's clients.
use vstd::prelude::*;

pub mod cli;
pub mod comms;
pub mod error;
pub mod offsets;
pub mod dma;
pub mod structs;
pub mod enums;
pub mod sdk;
pub mod csflow;
pub mod radarflow;
pub mod websocket;

verus! {
} // verus!
