pub mod functions;
pub mod structs;

pub use functions::{
    get_entity_list, get_globals, get_local, get_local_pawn, get_plantedc4, highest_entity_index,
    is_bomb_dropped, is_bomb_planted, is_ingame, map_name,
};
