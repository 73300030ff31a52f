use vstd::prelude::*;
use crate::csflow::entity::{CBaseEntity, CPlayerController};
use crate::csflow::gamerules::GameRules;
use crate::csflow::global_vars::GlobalVars;
use crate::dma::address::wrap_addr;
use crate::dma::context::{double_pointer_read, game_opening, version_reads, DmaCtx};
use crate::dma::entity::{pointer_read_gave, pointer_then_i32};
use crate::dma::process::failed_read;
use crate::dma::trace::{read_at, reads_between, reads_grew, value_of};
use crate::error::RadarError;
use crate::offsets::Offsets;
use crate::structs::connector::Connector;

verus! {

/// The game, as the entity classes reach it: a connection whose build was checked.
pub struct CheatCtx(pub DmaCtx);

impl CheatCtx {
    /// Connects to the game as [`DmaCtx::setup`] does and checks its build against the
    /// offsets'.
    pub fn setup(connector: Connector, pcileech_device: String, offsets: Offsets) -> (r: Result<CheatCtx, RadarError>)
        ensures
            match r {
                Ok(ctx) => {
                    &&& ctx.0.offsets == offsets
                    &&& ctx.0.opening@ == Some(game_opening(connector, pcileech_device@))
                    &&& version_reads(ctx.0, ctx.0.reads@)
                    &&& value_of(ctx.0.reads@[0]) == offsets.game_build_number
                },
                Err(RadarError::GameVersionMismatch(game, dumped)) => dumped == offsets.game_build_number && game != dumped,
                Err(e) => failed_read(e),
            },
    {
        let ctx = DmaCtx::setup(connector, pcileech_device, offsets, false)?;
        Ok(CheatCtx(ctx))
    }

    /// The local player's controller.
    pub fn get_local(&mut self) -> (r: Result<CPlayerController, RadarError>)
        ensures
            final(self).0.same_game(old(self).0),
            reads_grew(old(self).0, final(self).0),
            match r {
                Ok(c) => pointer_read_gave(reads_between(old(self).0, final(self).0), old(self).0.client_module,
                    old(self).0.offsets.local_player_controller, c.0),
                Err(e) => failed_read(e),
            },
    {
        let base = self.0.client_module;
        let off = self.0.offsets.local_player_controller;
        let ptr = self.0.pointer_at(base, off)?;
        Ok(CPlayerController(ptr))
    }

    /// The planted bomb.
    pub fn get_plantedc4(&mut self) -> (r: Result<CBaseEntity, RadarError>)
        ensures
            final(self).0.same_game(old(self).0),
            reads_grew(old(self).0, final(self).0),
            match r {
                Ok(b) => {
                    let t = reads_between(old(self).0, final(self).0);
                    double_pointer_read(t, old(self).0.client_module, old(self).0.offsets.planted_c4) && b.0 == value_of(t[1])
                },
                Err(e) => failed_read(e),
            },
    {
        let ptr = self.0.get_plantedc4()?;
        Ok(CBaseEntity(ptr))
    }

    /// The global variables.
    pub fn get_globals(&mut self) -> (r: Result<GlobalVars, RadarError>)
        ensures
            final(self).0.same_game(old(self).0),
            reads_grew(old(self).0, final(self).0),
            match r {
                Ok(g) => pointer_read_gave(reads_between(old(self).0, final(self).0), old(self).0.client_module,
                    old(self).0.offsets.global_vars, g.0),
                Err(e) => failed_read(e),
            },
    {
        let base = self.0.client_module;
        let off = self.0.offsets.global_vars;
        let ptr = self.0.pointer_at(base, off)?;
        Ok(GlobalVars(ptr))
    }

    /// The game rules.
    pub fn get_gamerules(&mut self) -> (r: Result<GameRules, RadarError>)
        ensures
            final(self).0.same_game(old(self).0),
            reads_grew(old(self).0, final(self).0),
            match r {
                Ok(g) => pointer_read_gave(reads_between(old(self).0, final(self).0), old(self).0.client_module,
                    old(self).0.offsets.game_rules, g.0),
                Err(e) => failed_read(e),
            },
    {
        let base = self.0.client_module;
        let off = self.0.offsets.game_rules;
        let ptr = self.0.pointer_at(base, off)?;
        Ok(GameRules(ptr))
    }

    /// The entity list.
    pub fn get_entity_list(&mut self) -> (r: Result<u64, RadarError>)
        ensures
            final(self).0.same_game(old(self).0),
            reads_grew(old(self).0, final(self).0),
            match r {
                Ok(list) => pointer_read_gave(reads_between(old(self).0, final(self).0), old(self).0.client_module,
                    old(self).0.offsets.entity_list, list),
                Err(e) => failed_read(e),
            },
    {
        let base = self.0.client_module;
        let off = self.0.offsets.entity_list;
        self.0.pointer_at(base, off)
    }

    /// The highest index in use in the entity list.
    pub fn highest_entity_index(&mut self) -> (r: Result<i32, RadarError>)
        ensures
            final(self).0.same_game(old(self).0),
            reads_grew(old(self).0, final(self).0),
            match r {
                Ok(index) => pointer_then_i32(reads_between(old(self).0, final(self).0), old(self).0.client_module,
                    old(self).0.offsets.game_entity_system, old(self).0.offsets.game_entity_system_highest_entity_index, index),
                Err(e) => failed_read(e),
            },
    {
        let base = self.0.client_module;
        let off = self.0.offsets.game_entity_system;
        let field = self.0.offsets.game_entity_system_highest_entity_index;
        self.0.i32_behind(base, off, field)
    }

    /// Whether the network client is in game: its sign-on state is 6.
    pub fn network_is_ingame(&mut self) -> (r: Result<bool, RadarError>)
        ensures
            final(self).0.same_game(old(self).0),
            reads_grew(old(self).0, final(self).0),
            match r {
                Ok(ingame) => {
                    let t = reads_between(old(self).0, final(self).0);
                    &&& t.len() == 2
                    &&& read_at(t[0], wrap_addr(old(self).0.engine_module + old(self).0.offsets.network_game_client), 8)
                    &&& read_at(t[1], wrap_addr(value_of(t[0]) + old(self).0.offsets.network_game_client_sign_on_state), 4)
                    &&& ingame == (value_of(t[1]) == 6)
                },
                Err(e) => failed_read(e),
            },
    {
        let base = self.0.engine_module;
        let off = self.0.offsets.network_game_client;
        let field = self.0.offsets.network_game_client_sign_on_state;
        let signonstate = self.0.i32_behind(base, off, field)?;
        Ok(signonstate == 6)
    }
}

} // verus!
