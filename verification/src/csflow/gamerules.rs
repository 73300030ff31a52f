use vstd::prelude::*;
use crate::csflow::context::CheatCtx;
use crate::dma::address::wrap_addr;
use crate::dma::process::failed_read;
use crate::dma::trace::{read_at, reads_between, reads_grew, text_at, text_of, value_of};
use crate::error::RadarError;
use crate::csflow::traits::MemoryClass;

verus! {

/// The game rules (`C_CSGameRules`), by their address.
#[derive(Clone, Copy)]
pub struct GameRules(pub u64);

impl MemoryClass for GameRules {
    open spec fn addr(&self) -> u64 {
        self.0
    }

    fn ptr(&self) -> (r: u64) {
        self.0
    }

    fn new(ptr: u64) -> (r: Self) {
        GameRules(ptr)
    }
}

impl GameRules {
    /// Whether the bomb is dropped: the byte `m_bBombDropped` is not zero.
    pub fn bomb_dropped(&self, ctx: &mut CheatCtx) -> (r: Result<bool, RadarError>)
        ensures
            final(ctx).0.same_game(old(ctx).0),
            reads_grew(old(ctx).0, final(ctx).0),
            match r {
                Ok(v) => {
                    let t = reads_between(old(ctx).0, final(ctx).0);
                    t.len() == 1 && read_at(t[0], wrap_addr(self.0 + old(ctx).0.offsets.game_rules_bomb_dropped), 1) && v == (value_of(t[0]) != 0)
                },
                Err(e) => failed_read(e),
            },
    {
        let off = ctx.0.offsets.game_rules_bomb_dropped;
        ctx.0.flag_at(self.0, off)
    }

    /// The number of rounds played (`m_totalRoundsPlayed`).
    pub fn total_rounds_played(&self, ctx: &mut CheatCtx) -> (r: Result<i32, RadarError>)
        ensures
            final(ctx).0.same_game(old(ctx).0),
            reads_grew(old(ctx).0, final(ctx).0),
            match r {
                Ok(v) => {
                    let t = reads_between(old(ctx).0, final(ctx).0);
                    t.len() == 1 && read_at(t[0], wrap_addr(self.0 + old(ctx).0.offsets.game_rules_total_rounds_played), 4) && v == value_of(t[0])
                },
                Err(e) => failed_read(e),
            },
    {
        let off = ctx.0.offsets.game_rules_total_rounds_played;
        ctx.0.i32_at(self.0, off)
    }

    /// The game phase (`m_gamePhase`).
    pub fn game_phase(&self, ctx: &mut CheatCtx) -> (r: Result<i32, RadarError>)
        ensures
            final(ctx).0.same_game(old(ctx).0),
            reads_grew(old(ctx).0, final(ctx).0),
            match r {
                Ok(v) => {
                    let t = reads_between(old(ctx).0, final(ctx).0);
                    t.len() == 1 && read_at(t[0], wrap_addr(self.0 + old(ctx).0.offsets.game_rules_game_phase), 4) && v == value_of(t[0])
                },
                Err(e) => failed_read(e),
            },
    {
        let off = ctx.0.offsets.game_rules_game_phase;
        ctx.0.i32_at(self.0, off)
    }

    /// Whether the bomb is planted: the byte `m_bBombPlanted` is not zero.
    pub fn bomb_planted(&self, ctx: &mut CheatCtx) -> (r: Result<bool, RadarError>)
        ensures
            final(ctx).0.same_game(old(ctx).0),
            reads_grew(old(ctx).0, final(ctx).0),
            match r {
                Ok(v) => {
                    let t = reads_between(old(ctx).0, final(ctx).0);
                    t.len() == 1 && read_at(t[0], wrap_addr(self.0 + old(ctx).0.offsets.game_rules_bomb_planted), 1) && v == (value_of(t[0]) != 0)
                },
                Err(e) => failed_read(e),
            },
    {
        let off = ctx.0.offsets.game_rules_bomb_planted;
        ctx.0.flag_at(self.0, off)
    }
}

} // verus!
