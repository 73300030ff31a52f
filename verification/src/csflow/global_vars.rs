use vstd::prelude::*;
use crate::csflow::context::CheatCtx;
use crate::dma::address::wrap_addr;
use crate::dma::process::failed_read;
use crate::dma::trace::{read_at, reads_between, reads_grew, text_at, text_of, value_of};
use crate::error::RadarError;
use crate::csflow::traits::MemoryClass;

verus! {

/// The game's global variables (`GlobalVarsBase`), by their address.
#[derive(Clone, Copy)]
pub struct GlobalVars(pub u64);

impl MemoryClass for GlobalVars {
    open spec fn addr(&self) -> u64 {
        self.0
    }

    fn ptr(&self) -> (r: u64) {
        self.0
    }

    fn new(ptr: u64) -> (r: Self) {
        GlobalVars(ptr)
    }
}

impl GlobalVars {
    /// The real time, an `f32` bit pattern (at byte 0).
    pub fn real_time(&self, ctx: &mut CheatCtx) -> (r: Result<u32, RadarError>)
        ensures
            final(ctx).0.same_game(old(ctx).0),
            reads_grew(old(ctx).0, final(ctx).0),
            match r {
                Ok(v) => {
                    let t = reads_between(old(ctx).0, final(ctx).0);
                    t.len() == 1 && read_at(t[0], wrap_addr(self.0 + 0), 4) && v == value_of(t[0])
                },
                Err(e) => failed_read(e),
            },
    {
        ctx.0.f32_bits_at(self.0, 0)
    }

    /// The frame count (at byte 0x4).
    pub fn frame_count(&self, ctx: &mut CheatCtx) -> (r: Result<i32, RadarError>)
        ensures
            final(ctx).0.same_game(old(ctx).0),
            reads_grew(old(ctx).0, final(ctx).0),
            match r {
                Ok(v) => {
                    let t = reads_between(old(ctx).0, final(ctx).0);
                    t.len() == 1 && read_at(t[0], wrap_addr(self.0 + 0x4), 4) && v == value_of(t[0])
                },
                Err(e) => failed_read(e),
            },
    {
        ctx.0.i32_at(self.0, 0x4)
    }

    /// The frame time, an `f32` bit pattern (at byte 0x8).
    pub fn frame_time(&self, ctx: &mut CheatCtx) -> (r: Result<u32, RadarError>)
        ensures
            final(ctx).0.same_game(old(ctx).0),
            reads_grew(old(ctx).0, final(ctx).0),
            match r {
                Ok(v) => {
                    let t = reads_between(old(ctx).0, final(ctx).0);
                    t.len() == 1 && read_at(t[0], wrap_addr(self.0 + 0x8), 4) && v == value_of(t[0])
                },
                Err(e) => failed_read(e),
            },
    {
        ctx.0.f32_bits_at(self.0, 0x8)
    }

    /// The absolute frame time, an `f32` bit pattern (at byte 0xC).
    pub fn absolute_frame_time(&self, ctx: &mut CheatCtx) -> (r: Result<u32, RadarError>)
        ensures
            final(ctx).0.same_game(old(ctx).0),
            reads_grew(old(ctx).0, final(ctx).0),
            match r {
                Ok(v) => {
                    let t = reads_between(old(ctx).0, final(ctx).0);
                    t.len() == 1 && read_at(t[0], wrap_addr(self.0 + 0xC), 4) && v == value_of(t[0])
                },
                Err(e) => failed_read(e),
            },
    {
        ctx.0.f32_bits_at(self.0, 0xC)
    }

    /// The maximum number of clients (at byte 0x10).
    pub fn max_clients(&self, ctx: &mut CheatCtx) -> (r: Result<i32, RadarError>)
        ensures
            final(ctx).0.same_game(old(ctx).0),
            reads_grew(old(ctx).0, final(ctx).0),
            match r {
                Ok(v) => {
                    let t = reads_between(old(ctx).0, final(ctx).0);
                    t.len() == 1 && read_at(t[0], wrap_addr(self.0 + 0x10), 4) && v == value_of(t[0])
                },
                Err(e) => failed_read(e),
            },
    {
        ctx.0.i32_at(self.0, 0x10)
    }

    /// The tick count (at byte 0x40).
    pub fn tick_count(&self, ctx: &mut CheatCtx) -> (r: Result<i32, RadarError>)
        ensures
            final(ctx).0.same_game(old(ctx).0),
            reads_grew(old(ctx).0, final(ctx).0),
            match r {
                Ok(v) => {
                    let t = reads_between(old(ctx).0, final(ctx).0);
                    t.len() == 1 && read_at(t[0], wrap_addr(self.0 + 0x40), 4) && v == value_of(t[0])
                },
                Err(e) => failed_read(e),
            },
    {
        ctx.0.i32_at(self.0, 0x40)
    }

    /// The map's name: the string of up to 32 bytes that byte 0x188 points at.
    pub fn map_name(&self, ctx: &mut CheatCtx) -> (r: Result<String, RadarError>)
        ensures
            final(ctx).0.same_game(old(ctx).0),
            reads_grew(old(ctx).0, final(ctx).0),
            match r {
                Ok(v) => {
                    let t = reads_between(old(ctx).0, final(ctx).0);
                    t.len() == 2 && read_at(t[0], wrap_addr(self.0 + 0x188), 8) && text_at(t[1], value_of(t[0]) as u64, 32) && v@ == text_of(t[1])
                },
                Err(e) => failed_read(e),
            },
    {
        ctx.0.text_behind(self.0, 0x188)
    }
}

} // verus!
