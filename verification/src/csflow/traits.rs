use vstd::prelude::*;
use crate::csflow::context::CheatCtx;
use crate::error::RadarError;
use crate::structs::vec3::Vec3;

verus! {

/// A class of the game's represented by a single pointer.
pub trait MemoryClass: Sized {
    /// The address of the object.
    spec fn addr(&self) -> u64;

    fn ptr(&self) -> (r: u64)
        ensures
            r == self.addr();

    fn new(ptr: u64) -> (r: Self)
        ensures
            r.addr() == ptr;
}

/// Functions from `C_BaseEntity`, which `CCSPlayerController` inherits.
pub trait BaseEntity: Sized {
    fn from_index(ctx: &mut CheatCtx, entity_list: u64, index: i32) -> Result<Option<Self>, RadarError>;

    fn pos(&self, ctx: &mut CheatCtx) -> Result<Vec3, RadarError>;

    fn class_name(&self, ctx: &mut CheatCtx) -> Result<String, RadarError>;
}

} // verus!
