use vstd::prelude::*;

verus! {

/// A position or a set of angles in the game: three `f32` components, each held as its bit
/// pattern (`f32::to_bits`). The radar only moves these values from the game to its clients,
/// so it keeps them exactly as it read them.
#[derive(Clone, Copy, Debug, PartialEq, Eq, Structural)]
pub struct Vec3 {
    pub x: u32,
    pub y: u32,
    pub z: u32,
}

impl Vec3 {
    /// The all-zero vector, `Vec3::default()` (`0.0` has the all-zero bit pattern).
    pub fn default() -> (r: Vec3)
        ensures
            r == (Vec3 { x: 0, y: 0, z: 0 }),
    {
        Vec3 { x: 0, y: 0, z: 0 }
    }
}

} // verus!
