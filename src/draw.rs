use vstd::prelude::*;

verus! {

/// The side of one grid cell on screen, in pixels.
pub const BLOCK_SIZE: i64 = 25;

/// The pixel coordinate of grid coordinate `c`, clamped to the range of `u32`.
pub open spec fn pixel_of(c: int) -> int {
    let p = c * BLOCK_SIZE;
    if p < 0 {
        0
    } else if p > u32::MAX {
        u32::MAX as int
    } else {
        p
    }
}

/// The pixel coordinate of a grid coordinate: negative ones give 0 and those
/// past the range of `u32` give `u32::MAX`.
pub fn to_coord_u32(game_coord: i32) -> (r: u32)
    ensures
        r as int == pixel_of(game_coord as int),
{
    let p: i64 = (game_coord as i64) * BLOCK_SIZE;
    if p < 0 {
        0
    } else if p > u32::MAX as i64 {
        u32::MAX
    } else {
        p as u32
    }
}

} // verus!
