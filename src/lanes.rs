//! Lane arithmetic on the circular track: six angular sectors, numbered
//! counter-clockwise.

use vstd::prelude::*;

verus! {

/// Number of lanes (angular sectors) of the track.
pub const LANE_COUNT: usize = 6;

/// The lane that a whole sector number falls in: the sector number taken
/// modulo six, always in `0..6`.
pub open spec fn lane_of(sector: int) -> int {
    sector % (LANE_COUNT as int)
}

/// Maps a sector number (the floor of the angle measured in sixths of a turn,
/// less one) to its lane; negative sector numbers wrap around.
pub fn lane_of_sector(sector: i32) -> (lane: usize)
    ensures
        lane as int == lane_of(sector as int),
        lane < LANE_COUNT,
{
    let r: i32 = sector % 6;
    if r < 0 {
        (r + 6) as usize
    } else {
        r as usize
    }
}

/// The lane that an obstacle placed on lane number `lane` occupies.
pub fn spawn_lane(lane: usize) -> (r: usize)
    ensures
        r as int == lane_of(lane as int),
        r < LANE_COUNT,
{
    lane % LANE_COUNT
}

/// Lane number `lane` turned by `offset` sectors, taken modulo six.
pub fn rotate_lane(lane: usize, offset: i32) -> (r: usize)
    ensures
        r as int == lane_of(lane as int + offset as int),
        r < LANE_COUNT,
{
    let a: i32 = (lane % LANE_COUNT) as i32;
    let b: i32 = offset % 6;
    lane_of_sector(a + b)
}

/// Lane numbers repeat every six sectors, and every sector number has a lane.
pub proof fn lemma_lane_periodic(sector: int)
    ensures
        0 <= lane_of(sector) < LANE_COUNT as int,
        lane_of(sector + LANE_COUNT as int) == lane_of(sector),
        lane_of(sector - LANE_COUNT as int) == lane_of(sector),
{
    vstd::arithmetic::div_mod::lemma_mod_add_multiples_vanish(sector, 6);
    vstd::arithmetic::div_mod::lemma_mod_sub_multiples_vanish(sector, 6);
}

} // verus!
