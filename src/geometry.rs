//! Positions in world coordinates and the range test of the host's movement
//! and interaction primitives.
use vstd::prelude::*;

verus! {

/// A position on the world grid: a room's tile expressed as one pair of world
/// coordinates, so that positions in neighbouring rooms are comparable.
#[derive(Clone, Copy, Debug, PartialEq, Eq, Structural)]
pub struct Pos {
    pub x: i32,
    pub y: i32,
}

pub open spec fn abs_int(v: int) -> int {
    if v < 0 { -v } else { v }
}

/// Chebyshev distance: the number of single-tile steps, diagonals included,
/// between two positions.
pub open spec fn distance(a: Pos, b: Pos) -> int {
    let dx = abs_int(a.x - b.x);
    let dy = abs_int(a.y - b.y);
    if dx >= dy { dx } else { dy }
}

/// Distance from `a` to `b`, the greater of the two coordinate differences.
pub fn range_to(a: Pos, b: Pos) -> (r: u32)
    ensures
        r as int == distance(a, b),
{
    let dx: i64 = a.x as i64 - b.x as i64;
    let dy: i64 = a.y as i64 - b.y as i64;
    let ax: i64 = if dx < 0 { -dx } else { dx };
    let ay: i64 = if dy < 0 { -dy } else { dy };
    assert(ax <= 0xffff_ffff && ay <= 0xffff_ffff);
    if ax >= ay {
        ax as u32
    } else {
        ay as u32
    }
}

/// Whether `b` lies within `range` steps of `a`.
pub fn in_range_to(a: Pos, b: Pos, range: u32) -> (r: bool)
    ensures
        r == (distance(a, b) <= range),
{
    range_to(a, b) <= range
}

} // verus!
