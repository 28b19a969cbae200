use vstd::prelude::*;

verus! {

/// Bound on the coordinates the simulation is meant to run in.  Every
/// arithmetic step in the crate stays far below `i64` overflow as long as
/// positions and extents are within this bound.
pub const WORLD_LIMIT: i64 = 0x100_0000_0000;

/// A 2D point or vector on the integer grid the simulation runs on.
#[derive(Clone, Copy, Debug, PartialEq, Eq, Structural)]
pub struct Vec2 {
    pub x: i64,
    pub y: i64,
}

/// An axis-aligned box given by its center and its half-extents.
#[derive(Clone, Copy, Debug, PartialEq, Eq, Structural)]
pub struct Aabb {
    pub center: Vec2,
    pub half: Vec2,
}

pub open spec fn in_world(v: int) -> bool {
    -(WORLD_LIMIT as int) <= v && v <= WORLD_LIMIT as int
}

pub open spec fn vec_in_world(v: Vec2) -> bool {
    in_world(v.x as int) && in_world(v.y as int)
}

/// Half-extents are never negative.
pub open spec fn wf_aabb(b: Aabb) -> bool {
    b.half.x >= 0 && b.half.y >= 0
}

pub open spec fn box_in_world(b: Aabb) -> bool {
    vec_in_world(b.center) && vec_in_world(b.half)
}

pub open spec fn min_x(b: Aabb) -> int {
    b.center.x - b.half.x
}

pub open spec fn max_x(b: Aabb) -> int {
    b.center.x + b.half.x
}

pub open spec fn min_y(b: Aabb) -> int {
    b.center.y - b.half.y
}

pub open spec fn max_y(b: Aabb) -> int {
    b.center.y + b.half.y
}

/// Two boxes overlap when they share interior area; boxes that merely touch
/// along an edge do not overlap.
pub open spec fn overlapping(a: Aabb, b: Aabb) -> bool {
    min_x(a) < max_x(b) && max_x(a) > min_x(b) && min_y(a) < max_y(b) && max_y(a) > min_y(b)
}

/// Executable overlap test, the shared primitive behind every trigger zone.
pub fn overlaps(a: &Aabb, b: &Aabb) -> (r: bool)
    requires
        box_in_world(*a),
        box_in_world(*b),
    ensures
        r == overlapping(*a, *b),
{
    a.center.x - a.half.x < b.center.x + b.half.x && a.center.x + a.half.x > b.center.x - b.half.x
        && a.center.y - a.half.y < b.center.y + b.half.y
        && a.center.y + a.half.y > b.center.y - b.half.y
}

} // verus!
