//! Compass directions: quarter-turn rotation and a one-byte codec.
use vstd::prelude::*;

verus! {

/// The offset as a pair of mathematical integers.
pub open spec fn dir_of(d: (i32, i32)) -> (int, int) {
    (d.0 as int, d.1 as int)
}

/// The eight compass directions: offsets in {-1, 0, 1}² other than (0, 0).
pub open spec fn is_compass(d: (int, int)) -> bool {
    -1 <= d.0 <= 1 && -1 <= d.1 <= 1 && !(d.0 == 0 && d.1 == 0)
}

/// The direction a quarter turn (90°) clockwise from `d` on the screen, y
/// pointing down the grid: (1, 0) turns into (0, 1). (0, 0) for anything that
/// is not a compass direction.
pub open spec fn spec_adjacency_right(d: (int, int)) -> (int, int) {
    if is_compass(d) {
        (-d.1, d.0)
    } else {
        (0, 0)
    }
}

/// The direction a quarter turn (90°) counter-clockwise from `d`: (1, 0)
/// turns into (0, -1). (0, 0) for anything that is not a compass direction.
pub open spec fn spec_adjacency_left(d: (int, int)) -> (int, int) {
    if is_compass(d) {
        (d.1, -d.0)
    } else {
        (0, 0)
    }
}

/// The byte that stands for the offset (dx, dy).
pub open spec fn spec_join(dx: int, dy: int) -> int {
    3 * (dx + 1) + (dy + 1)
}

/// The offset that the byte `s` stands for.
pub open spec fn spec_split(s: int) -> (int, int) {
    (s / 3 - 1, s % 3 - 1)
}

pub fn adjacency_right(dir: (i32, i32)) -> (r: (i32, i32))
    ensures
        dir_of(r) == spec_adjacency_right(dir_of(dir)),
{
    let (dx, dy) = dir;
    if -1 <= dx && dx <= 1 && -1 <= dy && dy <= 1 && !(dx == 0 && dy == 0) {
        (-dy, dx)
    } else {
        (0, 0)
    }
}

pub fn adjacency_left(dir: (i32, i32)) -> (r: (i32, i32))
    ensures
        dir_of(r) == spec_adjacency_left(dir_of(dir)),
{
    let (dx, dy) = dir;
    if -1 <= dx && dx <= 1 && -1 <= dy && dy <= 1 && !(dx == 0 && dy == 0) {
        (dy, -dx)
    } else {
        (0, 0)
    }
}

/// Packs an offset in {-1, 0, 1}² into one byte in 0..=8.
pub fn join_dy_dx(dx: i32, dy: i32) -> (r: u8)
    requires
        -1 <= dx <= 1,
        -1 <= dy <= 1,
    ensures
        r as int == spec_join(dx as int, dy as int),
        r <= 8,
{
    (((dx + 1) * 3) + (dy + 1)) as u8
}

/// Unpacks a byte into the offset (s / 3 - 1, s % 3 - 1).
pub fn split_dy_dx(s: u8) -> (r: (i32, i32))
    ensures
        (r.0 as int, r.1 as int) == spec_split(s as int),
        s <= 8 ==> -1 <= r.0 <= 1 && -1 <= r.1 <= 1,
{
    let s: i32 = s as i32;
    let dx: i32 = (s / 3) - 1;
    let dy: i32 = (s % 3) - 1;
    (dx, dy)
}

/// Decoding an encoded offset gives the offset back, for each of the nine
/// offsets in {-1, 0, 1}².
pub proof fn lemma_join_split_round_trip(dx: int, dy: int)
    requires
        -1 <= dx <= 1,
        -1 <= dy <= 1,
    ensures
        spec_split(spec_join(dx, dy)) == (dx, dy),
        0 <= spec_join(dx, dy) <= 8,
{
}

/// Both turns of a compass direction are compass directions perpendicular to
/// it, and they point opposite ways.
pub proof fn lemma_turns_perpendicular(d: (int, int))
    requires
        is_compass(d),
    ensures
        is_compass(spec_adjacency_right(d)),
        is_compass(spec_adjacency_left(d)),
        spec_adjacency_right(d).0 * d.0 + spec_adjacency_right(d).1 * d.1 == 0,
        spec_adjacency_left(d).0 * d.0 + spec_adjacency_left(d).1 * d.1 == 0,
        spec_adjacency_left(d) == (-spec_adjacency_right(d).0, -spec_adjacency_right(d).1),
{
    assert(-d.1 * d.0 + d.0 * d.1 == 0) by (nonlinear_arith);
    assert(d.1 * d.0 + -d.0 * d.1 == 0) by (nonlinear_arith);
}

} // verus!
