//! Points, screen corners and the two geometric tests of the recognizer.
//!
//! Positions are whole screen units. Every test is stated over mathematical
//! integers, so nothing here depends on rounding.

use vstd::prelude::*;

verus! {

/// How far from a corner a sample may lie and still count as touching it.
pub const NEAR_TOLERANCE: i32 = 50;

/// Width of the band inside which a move counts as level or as upright, and
/// which both displacements of a diagonal move must exceed.
pub const BORDER_BAND: i32 = 30;

/// One observed pointer position.
#[derive(Clone, Copy, Debug, PartialEq, Eq, Structural)]
pub struct Point {
    pub x: i32,
    pub y: i32,
}

/// The way a move between two corner touches has to run.
#[derive(Clone, Copy, Debug, PartialEq, Eq, Structural)]
pub enum Direction {
    Horizontal,
    Vertical,
    Diagonal,
}

/// The four reference points of a screen.
#[derive(Clone, Copy, Debug, PartialEq, Eq, Structural)]
pub struct Corners {
    pub top_left: Point,
    pub top_right: Point,
    pub bottom_left: Point,
    pub bottom_right: Point,
}

/// The distance between `a` and `b` on one axis.
pub open spec fn gap(a: int, b: int) -> int {
    if a >= b {
        a - b
    } else {
        b - a
    }
}

/// The square of the Euclidean distance between two points.
pub open spec fn squared_distance(p: Point, q: Point) -> int {
    (p.x - q.x) * (p.x - q.x) + (p.y - q.y) * (p.y - q.y)
}

/// `p` lies within `tolerance` of `q`, measured in a straight line. No point
/// is within a negative tolerance.
pub open spec fn near(p: Point, q: Point, tolerance: int) -> bool {
    tolerance >= 0 && squared_distance(p, q) <= tolerance * tolerance
}

/// `p` touches the corner `corner`.
pub open spec fn touches(p: Point, corner: Point) -> bool {
    near(p, corner, NEAR_TOLERANCE as int)
}

/// The move from `from` to `to` runs in `direction`: level moves stay inside
/// the band vertically, upright moves stay inside it horizontally, and a
/// diagonal move leaves the band on both axes while covering at least as much
/// ground sideways as it does up or down.
pub open spec fn border(from: Point, to: Point, direction: Direction) -> bool {
    let dx: int = gap(to.x as int, from.x as int);
    let dy: int = gap(to.y as int, from.y as int);
    match direction {
        Direction::Horizontal => dy < BORDER_BAND,
        Direction::Vertical => dx < BORDER_BAND,
        Direction::Diagonal => dx > BORDER_BAND && dy > BORDER_BAND && dx >= dy,
    }
}

/// The corners of a screen of the given size, with the origin at the top left.
pub open spec fn screen_corners(width: i32, height: i32) -> Corners {
    Corners {
        top_left: Point { x: 0, y: 0 },
        top_right: Point { x: width, y: 0 },
        bottom_left: Point { x: 0, y: height },
        bottom_right: Point { x: width, y: height },
    }
}

/// `p` touches at least one corner of `corners`.
pub open spec fn touches_any(p: Point, corners: Corners) -> bool {
    touches(p, corners.top_left) || touches(p, corners.top_right) || touches(
        p,
        corners.bottom_left,
    ) || touches(p, corners.bottom_right)
}

/// A square never is negative, and the square of a number beyond `bound` in
/// size is beyond the square of `bound`.
pub proof fn lemma_square_bounds(d: int, bound: int)
    requires
        bound >= 0,
    ensures
        d * d >= 0,
        gap(d, 0) <= bound ==> d * d <= bound * bound,
        gap(d, 0) > bound ==> d * d > bound * bound,
{
    assert(d * d >= 0) by (nonlinear_arith);
    if gap(d, 0) <= bound {
        assert(d * d <= bound * bound) by (nonlinear_arith)
            requires
                -bound <= d <= bound,
        ;
    } else {
        assert(d * d > bound * bound) by (nonlinear_arith)
            requires
                bound >= 0,
                d > bound || d < -bound,
        ;
    }
}

impl Corners {
    /// Derives the four corners from the screen's width and height.
    pub fn of_screen(width: i32, height: i32) -> (corners: Corners)
        ensures
            corners == screen_corners(width, height),
    {
        Corners {
            top_left: Point { x: 0, y: 0 },
            top_right: Point { x: width, y: 0 },
            bottom_left: Point { x: 0, y: height },
            bottom_right: Point { x: width, y: height },
        }
    }
}

/// The absolute difference of two coordinates.
pub fn axis_gap(a: i32, b: i32) -> (d: u32)
    ensures
        d == gap(a as int, b as int),
{
    if a >= b {
        (a as i64 - b as i64) as u32
    } else {
        (b as i64 - a as i64) as u32
    }
}

/// The square of the straight-line distance between two points.
pub fn distance_squared(p: &Point, q: &Point) -> (d: u128)
    ensures
        d == squared_distance(*p, *q),
{
    let dx: u128 = axis_gap(p.x, q.x) as u128;
    let dy: u128 = axis_gap(p.y, q.y) as u128;
    proof {
        let ex: int = p.x - q.x;
        let ey: int = p.y - q.y;
        assert(dx * dx == ex * ex) by (nonlinear_arith)
            requires
                dx == ex || dx == -ex,
        ;
        assert(dy * dy == ey * ey) by (nonlinear_arith)
            requires
                dy == ey || dy == -ey,
        ;
        assert(dx * dx <= 0x1_0000_0000 * 0x1_0000_0000) by (nonlinear_arith)
            requires
                0 <= dx <= 0x1_0000_0000,
        ;
        assert(dy * dy <= 0x1_0000_0000 * 0x1_0000_0000) by (nonlinear_arith)
            requires
                0 <= dy <= 0x1_0000_0000,
        ;
    }
    dx * dx + dy * dy
}

/// Whether `p` lies within `tolerance` of `q`.
pub fn is_near(p: &Point, q: &Point, tolerance: i32) -> (hit: bool)
    ensures
        hit == near(*p, *q, tolerance as int),
{
    if tolerance < 0 {
        false
    } else {
        let t: u128 = tolerance as u128;
        proof {
            assert(t * t <= 0x8000_0000 * 0x8000_0000) by (nonlinear_arith)
                requires
                    0 <= t <= 0x8000_0000,
            ;
        }
        distance_squared(p, q) <= t * t
    }
}

/// Whether the move from `from` to `to` runs in `direction`.
pub fn is_border(from: &Point, to: &Point, direction: Direction) -> (ok: bool)
    ensures
        ok == border(*from, *to, direction),
{
    let dx: u32 = axis_gap(to.x, from.x);
    let dy: u32 = axis_gap(to.y, from.y);
    match direction {
        Direction::Horizontal => dy < BORDER_BAND as u32,
        Direction::Vertical => dx < BORDER_BAND as u32,
        Direction::Diagonal => dx > BORDER_BAND as u32 && dy > BORDER_BAND as u32 && dx >= dy,
    }
}

} // verus!
