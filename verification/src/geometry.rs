//! Coordinate arithmetic shared by the board and the movement predicates.
//!
//! A square is a pair `(file, rank)`, written `(x, y)`, with both
//! coordinates in `0..8`. A move goes from a source `(xs, ys)` to a
//! destination `(xd, yd)`.

use vstd::prelude::*;

verus! {

/// Whether `(x, y)` names a square of the board.
pub open spec fn on_board(x: int, y: int) -> bool {
    0 <= x < 8 && 0 <= y < 8
}

/// Position of the square `(x, y)` in the rank-major tile sequence.
pub open spec fn tile_index(x: int, y: int) -> int {
    y * 8 + x
}

/// Distance between two coordinates on one axis.
pub open spec fn distance(a: int, b: int) -> int {
    if a <= b {
        b - a
    } else {
        a - b
    }
}

/// The unit step that leads from `from` toward `to` on one axis: the sign
/// of `to - from`.
pub open spec fn direction(from: int, to: int) -> int {
    if from < to {
        1
    } else if to < from {
        -1
    } else {
        0
    }
}

/// Whether `c` lies between `a` and `b`, both excluded.
pub open spec fn strictly_inside(a: int, b: int, c: int) -> bool {
    (a < c && c < b) || (b < c && c < a)
}

/// A move along a file or along a rank.
pub open spec fn is_straight(xs: int, ys: int, xd: int, yd: int) -> bool {
    xs == xd || ys == yd
}

/// A move that covers as many files as ranks.
pub open spec fn is_diagonal(xs: int, ys: int, xd: int, yd: int) -> bool {
    distance(xs, xd) == distance(ys, yd)
}

/// Whether `(x, y)` lies on the line from `(xs, ys)` to `(xd, yd)`, both
/// ends excluded. It is meant for straight and diagonal moves.
pub open spec fn strictly_between(xs: int, ys: int, xd: int, yd: int, x: int, y: int) -> bool {
    if xs == xd {
        x == xs && strictly_inside(ys, yd, y)
    } else if ys == yd {
        y == ys && strictly_inside(xs, xd, x)
    } else {
        &&& strictly_inside(xs, xd, x)
        &&& strictly_inside(ys, yd, y)
        &&& distance(xs, x) == distance(ys, y)
    }
}

/// The coordinate reached after `k` unit steps from `from` toward `to`.
pub open spec fn after_steps(from: int, to: int, k: int) -> int {
    if from < to {
        from + k
    } else if to < from {
        from - k
    } else {
        from
    }
}

/// Number of unit steps that a straight or diagonal move takes.
pub open spec fn step_count(xs: int, ys: int, xd: int, yd: int) -> int {
    if distance(xs, xd) >= distance(ys, yd) {
        distance(xs, xd)
    } else {
        distance(ys, yd)
    }
}

/// Distance between two coordinates on one axis.
pub fn abs_diff(a: usize, b: usize) -> (d: usize)
    ensures
        d == distance(a as int, b as int),
{
    if a <= b {
        b - a
    } else {
        a - b
    }
}

/// The unit step from `from` toward `to`: `1`, `-1`, or `0` where they are
/// equal.
pub fn unit_step(from: usize, to: usize) -> (step: isize)
    ensures
        step == direction(from as int, to as int),
{
    if from < to {
        1
    } else if to < from {
        -1
    } else {
        0
    }
}

} // verus!
