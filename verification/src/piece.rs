//! The six piece kinds, their movement predicates and their signs.
//!
//! Each predicate answers, for a piece of its kind that stands on
//! `(xs, ys)`, whether the move to `(xd, yd)` obeys the movement rule of
//! that kind. Both squares are on the board. No predicate looks at whose
//! turn it is, at check, or at what the destination holds, but for the
//! pawn's single step and its capture: a move onto a piece of the same side
//! passes like any other.

use vstd::prelude::*;
use crate::board::{Board, Tile};
use crate::geometry::{
    abs_diff, direction, distance, is_diagonal, is_straight, on_board, strictly_between,
    tile_index, unit_step,
};

verus! {

/// One of the two opposing players.
#[derive(Clone, Copy, Debug, PartialEq, Eq, PartialOrd, Ord, Structural)]
pub enum Side {
    Black,
    White,
}

impl Side {
    /// The rank direction in which this side's pawns advance: Black toward
    /// higher ranks, White toward lower ones.
    pub open spec fn forward(self) -> int {
        match self {
            Side::Black => 1,
            Side::White => -1,
        }
    }

    /// The rank on which this side's pawns start.
    pub open spec fn pawn_rank(self) -> int {
        match self {
            Side::Black => 1,
            Side::White => 6,
        }
    }
}

/// Whether every square strictly between `(xs, ys)` and `(xd, yd)` is
/// empty. The two ends are not looked at.
pub open spec fn path_clear(tiles: Seq<Tile>, xs: int, ys: int, xd: int, yd: int) -> bool {
    forall|x: int, y: int| #[trigger]
        strictly_between(xs, ys, xd, yd, x, y) ==> tiles[tile_index(x, y)] is Empty
}

/// Whether a straight or diagonal move crosses empty squares only. The scan
/// walks from the square next to the source toward the destination, one
/// unit step at a time, and stops at the first occupied square before the
/// destination; it looks at neither end.
pub fn path_is_clear(board: &Board, xs: usize, ys: usize, xd: usize, yd: usize) -> (clear: bool)
    requires
        on_board(xs as int, ys as int),
        on_board(xd as int, yd as int),
        is_straight(xs as int, ys as int, xd as int, yd as int) || is_diagonal(
            xs as int,
            ys as int,
            xd as int,
            yd as int,
        ),
    ensures
        clear == path_clear(board@, xs as int, ys as int, xd as int, yd as int),
{
    let step_x: isize = unit_step(xs, xd);
    let step_y: isize = unit_step(ys, yd);
    let mut cx: isize = xs as isize + step_x;
    let mut cy: isize = ys as isize + step_y;
    while cx != xd as isize || cy != yd as isize
        invariant
            on_board(xs as int, ys as int),
            on_board(xd as int, yd as int),
            is_straight(xs as int, ys as int, xd as int, yd as int) || is_diagonal(
                xs as int,
                ys as int,
                xd as int,
                yd as int,
            ),
            step_x == direction(xs as int, xd as int),
            step_y == direction(ys as int, yd as int),
            (cx == xd && cy == yd) || strictly_between(
                xs as int,
                ys as int,
                xd as int,
                yd as int,
                cx as int,
                cy as int,
            ),
            forall|x: int, y: int| #[trigger]
                strictly_between(xs as int, ys as int, cx as int, cy as int, x, y)
                    ==> board@[tile_index(x, y)] is Empty,
        decreases distance(cx as int, xd as int) + distance(cy as int, yd as int),
    {
        if let Some(Tile::Occupied(_)) = board.get_tile(cx as usize, cy as usize) {
            return false;
        }
        proof {
            let (nx, ny) = (cx + step_x, cy + step_y);
            let tiles = board@;
            assert forall|x: int, y: int| #[trigger]
                strictly_between(xs as int, ys as int, nx, ny, x, y) implies tiles[tile_index(x, y)]
                is Empty by {
                if x != cx || y != cy {
                    assert(strictly_between(xs as int, ys as int, cx as int, cy as int, x, y));
                }
            }
        }
        cx += step_x;
        cy += step_y;
    }
    true
}

/// A rook of the given side.
#[derive(Clone, Copy, Debug, PartialEq, Eq, Structural)]
pub struct Rook(pub Side);

impl Rook {
    /// A rook moves along a file or a rank, over empty squares only.
    pub open spec fn valid_move(
        self,
        tiles: Seq<Tile>,
        xs: int,
        ys: int,
        xd: int,
        yd: int,
    ) -> bool {
        is_straight(xs, ys, xd, yd) && path_clear(tiles, xs, ys, xd, yd)
    }

    /// Whether this rook may move from `(xs, ys)` to `(xd, yd)`.
    pub fn is_valid_move(
        &self,
        board: &Board,
        xs: usize,
        ys: usize,
        xd: usize,
        yd: usize,
    ) -> (ok: bool)
        requires
            on_board(xs as int, ys as int),
            on_board(xd as int, yd as int),
        ensures
            ok == self.valid_move(board@, xs as int, ys as int, xd as int, yd as int),
    {
        if xs != xd && ys != yd {
            return false;
        }
        path_is_clear(board, xs, ys, xd, yd)
    }

    /// A rook's sign: one character for each side.
    pub open spec fn glyph(self) -> Seq<char> {
        match self.0 {
            Side::Black => seq!['\u{2656}'],
            Side::White => seq!['\u{265c}'],
        }
    }

    /// The sign of this piece as text.
    pub fn to_string(&self) -> (text: String)
        ensures
            text@ == self.glyph(),
    {
        if self.0 == Side::Black {
            proof {
                reveal_strlit("\u{2656}");
            }
            "\u{2656}".to_owned()
        } else {
            proof {
                reveal_strlit("\u{265c}");
            }
            "\u{265c}".to_owned()
        }
    }
}

/// A knight of the given side.
#[derive(Clone, Copy, Debug, PartialEq, Eq, Structural)]
pub struct Knight(pub Side);

impl Knight {
    /// A knight moves two squares along one axis and one along the other,
    /// whatever stands in between.
    pub open spec fn valid_move(
        self,
        tiles: Seq<Tile>,
        xs: int,
        ys: int,
        xd: int,
        yd: int,
    ) -> bool {
        ||| distance(xs, xd) == 2 && distance(ys, yd) == 1
        ||| distance(xs, xd) == 1 && distance(ys, yd) == 2
    }

    /// Whether this knight may move from `(xs, ys)` to `(xd, yd)`. The
    /// board is not looked at.
    pub fn is_valid_move(
        &self,
        board: &Board,
        xs: usize,
        ys: usize,
        xd: usize,
        yd: usize,
    ) -> (ok: bool)
        requires
            on_board(xs as int, ys as int),
            on_board(xd as int, yd as int),
        ensures
            ok == self.valid_move(board@, xs as int, ys as int, xd as int, yd as int),
    {
        let dx: usize = abs_diff(xs, xd);
        let dy: usize = abs_diff(ys, yd);
        (dx == 2 && dy == 1) || (dx == 1 && dy == 2)
    }

    /// A knight's sign: one character for each side.
    pub open spec fn glyph(self) -> Seq<char> {
        match self.0 {
            Side::Black => seq!['\u{2658}'],
            Side::White => seq!['\u{265e}'],
        }
    }

    /// The sign of this piece as text.
    pub fn to_string(&self) -> (text: String)
        ensures
            text@ == self.glyph(),
    {
        if self.0 == Side::Black {
            proof {
                reveal_strlit("\u{2658}");
            }
            "\u{2658}".to_owned()
        } else {
            proof {
                reveal_strlit("\u{265e}");
            }
            "\u{265e}".to_owned()
        }
    }
}

/// A bishop of the given side.
#[derive(Clone, Copy, Debug, PartialEq, Eq, Structural)]
pub struct Bishop(pub Side);

impl Bishop {
    /// A bishop moves along a diagonal, over empty squares only.
    pub open spec fn valid_move(
        self,
        tiles: Seq<Tile>,
        xs: int,
        ys: int,
        xd: int,
        yd: int,
    ) -> bool {
        is_diagonal(xs, ys, xd, yd) && path_clear(tiles, xs, ys, xd, yd)
    }

    /// Whether this bishop may move from `(xs, ys)` to `(xd, yd)`.
    pub fn is_valid_move(
        &self,
        board: &Board,
        xs: usize,
        ys: usize,
        xd: usize,
        yd: usize,
    ) -> (ok: bool)
        requires
            on_board(xs as int, ys as int),
            on_board(xd as int, yd as int),
        ensures
            ok == self.valid_move(board@, xs as int, ys as int, xd as int, yd as int),
    {
        if abs_diff(xs, xd) != abs_diff(ys, yd) {
            return false;
        }
        path_is_clear(board, xs, ys, xd, yd)
    }

    /// A bishop's sign: one character for each side.
    pub open spec fn glyph(self) -> Seq<char> {
        match self.0 {
            Side::Black => seq!['\u{2657}'],
            Side::White => seq!['\u{265d}'],
        }
    }

    /// The sign of this piece as text.
    pub fn to_string(&self) -> (text: String)
        ensures
            text@ == self.glyph(),
    {
        if self.0 == Side::Black {
            proof {
                reveal_strlit("\u{2657}");
            }
            "\u{2657}".to_owned()
        } else {
            proof {
                reveal_strlit("\u{265d}");
            }
            "\u{265d}".to_owned()
        }
    }
}

/// A queen of the given side.
#[derive(Clone, Copy, Debug, PartialEq, Eq, Structural)]
pub struct Queen(pub Side);

impl Queen {
    /// A queen moves as a rook or as a bishop.
    pub open spec fn valid_move(
        self,
        tiles: Seq<Tile>,
        xs: int,
        ys: int,
        xd: int,
        yd: int,
    ) -> bool {
        (is_straight(xs, ys, xd, yd) || is_diagonal(xs, ys, xd, yd)) && path_clear(
            tiles,
            xs,
            ys,
            xd,
            yd,
        )
    }

    /// Whether this queen may move from `(xs, ys)` to `(xd, yd)`.
    pub fn is_valid_move(
        &self,
        board: &Board,
        xs: usize,
        ys: usize,
        xd: usize,
        yd: usize,
    ) -> (ok: bool)
        requires
            on_board(xs as int, ys as int),
            on_board(xd as int, yd as int),
        ensures
            ok == self.valid_move(board@, xs as int, ys as int, xd as int, yd as int),
    {
        let dx: usize = abs_diff(xs, xd);
        let dy: usize = abs_diff(ys, yd);
        if dx != dy && xs != xd && ys != yd {
            return false;
        }
        path_is_clear(board, xs, ys, xd, yd)
    }

    /// A queen's sign: one character for each side.
    pub open spec fn glyph(self) -> Seq<char> {
        match self.0 {
            Side::Black => seq!['\u{2655}'],
            Side::White => seq!['\u{265b}'],
        }
    }

    /// The sign of this piece as text.
    pub fn to_string(&self) -> (text: String)
        ensures
            text@ == self.glyph(),
    {
        if self.0 == Side::Black {
            proof {
                reveal_strlit("\u{2655}");
            }
            "\u{2655}".to_owned()
        } else {
            proof {
                reveal_strlit("\u{265b}");
            }
            "\u{265b}".to_owned()
        }
    }
}

/// A king of the given side.
#[derive(Clone, Copy, Debug, PartialEq, Eq, Structural)]
pub struct King(pub Side);

impl King {
    /// A king moves at most one square along each axis. Staying in place
    /// passes as well.
    pub open spec fn valid_move(
        self,
        tiles: Seq<Tile>,
        xs: int,
        ys: int,
        xd: int,
        yd: int,
    ) -> bool {
        distance(xs, xd) <= 1 && distance(ys, yd) <= 1
    }

    /// Whether this king may move from `(xs, ys)` to `(xd, yd)`. The board
    /// is not looked at.
    pub fn is_valid_move(
        &self,
        board: &Board,
        xs: usize,
        ys: usize,
        xd: usize,
        yd: usize,
    ) -> (ok: bool)
        requires
            on_board(xs as int, ys as int),
            on_board(xd as int, yd as int),
        ensures
            ok == self.valid_move(board@, xs as int, ys as int, xd as int, yd as int),
    {
        let dx: usize = abs_diff(xs, xd);
        let dy: usize = abs_diff(ys, yd);
        dx <= 1 && dy <= 1
    }

    /// A king's sign: one character for each side.
    pub open spec fn glyph(self) -> Seq<char> {
        match self.0 {
            Side::Black => seq!['\u{2654}'],
            Side::White => seq!['\u{265a}'],
        }
    }

    /// The sign of this piece as text.
    pub fn to_string(&self) -> (text: String)
        ensures
            text@ == self.glyph(),
    {
        if self.0 == Side::Black {
            proof {
                reveal_strlit("\u{2654}");
            }
            "\u{2654}".to_owned()
        } else {
            proof {
                reveal_strlit("\u{265a}");
            }
            "\u{265a}".to_owned()
        }
    }
}

/// A pawn of the given side.
#[derive(Clone, Copy, Debug, PartialEq, Eq, Structural)]
pub struct Pawn(pub Side);

impl Pawn {
    /// How many ranks the move from `ys` to `yd` advances a pawn of this
    /// side; negative where it goes backward.
    pub open spec fn advance(self, ys: int, yd: int) -> int {
        match self.0 {
            Side::Black => yd - ys,
            Side::White => ys - yd,
        }
    }

    /// A pawn steps one rank forward onto an empty square, captures one
    /// rank forward and one file aside onto an occupied square, or steps
    /// two ranks forward from its starting rank over an empty square.
    pub open spec fn valid_move(
        self,
        tiles: Seq<Tile>,
        xs: int,
        ys: int,
        xd: int,
        yd: int,
    ) -> bool {
        let forward = self.advance(ys, yd);
        let dx = distance(xs, xd);
        if forward == 1 && dx == 0 {
            tiles[tile_index(xd, yd)] is Empty
        } else if forward == 1 && dx == 1 {
            tiles[tile_index(xd, yd)] is Occupied
        } else if forward == 2 && dx == 0 {
            tiles[tile_index(xs, ys + self.0.forward())] is Empty && ys == self.0.pawn_rank()
        } else {
            false
        }
    }

    /// Whether this pawn may move from `(xs, ys)` to `(xd, yd)`.
    pub fn is_valid_move(
        &self,
        board: &Board,
        xs: usize,
        ys: usize,
        xd: usize,
        yd: usize,
    ) -> (ok: bool)
        requires
            on_board(xs as int, ys as int),
            on_board(xd as int, yd as int),
        ensures
            ok == self.valid_move(board@, xs as int, ys as int, xd as int, yd as int),
    {
        let direction: isize = if self.0 == Side::Black {
            1
        } else {
            -1
        };
        let dy: isize = (yd as isize - ys as isize) * direction;
        let dx: usize = abs_diff(xs, xd);
        if dy == 1 {
            if dx == 0 {
                matches!(board.get_tile(xd, yd), Some(Tile::Empty))
            } else if dx == 1 {
                matches!(board.get_tile(xd, yd), Some(Tile::Occupied(_)))
            } else {
                false
            }
        } else if dy == 2 {
            xs == xd && matches!(
                board.get_tile(xs, (ys as isize + direction) as usize),
                Some(Tile::Empty)
            ) && ((self.0 == Side::White && ys == 6) || (self.0 == Side::Black && ys == 1))
        } else {
            false
        }
    }

    /// A pawn's sign: one character for each side, White's followed by a text-style selector.
    pub open spec fn glyph(self) -> Seq<char> {
        match self.0 {
            Side::Black => seq!['\u{2659}'],
            Side::White => seq!['\u{265f}', '\u{fe0e}'],
        }
    }

    /// The sign of this piece as text.
    pub fn to_string(&self) -> (text: String)
        ensures
            text@ == self.glyph(),
    {
        if self.0 == Side::Black {
            proof {
                reveal_strlit("\u{2659}");
            }
            "\u{2659}".to_owned()
        } else {
            proof {
                reveal_strlit("\u{265f}\u{fe0e}");
            }
            "\u{265f}\u{fe0e}".to_owned()
        }
    }
}

/// A piece of any kind, with its side.
#[derive(Clone, Copy, Debug, PartialEq, Eq, Structural)]
pub enum Piece {
    Pawn(Pawn),
    Knight(Knight),
    Bishop(Bishop),
    Rook(Rook),
    Queen(Queen),
    King(King),
}

impl Piece {
    /// The movement rule of this piece's kind.
    pub open spec fn valid_move(
        self,
        tiles: Seq<Tile>,
        xs: int,
        ys: int,
        xd: int,
        yd: int,
    ) -> bool {
        match self {
            Piece::Pawn(pawn) => pawn.valid_move(tiles, xs, ys, xd, yd),
            Piece::Knight(knight) => knight.valid_move(tiles, xs, ys, xd, yd),
            Piece::Bishop(bishop) => bishop.valid_move(tiles, xs, ys, xd, yd),
            Piece::Rook(rook) => rook.valid_move(tiles, xs, ys, xd, yd),
            Piece::Queen(queen) => queen.valid_move(tiles, xs, ys, xd, yd),
            Piece::King(king) => king.valid_move(tiles, xs, ys, xd, yd),
        }
    }

    /// Asks the predicate of this piece's kind.
    pub fn is_valid_move(
        &self,
        board: &Board,
        xs: usize,
        ys: usize,
        xd: usize,
        yd: usize,
    ) -> (ok: bool)
        requires
            on_board(xs as int, ys as int),
            on_board(xd as int, yd as int),
        ensures
            ok == self.valid_move(board@, xs as int, ys as int, xd as int, yd as int),
    {
        match self {
            Piece::Pawn(pawn) => pawn.is_valid_move(board, xs, ys, xd, yd),
            Piece::Knight(knight) => knight.is_valid_move(board, xs, ys, xd, yd),
            Piece::Bishop(bishop) => bishop.is_valid_move(board, xs, ys, xd, yd),
            Piece::Rook(rook) => rook.is_valid_move(board, xs, ys, xd, yd),
            Piece::Queen(queen) => queen.is_valid_move(board, xs, ys, xd, yd),
            Piece::King(king) => king.is_valid_move(board, xs, ys, xd, yd),
        }
    }

    /// The sign of this piece: that of its kind and side.
    pub open spec fn glyph(self) -> Seq<char> {
        match self {
            Piece::Pawn(pawn) => pawn.glyph(),
            Piece::Knight(knight) => knight.glyph(),
            Piece::Bishop(bishop) => bishop.glyph(),
            Piece::Rook(rook) => rook.glyph(),
            Piece::Queen(queen) => queen.glyph(),
            Piece::King(king) => king.glyph(),
        }
    }

    /// The sign of this piece as text.
    pub fn to_string(&self) -> (text: String)
        ensures
            text@ == self.glyph(),
    {
        match self {
            Piece::Pawn(pawn) => pawn.to_string(),
            Piece::Knight(knight) => knight.to_string(),
            Piece::Bishop(bishop) => bishop.to_string(),
            Piece::Rook(rook) => rook.to_string(),
            Piece::Queen(queen) => queen.to_string(),
            Piece::King(king) => king.to_string(),
        }
    }
}

} // verus!
