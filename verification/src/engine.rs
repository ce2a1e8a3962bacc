//! Judging a proposed move against the piece on its source square, and
//! applying it only where it passes.

use vstd::prelude::*;
use crate::board::{relocate, Board, Tile};
use crate::geometry::{on_board, tile_index};

verus! {

/// Why a proposed move was turned down.
#[derive(Clone, Copy, Debug, PartialEq, Eq, Structural)]
pub enum MoveError {
    /// A coordinate lies off the board.
    OutOfRange,
    /// The source square holds no piece.
    EmptySource,
    /// The piece on the source square does not move that way.
    Illegal,
}

/// The judgement on the move from `(xs, ys)` to `(xd, yd)`: squares off the
/// board are reported first, then an empty source; otherwise the movement
/// rule of the piece on the source decides.
pub open spec fn move_verdict(
    tiles: Seq<Tile>,
    xs: int,
    ys: int,
    xd: int,
    yd: int,
) -> Result<(), MoveError> {
    if !on_board(xs, ys) || !on_board(xd, yd) {
        Err(MoveError::OutOfRange)
    } else {
        match tiles[tile_index(xs, ys)] {
            Tile::Empty => Err(MoveError::EmptySource),
            Tile::Occupied(piece) => if piece.valid_move(tiles, xs, ys, xd, yd) {
                Ok(())
            } else {
                Err(MoveError::Illegal)
            },
        }
    }
}

impl Board {
    /// Judges a proposed move without touching the board.
    pub fn check_move(
        &self,
        xs: usize,
        ys: usize,
        xd: usize,
        yd: usize,
    ) -> (verdict: Result<(), MoveError>)
        ensures
            verdict == move_verdict(self@, xs as int, ys as int, xd as int, yd as int),
    {
        if xd >= 8 || yd >= 8 {
            return Err(MoveError::OutOfRange);
        }
        match self.get_tile(xs, ys) {
            None => Err(MoveError::OutOfRange),
            Some(Tile::Empty) => Err(MoveError::EmptySource),
            Some(Tile::Occupied(piece)) => {
                if piece.is_valid_move(self, xs, ys, xd, yd) {
                    Ok(())
                } else {
                    Err(MoveError::Illegal)
                }
            },
        }
    }

    /// Applies a proposed move where `check_move` accepts it, and leaves
    /// the board as it is where not.
    pub fn make_move(
        &mut self,
        xs: usize,
        ys: usize,
        xd: usize,
        yd: usize,
    ) -> (verdict: Result<(), MoveError>)
        ensures
            verdict == move_verdict(old(self)@, xs as int, ys as int, xd as int, yd as int),
            verdict is Ok ==> final(self)@ == relocate(
                old(self)@,
                xs as int,
                ys as int,
                xd as int,
                yd as int,
            ),
            verdict is Err ==> final(self)@ == old(self)@,
    {
        let verdict = self.check_move(xs, ys, xd, yd);
        if verdict.is_ok() {
            self.execute(xs, ys, xd, yd);
        }
        verdict
    }
}

} // verus!
