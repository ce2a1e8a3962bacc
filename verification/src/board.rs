//! The board: sixty-four tiles, read by coordinate and written only by
//! applying a move.

use vstd::prelude::*;
use vstd::string::StringExecFns;
use crate::geometry::{on_board, tile_index};
use crate::piece::{Bishop, King, Knight, Pawn, Piece, Queen, Rook, Side};

verus! {

/// One square of the board: empty, or holding exactly one piece.
#[derive(Clone, Copy, Debug, PartialEq, Eq, Structural)]
pub enum Tile {
    Empty,
    Occupied(Piece),
}

/// The piece that stands on `file` of a side's back rank at the start:
/// rook, knight, bishop, queen, king, bishop, knight, rook.
pub open spec fn back_rank_piece(file: int, side: Side) -> Piece {
    if file == 0 || file == 7 {
        Piece::Rook(Rook(side))
    } else if file == 1 || file == 6 {
        Piece::Knight(Knight(side))
    } else if file == 2 || file == 5 {
        Piece::Bishop(Bishop(side))
    } else if file == 3 {
        Piece::Queen(Queen(side))
    } else {
        Piece::King(King(side))
    }
}

/// The tile of `(x, y)` in the starting position. Black holds ranks 0 and
/// 1, White ranks 7 and 6, each side with its pawns on the inner rank; the
/// four ranks in the middle are empty.
pub open spec fn starting_tile(x: int, y: int) -> Tile {
    if y == 0 {
        Tile::Occupied(back_rank_piece(x, Side::Black))
    } else if y == 1 {
        Tile::Occupied(Piece::Pawn(Pawn(Side::Black)))
    } else if y == 6 {
        Tile::Occupied(Piece::Pawn(Pawn(Side::White)))
    } else if y == 7 {
        Tile::Occupied(back_rank_piece(x, Side::White))
    } else {
        Tile::Empty
    }
}

/// The starting position, rank by rank.
pub open spec fn starting_tiles() -> Seq<Tile> {
    Seq::new(64, |i: int| starting_tile(i % 8, i / 8))
}

/// Whether `execute` has something to move: both squares are on the board
/// and the source holds a piece.
pub open spec fn can_relocate(tiles: Seq<Tile>, xs: int, ys: int, xd: int, yd: int) -> bool {
    on_board(xs, ys) && on_board(xd, yd) && tiles[tile_index(xs, ys)] is Occupied
}

/// The tiles after the content of `(xs, ys)` went to `(xd, yd)`: the
/// destination holds what the source held, whatever stood there before is
/// gone, and the source is empty. Where the two squares are the same, that
/// square ends up empty.
pub open spec fn relocate(tiles: Seq<Tile>, xs: int, ys: int, xd: int, yd: int) -> Seq<Tile> {
    tiles.update(tile_index(xd, yd), tiles[tile_index(xs, ys)]).update(
        tile_index(xs, ys),
        Tile::Empty,
    )
}

/// The text of one tile: the sign of its piece, or `*` where it is empty.
pub open spec fn tile_text(tile: Tile) -> Seq<char> {
    match tile {
        Tile::Empty => seq!['*'],
        Tile::Occupied(piece) => piece.glyph(),
    }
}

/// The text of the first `files` tiles of rank `y`, in file order.
pub open spec fn tiles_text(tiles: Seq<Tile>, y: int, files: nat) -> Seq<char> {
    Seq::new(files, |x: int| tile_text(tiles[tile_index(x, y)])).flatten()
}

/// The text of rank `y`: its eight tiles in file order, then a line feed.
pub open spec fn rank_text(tiles: Seq<Tile>, y: int) -> Seq<char> {
    tiles_text(tiles, y, 8) + seq!['\n']
}

/// The text of the first `ranks` ranks, rank 0 first.
pub open spec fn ranks_text(tiles: Seq<Tile>, ranks: nat) -> Seq<char> {
    Seq::new(ranks, |y: int| rank_text(tiles, y)).flatten()
}

/// The text of the whole board: eight lines of eight tiles each.
pub open spec fn board_text(tiles: Seq<Tile>) -> Seq<char> {
    ranks_text(tiles, 8)
}

/// The tiles of a board, rank by rank: the tile of `(file, rank)` stands at
/// `rank * 8 + file`.
pub struct Board {
    state: Vec<Tile>,
}

impl View for Board {
    type V = Seq<Tile>;

    closed spec fn view(&self) -> Seq<Tile> {
        self.state@
    }
}

fn back_rank(file: usize, side: Side) -> (piece: Piece)
    ensures
        piece == back_rank_piece(file as int, side),
{
    if file == 0 || file == 7 {
        Piece::Rook(Rook(side))
    } else if file == 1 || file == 6 {
        Piece::Knight(Knight(side))
    } else if file == 2 || file == 5 {
        Piece::Bishop(Bishop(side))
    } else if file == 3 {
        Piece::Queen(Queen(side))
    } else {
        Piece::King(King(side))
    }
}

fn starting(x: usize, y: usize) -> (tile: Tile)
    ensures
        tile == starting_tile(x as int, y as int),
{
    if y == 0 {
        Tile::Occupied(back_rank(x, Side::Black))
    } else if y == 1 {
        Tile::Occupied(Piece::Pawn(Pawn(Side::Black)))
    } else if y == 6 {
        Tile::Occupied(Piece::Pawn(Pawn(Side::White)))
    } else if y == 7 {
        Tile::Occupied(back_rank(x, Side::White))
    } else {
        Tile::Empty
    }
}

impl Board {
    #[verifier::type_invariant]
    spec fn has_all_tiles(&self) -> bool {
        self.state@.len() == 64
    }

    /// Position of the square `(x, y)` in the tile sequence.
    pub fn get_index(&self, x: usize, y: usize) -> (index: usize)
        requires
            on_board(x as int, y as int),
        ensures
            index == tile_index(x as int, y as int),
            index < 64,
    {
        y * 8 + x
    }

    /// The tile at `(x, y)`, or `None` where the square is off the board.
    pub fn get_tile(&self, x: usize, y: usize) -> (tile: Option<&Tile>)
        ensures
            self@.len() == 64,
            match tile {
                Some(t) => on_board(x as int, y as int) && *t == self@[tile_index(
                    x as int,
                    y as int,
                )],
                None => !on_board(x as int, y as int),
            },
    {
        proof {
            use_type_invariant(self);
        }
        if x < 8 && y < 8 {
            self.state.get(self.get_index(x, y))
        } else {
            None
        }
    }

    /// Moves whatever stands on `(xs, ys)` to `(xd, yd)` without asking
    /// whether the move is legal. A piece on the destination is discarded
    /// and the source is left empty. Where a square is off the board or the
    /// source is empty, nothing changes and the result is `false`.
    pub fn execute(&mut self, xs: usize, ys: usize, xd: usize, yd: usize) -> (moved: bool)
        ensures
            old(self)@.len() == 64,
            final(self)@.len() == 64,
            moved == can_relocate(old(self)@, xs as int, ys as int, xd as int, yd as int),
            moved ==> final(self)@ == relocate(
                old(self)@,
                xs as int,
                ys as int,
                xd as int,
                yd as int,
            ),
            !moved ==> final(self)@ == old(self)@,
    {
        proof {
            use_type_invariant(&*self);
        }
        let piece: Tile = match self.get_tile(xs, ys) {
            Some(Tile::Occupied(piece)) => Tile::Occupied(*piece),
            _ => {
                return false;
            },
        };
        if xd >= 8 || yd >= 8 {
            return false;
        }
        let index_s: usize = self.get_index(xs, ys);
        let index_d: usize = self.get_index(xd, yd);
        self.state[index_d] = piece;
        self.state[index_s] = Tile::Empty;
        true
    }

    /// The board as text, for a terminal: one line for each rank, rank 0
    /// first, with the sign of each piece and `*` for an empty tile.
    pub fn to_string(&self) -> (text: String)
        ensures
            text@ == board_text(self@),
    {
        let mut text: String = String::new();
        let mut y: usize = 0;
        while y < 8
            invariant
                y <= 8,
                text@ == ranks_text(self@, y as nat),
            decreases 8 - y,
        {
            let mut x: usize = 0;
            while x < 8
                invariant
                    y < 8,
                    x <= 8,
                    text@ == ranks_text(self@, y as nat) + tiles_text(self@, y as int, x as nat),
                decreases 8 - x,
            {
                let ghost sign: Seq<char> = tile_text(self@[tile_index(x as int, y as int)]);
                match self.get_tile(x, y) {
                    Some(Tile::Occupied(piece)) => {
                        let glyph: String = piece.to_string();
                        text.append(glyph.as_str());
                    },
                    _ => {
                        proof {
                            reveal_strlit("*");
                        }
                        text.append("*");
                    },
                }
                proof {
                    let shown = Seq::new(
                        x as nat,
                        |f: int| tile_text(self@[tile_index(f, y as int)]),
                    );
                    let next = Seq::new(
                        (x + 1) as nat,
                        |f: int| tile_text(self@[tile_index(f, y as int)]),
                    );
                    assert(next =~= shown.push(sign));
                    shown.lemma_flatten_push(sign);
                }
                x += 1;
            }
            proof {
                reveal_strlit("\n");
            }
            text.append("\n");
            proof {
                let shown = Seq::new(y as nat, |r: int| rank_text(self@, r));
                let next = Seq::new((y + 1) as nat, |r: int| rank_text(self@, r));
                assert(next =~= shown.push(rank_text(self@, y as int)));
                shown.lemma_flatten_push(rank_text(self@, y as int));
            }
            y += 1;
        }
        text
    }
}

impl Default for Board {
    /// The starting position.
    fn default() -> (board: Board)
        ensures
            board@ == starting_tiles(),
    {
        let mut state: Vec<Tile> = Vec::new();
        let mut y: usize = 0;
        while y < 8
            invariant
                y <= 8,
                state@.len() == y * 8,
                forall|i: int| 0 <= i < state@.len() ==> state@[i] == starting_tile(i % 8, i / 8),
            decreases 8 - y,
        {
            let mut x: usize = 0;
            while x < 8
                invariant
                    y < 8,
                    x <= 8,
                    state@.len() == y * 8 + x,
                    forall|i: int|
                        0 <= i < state@.len() ==> state@[i] == starting_tile(i % 8, i / 8),
                decreases 8 - x,
            {
                state.push(starting(x, y));
                x += 1;
            }
            y += 1;
        }
        Board { state }
    }
}

} // verus!
