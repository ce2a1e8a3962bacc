//! What holds of the movement rules and of move application, for every
//! board and every move. Boards are given as their sixty-four tiles.

use vstd::prelude::*;
use crate::board::{can_relocate, relocate, starting_tile, starting_tiles, Tile};
use crate::geometry::{
    after_steps, distance, is_diagonal, is_straight, on_board, step_count, strictly_between,
    tile_index,
};
use crate::piece::{Bishop, King, Knight, Pawn, Piece, Queen, Rook};

verus! {

/// Whether a piece slides: rook, bishop and queen do.
pub open spec fn slides(piece: Piece) -> bool {
    piece is Rook || piece is Bishop || piece is Queen
}

/// The eight jumps of a knight, as `(dx, dy)`.
pub open spec fn knight_jumps() -> Set<(int, int)> {
    set![
        (1int, 2int),
        (1int, -2int),
        (-1int, 2int),
        (-1int, -2int),
        (2int, 1int),
        (2int, -1int),
        (-2int, 1int),
        (-2int, -1int),
    ]
}

/// In the starting position every square of the board holds its starting
/// tile.
pub proof fn starting_position_by_square(x: int, y: int)
    requires
        on_board(x, y),
    ensures
        starting_tiles().len() == 64,
        starting_tiles()[tile_index(x, y)] == starting_tile(x, y),
{
}

/// On a straight or diagonal line, the squares strictly between source and
/// destination are those that the unit-step walk from the source reaches
/// before it arrives.
pub proof fn squares_between_are_the_steps_of_the_walk(
    xs: int,
    ys: int,
    xd: int,
    yd: int,
    x: int,
    y: int,
)
    requires
        is_straight(xs, ys, xd, yd) || is_diagonal(xs, ys, xd, yd),
    ensures
        strictly_between(xs, ys, xd, yd, x, y) <==> exists|k: int|
            1 <= k < step_count(xs, ys, xd, yd) && x == #[trigger] after_steps(xs, xd, k) && y
                == after_steps(ys, yd, k),
{
    if strictly_between(xs, ys, xd, yd, x, y) {
        let k = if distance(xs, x) >= distance(ys, y) {
            distance(xs, x)
        } else {
            distance(ys, y)
        };
        assert(1 <= k < step_count(xs, ys, xd, yd) && x == after_steps(xs, xd, k) && y
            == after_steps(ys, yd, k));
    }
}

/// A sliding piece moves only where every square strictly between source
/// and destination is empty.
pub proof fn sliding_move_crosses_only_empty_squares(
    piece: Piece,
    tiles: Seq<Tile>,
    xs: int,
    ys: int,
    xd: int,
    yd: int,
)
    requires
        slides(piece),
        piece.valid_move(tiles, xs, ys, xd, yd),
    ensures
        forall|x: int, y: int| #[trigger]
            strictly_between(xs, ys, xd, yd, x, y) ==> tiles[tile_index(x, y)] is Empty,
{
}

/// A piece put on any square strictly between source and destination makes
/// the move of a sliding piece illegal, whatever else the board holds.
pub proof fn blocker_stops_sliding_move(
    piece: Piece,
    blocker: Piece,
    tiles: Seq<Tile>,
    xs: int,
    ys: int,
    xd: int,
    yd: int,
    x: int,
    y: int,
)
    requires
        tiles.len() == 64,
        on_board(xs, ys),
        on_board(xd, yd),
        slides(piece),
        strictly_between(xs, ys, xd, yd, x, y),
    ensures
        !piece.valid_move(
            tiles.update(tile_index(x, y), Tile::Occupied(blocker)),
            xs,
            ys,
            xd,
            yd,
        ),
{
}

/// A queen moves exactly where a rook or a bishop would.
pub proof fn queen_moves_as_rook_or_bishop(
    queen: Queen,
    rook: Rook,
    bishop: Bishop,
    tiles: Seq<Tile>,
    xs: int,
    ys: int,
    xd: int,
    yd: int,
)
    ensures
        queen.valid_move(tiles, xs, ys, xd, yd) <==> rook.valid_move(tiles, xs, ys, xd, yd)
            || bishop.valid_move(tiles, xs, ys, xd, yd),
{
}

/// A knight's move is legal exactly where `(dx, dy)` is one of the eight
/// jumps, and the board plays no part in it.
pub proof fn knight_moves_are_the_eight_jumps(
    knight: Knight,
    tiles: Seq<Tile>,
    other: Seq<Tile>,
    xs: int,
    ys: int,
    xd: int,
    yd: int,
)
    ensures
        knight.valid_move(tiles, xs, ys, xd, yd) <==> knight_jumps().contains((xd - xs, yd - ys)),
        knight.valid_move(tiles, xs, ys, xd, yd) == knight.valid_move(other, xs, ys, xd, yd),
{
}

/// A king's move to another square is legal exactly where `dx` and `dy`
/// are each -1, 0 or 1, which is where the move takes a single step, and
/// the board plays no part in it.
pub proof fn king_moves_are_the_single_steps(
    king: King,
    tiles: Seq<Tile>,
    other: Seq<Tile>,
    xs: int,
    ys: int,
    xd: int,
    yd: int,
)
    requires
        xs != xd || ys != yd,
    ensures
        king.valid_move(tiles, xs, ys, xd, yd) <==> {
            &&& -1 <= xd - xs <= 1
            &&& -1 <= yd - ys <= 1
            &&& !(xd - xs == 0 && yd - ys == 0)
        },
        king.valid_move(tiles, xs, ys, xd, yd) <==> step_count(xs, ys, xd, yd) == 1,
        king.valid_move(tiles, xs, ys, xd, yd) == king.valid_move(other, xs, ys, xd, yd),
{
}

/// A pawn's move over two ranks is legal only from its side's starting
/// rank, along its file, and only where the square right ahead of it is
/// empty.
pub proof fn pawn_double_step_needs_start_rank_and_free_square(
    pawn: Pawn,
    tiles: Seq<Tile>,
    xs: int,
    ys: int,
    xd: int,
    yd: int,
)
    requires
        distance(ys, yd) == 2,
        pawn.valid_move(tiles, xs, ys, xd, yd),
    ensures
        ys == pawn.0.pawn_rank(),
        xd == xs,
        yd == ys + 2 * pawn.0.forward(),
        tiles[tile_index(xs, ys + pawn.0.forward())] is Empty,
{
}

/// A pawn's legal move to another file ends on an occupied square, and its
/// legal move of one rank along its file ends on an empty one.
pub proof fn pawn_captures_aside_and_steps_onto_empty(
    pawn: Pawn,
    tiles: Seq<Tile>,
    xs: int,
    ys: int,
    xd: int,
    yd: int,
)
    requires
        pawn.valid_move(tiles, xs, ys, xd, yd),
    ensures
        xs != xd ==> tiles[tile_index(xd, yd)] is Occupied,
        xs == xd && distance(ys, yd) == 1 ==> tiles[tile_index(xd, yd)] is Empty,
{
}

/// Moving a piece to another square and back leaves the destination empty:
/// the board is as before exactly where the destination was empty, and a
/// piece that stood there is gone for good.
pub proof fn move_and_back_loses_the_captured_piece(
    tiles: Seq<Tile>,
    xs: int,
    ys: int,
    xd: int,
    yd: int,
)
    requires
        tiles.len() == 64,
        can_relocate(tiles, xs, ys, xd, yd),
        xs != xd || ys != yd,
    ensures
        can_relocate(relocate(tiles, xs, ys, xd, yd), xd, yd, xs, ys),
        relocate(relocate(tiles, xs, ys, xd, yd), xd, yd, xs, ys) == tiles.update(
            tile_index(xd, yd),
            Tile::Empty,
        ),
        relocate(relocate(tiles, xs, ys, xd, yd), xd, yd, xs, ys) == tiles
            <==> tiles[tile_index(xd, yd)] is Empty,
{
    let there = relocate(tiles, xs, ys, xd, yd);
    let back = relocate(there, xd, yd, xs, ys);
    if tiles[tile_index(xd, yd)] is Empty {
        assert(back =~= tiles);
    }
}

} // verus!
