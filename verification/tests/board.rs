//! The tile model: the starting position, reading by coordinate, and the
//! unconditional move.

use chess::board::{Board, Tile};
use chess::piece::{Bishop, King, Knight, Pawn, Piece, Queen, Rook, Side};

fn tiles(board: &Board) -> Vec<Tile> {
    let mut all = Vec::new();
    for y in 0..8 {
        for x in 0..8 {
            all.push(*board.get_tile(x, y).unwrap());
        }
    }
    all
}

fn back_rank(side: Side) -> Vec<Tile> {
    vec![
        Tile::Occupied(Piece::Rook(Rook(side))),
        Tile::Occupied(Piece::Knight(Knight(side))),
        Tile::Occupied(Piece::Bishop(Bishop(side))),
        Tile::Occupied(Piece::Queen(Queen(side))),
        Tile::Occupied(Piece::King(King(side))),
        Tile::Occupied(Piece::Bishop(Bishop(side))),
        Tile::Occupied(Piece::Knight(Knight(side))),
        Tile::Occupied(Piece::Rook(Rook(side))),
    ]
}

#[test]
fn starting_position_has_both_sides_in_file_order() {
    let all = tiles(&Board::default());
    assert_eq!(all.len(), 64);
    assert_eq!(all[0..8].to_vec(), back_rank(Side::Black));
    assert_eq!(all[8..16].to_vec(), vec![Tile::Occupied(Piece::Pawn(Pawn(Side::Black))); 8]);
    assert_eq!(all[16..48].to_vec(), vec![Tile::Empty; 32]);
    assert_eq!(all[48..56].to_vec(), vec![Tile::Occupied(Piece::Pawn(Pawn(Side::White))); 8]);
    assert_eq!(all[56..64].to_vec(), back_rank(Side::White));
}

#[test]
fn queens_and_kings_face_each_other() {
    let board = Board::default();
    assert_eq!(board.get_tile(3, 0), Some(&Tile::Occupied(Piece::Queen(Queen(Side::Black)))));
    assert_eq!(board.get_tile(4, 0), Some(&Tile::Occupied(Piece::King(King(Side::Black)))));
    assert_eq!(board.get_tile(3, 7), Some(&Tile::Occupied(Piece::Queen(Queen(Side::White)))));
    assert_eq!(board.get_tile(4, 7), Some(&Tile::Occupied(Piece::King(King(Side::White)))));
}

#[test]
fn index_is_rank_times_eight_plus_file() {
    let board = Board::default();
    assert_eq!(board.get_index(0, 0), 0);
    assert_eq!(board.get_index(3, 2), 19);
    assert_eq!(board.get_index(7, 0), 7);
    assert_eq!(board.get_index(0, 1), 8);
    assert_eq!(board.get_index(7, 7), 63);
    for y in 0..8 {
        for x in 0..8 {
            assert_eq!(board.get_index(x, y), y * 8 + x);
        }
    }
}

#[test]
fn no_two_squares_share_a_tile() {
    let board = Board::default();
    let mut seen = vec![false; 64];
    for y in 0..8 {
        for x in 0..8 {
            let index = board.get_index(x, y);
            assert!(!seen[index]);
            seen[index] = true;
        }
    }
    assert!(seen.iter().all(|&s| s));
}

#[test]
fn squares_off_the_board_have_no_tile() {
    let board = Board::default();
    assert_eq!(board.get_tile(8, 0), None);
    assert_eq!(board.get_tile(0, 8), None);
    assert_eq!(board.get_tile(8, 8), None);
    assert_eq!(board.get_tile(9, 0), None);
    assert_eq!(board.get_tile(1, 9), None);
    assert_eq!(board.get_tile(usize::MAX, 0), None);
    assert_eq!(board.get_tile(0, usize::MAX), None);
    assert_eq!(board.get_tile(usize::MAX, usize::MAX), None);
    assert!(board.get_tile(7, 7).is_some());
}

#[test]
fn execute_relocates_and_empties_the_source() {
    let mut board = Board::default();
    let before = tiles(&board);
    assert!(board.execute(1, 0, 2, 2));
    let after = tiles(&board);
    assert_eq!(after[2 * 8 + 2], Tile::Occupied(Piece::Knight(Knight(Side::Black))));
    assert_eq!(after[1], Tile::Empty);
    for i in 0..64 {
        if i != 1 && i != 18 {
            assert_eq!(after[i], before[i]);
        }
    }
}

#[test]
fn execute_does_not_ask_whether_the_move_is_legal() {
    let mut board = Board::default();
    assert!(!Rook(Side::Black).is_valid_move(&board, 0, 0, 5, 4));
    assert!(board.execute(0, 0, 5, 4));
    assert_eq!(board.get_tile(5, 4), Some(&Tile::Occupied(Piece::Rook(Rook(Side::Black)))));
    assert_eq!(board.get_tile(0, 0), Some(&Tile::Empty));
}

#[test]
fn execute_discards_what_stood_on_the_destination() {
    let mut board = Board::default();
    assert!(board.execute(0, 0, 0, 7));
    assert_eq!(board.get_tile(0, 7), Some(&Tile::Occupied(Piece::Rook(Rook(Side::Black)))));
    assert_eq!(board.get_tile(0, 0), Some(&Tile::Empty));
    let occupied = tiles(&board).iter().filter(|t| **t != Tile::Empty).count();
    assert_eq!(occupied, 31);
}

#[test]
fn execute_from_an_empty_tile_fails_and_changes_nothing() {
    let mut board = Board::default();
    let before = tiles(&board);
    assert!(!board.execute(3, 3, 0, 0));
    assert_eq!(tiles(&board), before);
}

#[test]
fn execute_off_the_board_fails_and_changes_nothing() {
    let mut board = Board::default();
    let before = tiles(&board);
    assert!(!board.execute(8, 0, 0, 3));
    assert!(!board.execute(0, 8, 0, 3));
    assert!(!board.execute(0, 0, 8, 3));
    assert!(!board.execute(0, 0, 0, 8));
    assert!(!board.execute(1, 1, 9, 0));
    assert!(!board.execute(9, 0, 1, 2));
    assert!(!board.execute(usize::MAX, usize::MAX, usize::MAX, usize::MAX));
    assert_eq!(tiles(&board), before);
}

#[test]
fn execute_onto_the_same_square_empties_it() {
    let mut board = Board::default();
    assert!(board.execute(4, 0, 4, 0));
    assert_eq!(board.get_tile(4, 0), Some(&Tile::Empty));
    let occupied = tiles(&board).iter().filter(|t| **t != Tile::Empty).count();
    assert_eq!(occupied, 31);
}

#[test]
fn black_orders_before_white() {
    assert!(Side::Black < Side::White);
    assert_eq!(Side::Black.max(Side::White), Side::White);
    assert_ne!(Side::Black, Side::White);
}
