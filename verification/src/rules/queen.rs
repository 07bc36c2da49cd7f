use vstd::prelude::*;

use crate::components::chess_board::ChessBoard;
use crate::components::chess_piece::ChessPiece;
use crate::rules::bishop;
use crate::rules::rook;

verus! {

/// Whether a queen standing on the start square may move to the target
/// square: the bishop rule or the rook rule holds. The queen has no
/// obstruction logic of its own; it is a pure composition of the two.
pub open spec fn move_ok(
    b: Seq<Seq<ChessPiece>>,
    start_rank: int,
    start_file: int,
    target_rank: int,
    target_file: int,
) -> bool {
    ||| bishop::move_ok(b, start_rank, start_file, target_rank, target_file)
    ||| rook::move_ok(b, start_rank, start_file, target_rank, target_file)
}

/// Validates a potential queen move.
pub fn is_valid_move(
    start_rank: u8,
    start_file: u8,
    target_rank: u8,
    target_file: u8,
    chess_board: &ChessBoard,
) -> (r: bool)
    requires
        start_rank < 8,
        start_file < 8,
    ensures
        r == move_ok(
            chess_board@,
            start_rank as int,
            start_file as int,
            target_rank as int,
            target_file as int,
        ),
{
    bishop::is_valid_move(start_rank, start_file, target_rank, target_file, chess_board)
        || rook::is_valid_move(start_rank, start_file, target_rank, target_file, chess_board)
}

} // verus!
