use vstd::prelude::*;

use crate::components::chess_board::ChessBoard;
use crate::components::chess_board::at;
use crate::components::chess_board::board_wf;
use crate::components::chess_board::square_set;
use crate::rules::dist;
use crate::rules::shared_checks;
use crate::rules::shared_move_ok;
use crate::components::chess_piece::ChessPiece;

verus! {

/// Whether a knight standing on the start square may move to the target
/// square: the shared preconditions hold and the displacement is one of the
/// eight L-shaped offsets. Knights jump, so no square between the two is
/// inspected.
pub open spec fn move_ok(
    b: Seq<Seq<ChessPiece>>,
    start_rank: int,
    start_file: int,
    target_rank: int,
    target_file: int,
) -> bool {
    &&& shared_move_ok(b, start_rank, start_file, target_rank, target_file)
    &&& {
        ||| dist(start_rank, target_rank) == 2 && dist(start_file, target_file) == 1
        ||| dist(start_rank, target_rank) == 1 && dist(start_file, target_file) == 2
    }
}

/// Validates a potential knight move.
pub fn is_valid_move(
    start_rank: u8,
    start_file: u8,
    target_rank: u8,
    target_file: u8,
    chess_board: &ChessBoard,
) -> (r: bool)
    requires
        start_rank < 8,
        start_file < 8,
    ensures
        r == move_ok(
            chess_board@,
            start_rank as int,
            start_file as int,
            target_rank as int,
            target_file as int,
        ),
{
    if !shared_checks(chess_board, start_rank, start_file, target_rank, target_file) {
        return false;
    }
    // Ensure move is a valid pattern for a knight
    let rank_dist: u8 = if start_rank >= target_rank {
        start_rank - target_rank
    } else {
        target_rank - start_rank
    };
    let file_dist: u8 = if start_file >= target_file {
        start_file - target_file
    } else {
        target_file - start_file
    };
    (rank_dist == 2 && file_dist == 1) || (rank_dist == 1 && file_dist == 2)
}

/// Knights jump: the rule reads only the start and target squares, so
/// overwriting any other square — in particular one strictly between the two
/// — leaves a knight move's legality unchanged.
pub proof fn lemma_move_ok_ignores_other_squares(
    b: Seq<Seq<ChessPiece>>,
    start_rank: int,
    start_file: int,
    target_rank: int,
    target_file: int,
    other_rank: int,
    other_file: int,
    p: ChessPiece,
)
    requires
        board_wf(b),
        0 <= start_rank < 8,
        0 <= start_file < 8,
        0 <= other_rank < 8,
        0 <= other_file < 8,
        !(other_rank == start_rank && other_file == start_file),
        !(other_rank == target_rank && other_file == target_file),
    ensures
        move_ok(
            square_set(b, other_rank, other_file, p),
            start_rank,
            start_file,
            target_rank,
            target_file,
        ) == move_ok(b, start_rank, start_file, target_rank, target_file),
{
    let b2 = square_set(b, other_rank, other_file, p);
    assert(at(b2, start_rank, start_file) == at(b, start_rank, start_file));
    if 0 <= target_rank < 8 && 0 <= target_file < 8 {
        assert(at(b2, target_rank, target_file) == at(b, target_rank, target_file));
    }
}

} // verus!
