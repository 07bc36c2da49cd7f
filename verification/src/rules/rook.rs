use vstd::prelude::*;

use crate::components::chess_board::ChessBoard;
use crate::components::chess_board::at;
use crate::components::chess_board::board_wf;
use crate::components::chess_board::square_set;
use crate::components::chess_piece::ChessPiece;
use crate::rules::file_path_clear;
use crate::rules::rank_path_clear;
use crate::rules::shared_checks;
use crate::rules::shared_move_ok;

verus! {

/// Whether a rook standing on the start square may move to the target
/// square: the shared preconditions hold, exactly one of rank or file
/// changes, and every square strictly between the two along that axis is
/// empty.
pub open spec fn move_ok(
    b: Seq<Seq<ChessPiece>>,
    start_rank: int,
    start_file: int,
    target_rank: int,
    target_file: int,
) -> bool {
    &&& shared_move_ok(b, start_rank, start_file, target_rank, target_file)
    &&& (start_file == target_file || start_rank == target_rank)
    &&& if start_file == target_file {
        file_path_clear(b, start_file, start_rank, target_rank)
    } else {
        rank_path_clear(b, start_rank, start_file, target_file)
    }
}

/// Validates a potential rook move.
pub fn is_valid_move(
    start_rank: u8,
    start_file: u8,
    target_rank: u8,
    target_file: u8,
    chess_board: &ChessBoard,
) -> (r: bool)
    requires
        start_rank < 8,
        start_file < 8,
    ensures
        r == move_ok(
            chess_board@,
            start_rank as int,
            start_file as int,
            target_rank as int,
            target_file as int,
        ),
{
    if !shared_checks(chess_board, start_rank, start_file, target_rank, target_file) {
        return false;
    }
    // Ensure start and target share a file or rank
    if start_file != target_file && start_rank != target_rank {
        return false;
    }
    // For vertical movement, ensure all spaces between start and target are empty
    if start_file == target_file {
        let lo: u8 = if target_rank > start_rank {
            start_rank
        } else {
            target_rank
        };
        let hi: u8 = if target_rank > start_rank {
            target_rank
        } else {
            start_rank
        };
        let mut current_rank: u8 = lo + 1;
        while current_rank < hi
            invariant
                lo < hi < 8,
                lo + 1 <= current_rank <= hi,
                lo == start_rank || lo == target_rank,
                hi == start_rank || hi == target_rank,
                start_file < 8,
                forall|r: int|
                    lo < r < current_rank ==> crate::components::chess_board::at(
                        chess_board@,
                        r,
                        start_file as int,
                    ).spec_is_empty(),
            decreases hi - current_rank,
        {
            if !chess_board.borrow_space_contents(current_rank, start_file).is_empty() {
                return false;
            }
            current_rank += 1;
        }
    // For horizontal movement, ensure all spaces between start and target are empty
    } else {
        let lo: u8 = if target_file > start_file {
            start_file
        } else {
            target_file
        };
        let hi: u8 = if target_file > start_file {
            target_file
        } else {
            start_file
        };
        let mut current_file: u8 = lo + 1;
        while current_file < hi
            invariant
                lo < hi < 8,
                lo + 1 <= current_file <= hi,
                lo == start_file || lo == target_file,
                hi == start_file || hi == target_file,
                start_rank < 8,
                forall|f: int|
                    lo < f < current_file ==> crate::components::chess_board::at(
                        chess_board@,
                        start_rank as int,
                        f,
                    ).spec_is_empty(),
            decreases hi - current_file,
        {
            if !chess_board.borrow_space_contents(start_rank, current_file).is_empty() {
                return false;
            }
            current_file += 1;
        }
    }
    // Passed all checks
    true
}

/// Rooks do not jump: a legal rook move turns illegal as soon as any square
/// strictly between start and target along the move's axis is occupied. The
/// occupied square is (`other_rank`, `other_file`); the preconditions place
/// it strictly between the two ends.
pub proof fn lemma_interposition_blocks(
    b: Seq<Seq<ChessPiece>>,
    start_rank: int,
    start_file: int,
    target_rank: int,
    target_file: int,
    other_rank: int,
    other_file: int,
    p: ChessPiece,
)
    requires
        board_wf(b),
        0 <= start_rank < 8,
        0 <= start_file < 8,
        move_ok(b, start_rank, start_file, target_rank, target_file),
        if start_file == target_file {
            other_file == start_file && (start_rank < other_rank < target_rank || target_rank
                < other_rank < start_rank)
        } else {
            other_rank == start_rank && (start_file < other_file < target_file || target_file
                < other_file < start_file)
        },
        !p.spec_is_empty(),
    ensures
        !move_ok(
            square_set(b, other_rank, other_file, p),
            start_rank,
            start_file,
            target_rank,
            target_file,
        ),
{
    let b2 = square_set(b, other_rank, other_file, p);
    assert(0 <= other_rank < 8 && 0 <= other_file < 8);
    assert(at(b2, other_rank, other_file) == p);
    if start_file == target_file {
        assert(!file_path_clear(b2, start_file, start_rank, target_rank));
    } else {
        assert(!rank_path_clear(b2, start_rank, start_file, target_file));
    }
}

} // verus!
