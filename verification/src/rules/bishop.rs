use vstd::prelude::*;

use crate::components::chess_board::ChessBoard;
use crate::components::chess_board::at;
use crate::components::chess_board::board_wf;
use crate::components::chess_board::square_set;
use crate::components::chess_piece::ChessPiece;
use crate::rules::diagonal_path_clear;
use crate::rules::dist;
use crate::rules::shared_checks;
use crate::rules::shared_move_ok;
use crate::rules::step_toward;

verus! {

/// Whether a bishop standing on the start square may move to the target
/// square: the shared preconditions hold, the two squares share a diagonal,
/// and every square strictly between them, stepping by the unit diagonal, is
/// empty.
pub open spec fn move_ok(
    b: Seq<Seq<ChessPiece>>,
    start_rank: int,
    start_file: int,
    target_rank: int,
    target_file: int,
) -> bool {
    &&& shared_move_ok(b, start_rank, start_file, target_rank, target_file)
    &&& dist(start_rank, target_rank) == dist(start_file, target_file)
    &&& diagonal_path_clear(b, start_rank, start_file, target_rank, target_file)
}

/// Validates a potential bishop move.
pub fn is_valid_move(
    start_rank: u8,
    start_file: u8,
    target_rank: u8,
    target_file: u8,
    chess_board: &ChessBoard,
) -> (r: bool)
    requires
        start_rank < 8,
        start_file < 8,
    ensures
        r == move_ok(
            chess_board@,
            start_rank as int,
            start_file as int,
            target_rank as int,
            target_file as int,
        ),
{
    if !shared_checks(chess_board, start_rank, start_file, target_rank, target_file) {
        return false;
    }
    // Ensure start and target share a diagonal
    let rank_dist: u8 = if start_rank >= target_rank {
        start_rank - target_rank
    } else {
        target_rank - start_rank
    };
    let file_dist: u8 = if start_file >= target_file {
        start_file - target_file
    } else {
        target_file - start_file
    };
    if rank_dist != file_dist {
        return false;
    }
    // Ensure all spaces between start and target are empty
    let mut i: u8 = 1;
    while i < rank_dist
        invariant
            1 <= i <= rank_dist,
            rank_dist == dist(start_rank as int, target_rank as int),
            rank_dist == dist(start_file as int, target_file as int),
            start_rank < 8,
            start_file < 8,
            target_rank < 8,
            target_file < 8,
            forall|j: int|
                1 <= j < i ==> at(
                    chess_board@,
                    step_toward(start_rank as int, target_rank as int, j),
                    step_toward(start_file as int, target_file as int, j),
                ).spec_is_empty(),
        decreases rank_dist - i,
    {
        let current_rank: u8 = if target_rank > start_rank {
            start_rank + i
        } else {
            start_rank - i
        };
        let current_file: u8 = if target_file > start_file {
            start_file + i
        } else {
            start_file - i
        };
        if !chess_board.borrow_space_contents(current_rank, current_file).is_empty() {
            proof {
                assert(current_rank as int == step_toward(
                    start_rank as int,
                    target_rank as int,
                    i as int,
                ));
                assert(current_file as int == step_toward(
                    start_file as int,
                    target_file as int,
                    i as int,
                ));
            }
            return false;
        }
        i += 1;
    }
    // Passed all checks
    true
}

/// Bishops do not jump: a legal bishop move turns illegal as soon as any
/// square strictly between start and target, stepping by the unit diagonal,
/// is occupied.
pub proof fn lemma_interposition_blocks(
    b: Seq<Seq<ChessPiece>>,
    start_rank: int,
    start_file: int,
    target_rank: int,
    target_file: int,
    i: int,
    p: ChessPiece,
)
    requires
        board_wf(b),
        0 <= start_rank < 8,
        0 <= start_file < 8,
        move_ok(b, start_rank, start_file, target_rank, target_file),
        1 <= i < dist(start_rank, target_rank),
        !p.spec_is_empty(),
    ensures
        !move_ok(
            square_set(
                b,
                step_toward(start_rank, target_rank, i),
                step_toward(start_file, target_file, i),
                p,
            ),
            start_rank,
            start_file,
            target_rank,
            target_file,
        ),
{
    let other_rank = step_toward(start_rank, target_rank, i);
    let other_file = step_toward(start_file, target_file, i);
    let b2 = square_set(b, other_rank, other_file, p);
    assert(0 <= other_rank < 8 && 0 <= other_file < 8);
    assert(at(b2, other_rank, other_file) == p);
    assert(!diagonal_path_clear(b2, start_rank, start_file, target_rank, target_file));
}

} // verus!
