use vstd::prelude::*;

use crate::components::chess_board::ChessBoard;
use crate::components::chess_board::at;
use crate::components::chess_piece::ChessPiece;
use crate::components::chess_piece::PieceType;
use crate::rules::dist;
use crate::rules::shared_checks;
use crate::rules::shared_move_ok;

verus! {

/// Whether a castling attempt to the given side is allowed: an unmoved
/// friendly rook stands on the castling rook's square of the king's rank
/// (file 0 when moving toward lower files, file 7 otherwise), and every
/// square strictly between king and rook is empty. Whether the king's path
/// or destination is attacked is never checked.
pub open spec fn castle_ok(
    b: Seq<Seq<ChessPiece>>,
    start_rank: int,
    start_file: int,
    target_file: int,
) -> bool {
    let rook_file: int = if target_file < start_file {
        0
    } else {
        7
    };
    &&& at(b, start_rank, rook_file).piece_type == PieceType::Rook
    &&& at(b, start_rank, rook_file).spec_same_color(at(b, start_rank, start_file))
    &&& !at(b, start_rank, rook_file).has_moved
    &&& if target_file < start_file {
        forall|f: int| 0 < f < start_file ==> at(b, start_rank, f).spec_is_empty()
    } else {
        forall|f: int| start_file < f < 7 ==> at(b, start_rank, f).spec_is_empty()
    }
}

/// Whether a king standing on the start square may move to the target
/// square: the shared preconditions hold, and the move is either an ordinary
/// one-square step or a castling attempt — same rank, exactly two files
/// aside, the king unmoved, and `castle_ok` for that side.
pub open spec fn move_ok(
    b: Seq<Seq<ChessPiece>>,
    start_rank: int,
    start_file: int,
    target_rank: int,
    target_file: int,
) -> bool {
    &&& shared_move_ok(b, start_rank, start_file, target_rank, target_file)
    &&& {
        ||| (dist(start_rank, target_rank) <= 1 && dist(start_file, target_file) <= 1)
        ||| (start_rank == target_rank && dist(start_file, target_file) == 2 && !at(
            b,
            start_rank,
            start_file,
        ).has_moved && castle_ok(b, start_rank, start_file, target_file))
    }
}

/// Validates a potential king move. Whether the king's origin, path or
/// destination is attacked is never checked.
#[verifier::loop_isolation(false)]
pub fn is_valid_move(
    start_rank: u8,
    start_file: u8,
    target_rank: u8,
    target_file: u8,
    chess_board: &ChessBoard,
) -> (r: bool)
    requires
        start_rank < 8,
        start_file < 8,
    ensures
        r == move_ok(
            chess_board@,
            start_rank as int,
            start_file as int,
            target_rank as int,
            target_file as int,
        ),
{
    if !shared_checks(chess_board, start_rank, start_file, target_rank, target_file) {
        return false;
    }
    let rank_dist: u8 = if start_rank >= target_rank {
        start_rank - target_rank
    } else {
        target_rank - start_rank
    };
    let file_dist: u8 = if start_file >= target_file {
        start_file - target_file
    } else {
        target_file - start_file
    };
    // For a target greater than one square away, only a castle can be legal
    if rank_dist > 1 || file_dist > 1 {
        // Ensure that the target is in the same rank as the start
        if start_rank != target_rank {
            return false;
        }
        // Ensure that the target is exactly two squares to the left or right of the start
        if file_dist != 2 {
            return false;
        }
        // Ensure that the king has not yet moved
        if chess_board.borrow_space_contents(start_rank, start_file).has_moved() {
            return false;
        }
        let rook_file: u8 = if target_file < start_file {
            0
        } else {
            7
        };
        let rook_spot = chess_board.borrow_space_contents(start_rank, rook_file);
        // Ensure there is a rook on the castling rook's square
        if !rook_spot.is_rook() {
            return false;
        }
        // Ensure the rook is friendly
        if rook_spot.get_color()
            != chess_board.borrow_space_contents(start_rank, start_file).get_color() {
            return false;
        }
        // Ensure the rook has not moved
        if rook_spot.has_moved() {
            return false;
        }
        // Ensure every space between the king and the rook is empty
        if target_file < start_file {
            let mut file: u8 = 1;
            while file < start_file
                invariant
                    1 <= file <= start_file,
                    start_rank < 8,
                    start_file < 8,
                    forall|f: int|
                        0 < f < file ==> at(chess_board@, start_rank as int, f).spec_is_empty(),
                decreases start_file - file,
            {
                if !chess_board.borrow_space_contents(start_rank, file).is_empty() {
                    return false;
                }
                file += 1;
            }
        } else {
            let mut file: u8 = start_file + 1;
            while file < 7
                invariant
                    start_file < file <= 7,
                    start_rank < 8,
                    start_file < 7,
                    forall|f: int|
                        start_file < f < file ==> at(
                            chess_board@,
                            start_rank as int,
                            f,
                        ).spec_is_empty(),
                decreases 7 - file,
            {
                if !chess_board.borrow_space_contents(start_rank, file).is_empty() {
                    return false;
                }
                file += 1;
            }
        }
    }
    // Passed all checks
    true
}

} // verus!
