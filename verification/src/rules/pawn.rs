use vstd::prelude::*;

use crate::components::chess_board::ChessBoard;
use crate::components::chess_board::at;
use crate::components::chess_piece::ChessPiece;
use crate::components::chess_piece::PieceType;
use crate::rules::dist;
use crate::rules::shared_checks;
use crate::rules::shared_move_ok;

verus! {

/// Whether the last move authorizes a white pawn's en-passant capture onto
/// the empty target square: a pawn stands on the rank below the target (the
/// rank the mover starts on), and the last move was that pawn's two-square
/// advance along the target's file. Coordinates in the last-move record are
/// (file, rank) pairs.
pub open spec fn en_passant_ok_white(
    b: Seq<Seq<ChessPiece>>,
    target_rank: int,
    target_file: int,
    last_move: Option<((u8, u8), (u8, u8))>,
) -> bool {
    match last_move {
        Option::Some(m) => {
            &&& at(b, target_rank + 1, target_file).piece_type == PieceType::Pawn
            &&& m.0.0 as int == target_file
            &&& m.0.1 as int == target_rank - 1
            &&& m.1.0 as int == target_file
            &&& m.1.1 as int == target_rank + 1
        },
        Option::None => false,
    }
}

/// The mirror of `en_passant_ok_white` for a black mover: the captured pawn
/// stands on the rank above the target.
pub open spec fn en_passant_ok_black(
    b: Seq<Seq<ChessPiece>>,
    target_rank: int,
    target_file: int,
    last_move: Option<((u8, u8), (u8, u8))>,
) -> bool {
    match last_move {
        Option::Some(m) => {
            &&& at(b, target_rank - 1, target_file).piece_type == PieceType::Pawn
            &&& m.0.0 as int == target_file
            &&& m.0.1 as int == target_rank + 1
            &&& m.1.0 as int == target_file
            &&& m.1.1 as int == target_rank - 1
        },
        Option::None => false,
    }
}

/// The white pawn's geometry, applied after the shared preconditions. White
/// advances toward decreasing rank indices. A straight move must land on an
/// empty square: one step from any rank, or up to two steps from the home
/// rank (index 6, rank-label "2") — whether the skipped square is empty is
/// never checked. A diagonal move is one step forward onto an adjacent file:
/// onto an occupied (hence enemy) square it is an ordinary capture; onto an
/// empty square it is legal only as en passant.
pub open spec fn white_ok(
    b: Seq<Seq<ChessPiece>>,
    start_rank: int,
    start_file: int,
    target_rank: int,
    target_file: int,
    last_move: Option<((u8, u8), (u8, u8))>,
) -> bool {
    if start_file == target_file {
        &&& at(b, target_rank, target_file).spec_is_empty()
        &&& if start_rank == 6 {
            target_rank < start_rank && target_rank + 2 >= start_rank
        } else {
            target_rank == start_rank - 1
        }
    } else {
        &&& target_rank == start_rank - 1
        &&& (at(b, target_rank, target_file).spec_is_empty() ==> en_passant_ok_white(
            b,
            target_rank,
            target_file,
            last_move,
        ))
    }
}

/// The black pawn's geometry: the mirror of `white_ok`. Black advances
/// toward increasing rank indices and its home rank is index 1 (rank-label
/// "7").
pub open spec fn black_ok(
    b: Seq<Seq<ChessPiece>>,
    start_rank: int,
    start_file: int,
    target_rank: int,
    target_file: int,
    last_move: Option<((u8, u8), (u8, u8))>,
) -> bool {
    if start_file == target_file {
        &&& at(b, target_rank, target_file).spec_is_empty()
        &&& if start_rank == 1 {
            target_rank > start_rank && target_rank <= start_rank + 2
        } else {
            target_rank == start_rank + 1
        }
    } else {
        &&& target_rank == start_rank + 1
        &&& (at(b, target_rank, target_file).spec_is_empty() ==> en_passant_ok_black(
            b,
            target_rank,
            target_file,
            last_move,
        ))
    }
}

/// Whether a pawn standing on the start square may move to the target
/// square: the shared preconditions hold, the target is within one file of
/// the start, and the colour's geometry holds — `white_ok` when the start
/// square holds a white piece, `black_ok` otherwise.
pub open spec fn move_ok(
    b: Seq<Seq<ChessPiece>>,
    start_rank: int,
    start_file: int,
    target_rank: int,
    target_file: int,
    last_move: Option<((u8, u8), (u8, u8))>,
) -> bool {
    &&& shared_move_ok(b, start_rank, start_file, target_rank, target_file)
    &&& dist(start_file, target_file) <= 1
    &&& if at(b, start_rank, start_file).spec_is_white() {
        white_ok(b, start_rank, start_file, target_rank, target_file, last_move)
    } else {
        black_ok(b, start_rank, start_file, target_rank, target_file, last_move)
    }
}

/// Validates a potential pawn move. The validator only certifies legality;
/// it never removes the captured pawn.
pub fn is_valid_move(
    start_rank: u8,
    start_file: u8,
    target_rank: u8,
    target_file: u8,
    chess_board: &ChessBoard,
    last_move: &Option<((u8, u8), (u8, u8))>,
) -> (r: bool)
    requires
        start_rank < 8,
        start_file < 8,
    ensures
        r == move_ok(
            chess_board@,
            start_rank as int,
            start_file as int,
            target_rank as int,
            target_file as int,
            *last_move,
        ),
{
    if !shared_checks(chess_board, start_rank, start_file, target_rank, target_file) {
        return false;
    }
    // Ensure target is within 1 file either direction of start
    if (start_file > target_file && start_file - target_file > 1) || (target_file > start_file
        && target_file - start_file > 1) {
        return false;
    }
    // For a white pawn:
    if chess_board.borrow_space_contents(start_rank, start_file).is_white() {
        // For a space in the same file:
        if start_file == target_file {
            // Ensure target doesn't contain a piece
            if !chess_board.borrow_space_contents(target_rank, target_file).is_empty() {
                return false;
            }
            // For a pawn still in home row (rank-label "2"):
            if start_rank == 6 {
                // Ensure target is within 2 spaces ahead of start
                if target_rank >= start_rank || target_rank + 2 < start_rank {
                    return false;
                }
            // For a pawn not still in home row:
            } else {
                // Ensure target is the space ahead of start
                if target_rank + 1 != start_rank {
                    return false;
                }
            }
        // For a space in an adjacent file:
        } else {
            // Ensure target is in the rank ahead of start
            if target_rank + 1 != start_rank {
                return false;
            }
            // For target being empty, ensure the move is an en passant
            if chess_board.borrow_space_contents(target_rank, target_file).is_empty() {
                match last_move {
                    Option::None => {
                        return false;
                    },
                    Option::Some(m) => {
                        // Ensure there is a pawn in the correct relative space
                        if !chess_board.borrow_space_contents(
                            target_rank + 1,
                            target_file,
                        ).is_pawn() {
                            return false;
                        }
                        // Ensure that pawn just moved there with a double move
                        if !(target_rank >= 1 && m.0.0 == target_file && m.0.1 == target_rank - 1
                            && m.1.0 == target_file && m.1.1 == target_rank + 1) {
                            return false;
                        }
                    },
                }
            }
        }
    // For a black pawn:
    } else {
        // For a space in the same file:
        if start_file == target_file {
            // Ensure target doesn't contain a piece
            if !chess_board.borrow_space_contents(target_rank, target_file).is_empty() {
                return false;
            }
            // For a pawn still in home row (rank-label "7"):
            if start_rank == 1 {
                // Ensure target is within 2 spaces ahead of start
                if target_rank <= start_rank || target_rank > start_rank + 2 {
                    return false;
                }
            // For a pawn not still in home row:
            } else {
                // Ensure target is the space ahead of start
                if target_rank != start_rank + 1 {
                    return false;
                }
            }
        // For a space in an adjacent file:
        } else {
            // Ensure target is in the rank ahead of start
            if target_rank != start_rank + 1 {
                return false;
            }
            // For target being empty, ensure the move is an en passant
            if chess_board.borrow_space_contents(target_rank, target_file).is_empty() {
                match last_move {
                    Option::None => {
                        return false;
                    },
                    Option::Some(m) => {
                        // Ensure there is a pawn in the correct relative space
                        if !chess_board.borrow_space_contents(
                            target_rank - 1,
                            target_file,
                        ).is_pawn() {
                            return false;
                        }
                        // Ensure that pawn just moved there with a double move
                        if !(m.0.0 == target_file && m.0.1 == target_rank + 1
                            && m.1.0 == target_file && m.1.1 == target_rank - 1) {
                            return false;
                        }
                    },
                }
            }
        }
    }
    // Passed all checks
    true
}

} // verus!
