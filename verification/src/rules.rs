pub mod bishop;
pub mod king;
pub mod knight;
pub mod pawn;
pub mod queen;
pub mod rook;

use vstd::prelude::*;

use crate::components::chess_board::ChessBoard;
use crate::components::chess_board::LastMove;
use crate::components::chess_board::at;
use crate::components::chess_board::piece_move_ok;
use crate::components::chess_piece::ChessPiece;

verus! {

/// The distance between two indices.
pub open spec fn dist(a: int, b: int) -> int {
    if a >= b {
        a - b
    } else {
        b - a
    }
}

/// The index reached after `i` unit steps from `from` in the direction of
/// `to`.
pub open spec fn step_toward(from: int, to: int, i: int) -> int {
    if to > from {
        from + i
    } else {
        from - i
    }
}

/// The preconditions every piece's rule applies first: the target square is
/// on the board, differs from the start square, and does not hold a piece of
/// the mover's colour (empty squares both reading as the colour "none").
pub open spec fn shared_move_ok(
    b: Seq<Seq<ChessPiece>>,
    start_rank: int,
    start_file: int,
    target_rank: int,
    target_file: int,
) -> bool {
    &&& 0 <= target_rank < 8
    &&& 0 <= target_file < 8
    &&& !(start_rank == target_rank && start_file == target_file)
    &&& !at(b, start_rank, start_file).spec_same_color(at(b, target_rank, target_file))
}

/// Whether every square strictly between two files of one rank is empty.
pub open spec fn rank_path_clear(
    b: Seq<Seq<ChessPiece>>,
    rank: int,
    file_a: int,
    file_b: int,
) -> bool {
    forall|f: int|
        (file_a < f < file_b || file_b < f < file_a) ==> at(b, rank, f).spec_is_empty()
}

/// Whether every square strictly between two ranks of one file is empty.
pub open spec fn file_path_clear(
    b: Seq<Seq<ChessPiece>>,
    file: int,
    rank_a: int,
    rank_b: int,
) -> bool {
    forall|r: int|
        (rank_a < r < rank_b || rank_b < r < rank_a) ==> at(b, r, file).spec_is_empty()
}

/// Whether every square strictly between the two ends of a diagonal,
/// stepping by the unit diagonal, is empty.
pub open spec fn diagonal_path_clear(
    b: Seq<Seq<ChessPiece>>,
    start_rank: int,
    start_file: int,
    target_rank: int,
    target_file: int,
) -> bool {
    forall|i: int|
        1 <= i < dist(start_rank, target_rank) ==> at(
            b,
            step_toward(start_rank, target_rank, i),
            step_toward(start_file, target_file, i),
        ).spec_is_empty()
}

/// Runs the shared preconditions; every piece's rule calls this first.
pub(crate) fn shared_checks(
    chess_board: &ChessBoard,
    start_rank: u8,
    start_file: u8,
    target_rank: u8,
    target_file: u8,
) -> (r: bool)
    requires
        start_rank < 8,
        start_file < 8,
    ensures
        r == shared_move_ok(
            chess_board@,
            start_rank as int,
            start_file as int,
            target_rank as int,
            target_file as int,
        ),
{
    // Ensure target is on the board
    if target_rank >= 8 || target_file >= 8 {
        return false;
    }
    // Ensure start and target are different spaces
    if start_rank == target_rank && start_file == target_file {
        return false;
    }
    // Ensure target doesn't contain a friendly piece
    let start_space: &ChessPiece = chess_board.borrow_space_contents(start_rank, start_file);
    let target_space: &ChessPiece = chess_board.borrow_space_contents(target_rank, target_file);
    if start_space.get_color() == target_space.get_color() {
        return false;
    }
    true
}

/// No piece may move to its own square: whatever the piece, the board and
/// the last move, a move whose start and target coincide is illegal.
pub proof fn lemma_same_square_illegal(
    b: Seq<Seq<ChessPiece>>,
    piece: ChessPiece,
    rank: int,
    file: int,
    last_move: LastMove,
)
    ensures
        !piece_move_ok(b, piece, rank, file, rank, file, last_move),
{
}

/// No piece may capture its own colour: whatever the piece and the last
/// move, a move onto a square occupied by a piece of the mover's colour is
/// illegal.
pub proof fn lemma_friendly_target_illegal(
    b: Seq<Seq<ChessPiece>>,
    piece: ChessPiece,
    start_rank: int,
    start_file: int,
    target_rank: int,
    target_file: int,
    last_move: LastMove,
)
    requires
        !at(b, start_rank, start_file).spec_is_empty(),
        !at(b, target_rank, target_file).spec_is_empty(),
        at(b, start_rank, start_file).is_black == at(b, target_rank, target_file).is_black,
    ensures
        !piece_move_ok(b, piece, start_rank, start_file, target_rank, target_file, last_move),
{
    assert(at(b, start_rank, start_file).spec_same_color(at(b, target_rank, target_file)));
}

} // verus!
