use vstd::prelude::*;
use vstd::string::StringExecFns;

use crate::components::chess_piece::ChessPiece;
use crate::components::chess_piece::PieceType;
use crate::components::chess_piece::empty_piece;

verus! {

broadcast use vstd::string::group_string_axioms;

/// The 8-by-8 board; rank 0 is Black's back rank, rank 7 White's, file 0 is
/// the "a" file.
pub struct ChessBoard {
    contents: [[ChessPiece; 8]; 8],
}

impl View for ChessBoard {
    type V = Seq<Seq<ChessPiece>>;

    closed spec fn view(&self) -> Seq<Seq<ChessPiece>> {
        Seq::new(8, |r: int| self.contents@[r]@)
    }
}

/// The piece at a square of a board model.
pub open spec fn at(b: Seq<Seq<ChessPiece>>, rank: int, file: int) -> ChessPiece {
    b[rank][file]
}

/// Whether a board model is an 8-by-8 matrix.
pub open spec fn board_wf(b: Seq<Seq<ChessPiece>>) -> bool {
    b.len() == 8 && forall|r: int| 0 <= r < 8 ==> (#[trigger] b[r]).len() == 8
}

/// Every board's model is an 8-by-8 matrix: the invariant that every square
/// holds exactly one piece value is built into the representation.
pub proof fn lemma_board_view_wf(board: &ChessBoard)
    ensures
        board_wf(board@),
{
}

/// An unmoved black piece of the given kind.
pub open spec fn black_piece(t: PieceType) -> ChessPiece {
    ChessPiece { is_black: true, piece_type: t, has_moved: false }
}

/// An unmoved white piece of the given kind.
pub open spec fn white_piece(t: PieceType) -> ChessPiece {
    ChessPiece { is_black: false, piece_type: t, has_moved: false }
}

/// One side's back rank in the standard initial layout.
pub open spec fn back_rank(is_black: bool) -> Seq<ChessPiece> {
    let p = |t: PieceType| ChessPiece { is_black: is_black, piece_type: t, has_moved: false };
    seq![
        p(PieceType::Rook),
        p(PieceType::Knight),
        p(PieceType::Bishop),
        p(PieceType::Queen),
        p(PieceType::King),
        p(PieceType::Bishop),
        p(PieceType::Knight),
        p(PieceType::Rook),
    ]
}

/// A rank of eight copies of one piece value.
pub open spec fn uniform_rank(p: ChessPiece) -> Seq<ChessPiece> {
    seq![p, p, p, p, p, p, p, p]
}

/// The standard initial layout: Black's major and minor pieces on rank 0,
/// Black's pawns on rank 1, White's pawns on rank 6, White's major and minor
/// pieces on rank 7, and empty squares between.
pub open spec fn initial_board() -> Seq<Seq<ChessPiece>> {
    seq![
        back_rank(true),
        uniform_rank(black_piece(PieceType::Pawn)),
        uniform_rank(empty_piece()),
        uniform_rank(empty_piece()),
        uniform_rank(empty_piece()),
        uniform_rank(empty_piece()),
        uniform_rank(white_piece(PieceType::Pawn)),
        back_rank(false),
    ]
}

impl Default for ChessBoard {
    /// A board holding the standard initial layout.
    fn default() -> (r: Self)
        ensures
            r@ == initial_board(),
    {
        let no = ChessPiece::default();
        let bp = ChessPiece::construct(String::from_str("black"), String::from_str("pawn"));
        let br = ChessPiece::construct(String::from_str("black"), String::from_str("rook"));
        let bn = ChessPiece::construct(String::from_str("black"), String::from_str("knight"));
        let bb = ChessPiece::construct(String::from_str("black"), String::from_str("bishop"));
        let bq = ChessPiece::construct(String::from_str("black"), String::from_str("queen"));
        let bk = ChessPiece::construct(String::from_str("black"), String::from_str("king"));
        let wp = ChessPiece::construct(String::from_str("white"), String::from_str("pawn"));
        let wr = ChessPiece::construct(String::from_str("white"), String::from_str("rook"));
        let wn = ChessPiece::construct(String::from_str("white"), String::from_str("knight"));
        let wb = ChessPiece::construct(String::from_str("white"), String::from_str("bishop"));
        let wq = ChessPiece::construct(String::from_str("white"), String::from_str("queen"));
        let wk = ChessPiece::construct(String::from_str("white"), String::from_str("king"));
        proof {
            crate::components::chess_piece::lemma_labels_distinct();
        }
        let board = ChessBoard {
            contents: [
                [br, bn, bb, bq, bk, bb, bn, br],
                [bp, bp, bp, bp, bp, bp, bp, bp],
                [no, no, no, no, no, no, no, no],
                [no, no, no, no, no, no, no, no],
                [no, no, no, no, no, no, no, no],
                [no, no, no, no, no, no, no, no],
                [wp, wp, wp, wp, wp, wp, wp, wp],
                [wr, wn, wb, wq, wk, wb, wn, wr],
            ],
        };
        proof {
            assert(board@ =~~= initial_board());
        }
        board
    }
}

/// The display label of a rank index: rank 0 is labelled "8", rank 7 is
/// labelled "1".
pub open spec fn rank_label_of(rank: int) -> Seq<char> {
    if rank == 0 {
        "8"@
    } else if rank == 1 {
        "7"@
    } else if rank == 2 {
        "6"@
    } else if rank == 3 {
        "5"@
    } else if rank == 4 {
        "4"@
    } else if rank == 5 {
        "3"@
    } else if rank == 6 {
        "2"@
    } else {
        "1"@
    }
}

/// Whether a character sequence is one of the eight rank labels.
pub open spec fn is_rank_label(s: Seq<char>) -> bool {
    exists|i: int| 0 <= i < 8 && s == rank_label_of(i)
}

/// The rank index a label denotes; sequences that are no rank label read as
/// index 7, but callers only apply this to rank labels.
pub open spec fn rank_of_label(s: Seq<char>) -> int {
    if s == "8"@ {
        0
    } else if s == "7"@ {
        1
    } else if s == "6"@ {
        2
    } else if s == "5"@ {
        3
    } else if s == "4"@ {
        4
    } else if s == "3"@ {
        5
    } else if s == "2"@ {
        6
    } else {
        7
    }
}

/// The display label of a file index: file 0 is labelled "a", file 7 is
/// labelled "h".
pub open spec fn file_label_of(file: int) -> Seq<char> {
    if file == 0 {
        "a"@
    } else if file == 1 {
        "b"@
    } else if file == 2 {
        "c"@
    } else if file == 3 {
        "d"@
    } else if file == 4 {
        "e"@
    } else if file == 5 {
        "f"@
    } else if file == 6 {
        "g"@
    } else {
        "h"@
    }
}

/// Whether a character sequence is one of the eight file labels.
pub open spec fn is_file_label(s: Seq<char>) -> bool {
    exists|i: int| 0 <= i < 8 && s == file_label_of(i)
}

/// The file index a label denotes; sequences that are no file label read as
/// index 7, but callers only apply this to file labels.
pub open spec fn file_of_label(s: Seq<char>) -> int {
    if s == "a"@ {
        0
    } else if s == "b"@ {
        1
    } else if s == "c"@ {
        2
    } else if s == "d"@ {
        3
    } else if s == "e"@ {
        4
    } else if s == "f"@ {
        5
    } else if s == "g"@ {
        6
    } else {
        7
    }
}

/// The eight rank labels are pairwise distinct, so every rank index comes
/// back unchanged from its label: the label of each index 0..8 is a rank
/// label, and parsing it returns the index it was made from.
pub proof fn lemma_rank_label_round_trip(idx: int)
    requires
        0 <= idx < 8,
    ensures
        is_rank_label(rank_label_of(idx)),
        rank_of_label(rank_label_of(idx)) == idx,
{
    reveal_strlit("1");
    reveal_strlit("2");
    reveal_strlit("3");
    reveal_strlit("4");
    reveal_strlit("5");
    reveal_strlit("6");
    reveal_strlit("7");
    reveal_strlit("8");
    assert("1"@[0] == '1' && "2"@[0] == '2' && "3"@[0] == '3' && "4"@[0] == '4');
    assert("5"@[0] == '5' && "6"@[0] == '6' && "7"@[0] == '7' && "8"@[0] == '8');
}

/// The eight file labels are pairwise distinct, so every file index comes
/// back unchanged from its label: the label of each index 0..8 is a file
/// label, and parsing it returns the index it was made from.
pub proof fn lemma_file_label_round_trip(idx: int)
    requires
        0 <= idx < 8,
    ensures
        is_file_label(file_label_of(idx)),
        file_of_label(file_label_of(idx)) == idx,
{
    reveal_strlit("a");
    reveal_strlit("b");
    reveal_strlit("c");
    reveal_strlit("d");
    reveal_strlit("e");
    reveal_strlit("f");
    reveal_strlit("g");
    reveal_strlit("h");
    assert("a"@[0] == 'a' && "b"@[0] == 'b' && "c"@[0] == 'c' && "d"@[0] == 'd');
    assert("e"@[0] == 'e' && "f"@[0] == 'f' && "g"@[0] == 'g' && "h"@[0] == 'h');
}

impl ChessBoard {
    /// The display label of a rank index.
    pub fn get_rank_label(rank: u8) -> (r: String)
        requires
            rank < 8,
        ensures
            r@ == rank_label_of(rank as int),
    {
        if rank == 0 {
            String::from_str("8")
        } else if rank == 1 {
            String::from_str("7")
        } else if rank == 2 {
            String::from_str("6")
        } else if rank == 3 {
            String::from_str("5")
        } else if rank == 4 {
            String::from_str("4")
        } else if rank == 5 {
            String::from_str("3")
        } else if rank == 6 {
            String::from_str("2")
        } else {
            String::from_str("1")
        }
    }

    /// The rank index a display label denotes.
    pub fn get_rank(rank_label: String) -> (r: u8)
        requires
            is_rank_label(rank_label@),
        ensures
            r < 8,
            r as int == rank_of_label(rank_label@),
            rank_label_of(r as int) == rank_label@,
    {
        proof {
            let i = choose|i: int| 0 <= i < 8 && rank_label@ == rank_label_of(i);
            lemma_rank_label_round_trip(i);
        }
        if rank_label == String::from_str("8") {
            0
        } else if rank_label == String::from_str("7") {
            1
        } else if rank_label == String::from_str("6") {
            2
        } else if rank_label == String::from_str("5") {
            3
        } else if rank_label == String::from_str("4") {
            4
        } else if rank_label == String::from_str("3") {
            5
        } else if rank_label == String::from_str("2") {
            6
        } else {
            7
        }
    }

    /// The display label of a file index.
    pub fn get_file_label(file: u8) -> (r: String)
        requires
            file < 8,
        ensures
            r@ == file_label_of(file as int),
    {
        if file == 0 {
            String::from_str("a")
        } else if file == 1 {
            String::from_str("b")
        } else if file == 2 {
            String::from_str("c")
        } else if file == 3 {
            String::from_str("d")
        } else if file == 4 {
            String::from_str("e")
        } else if file == 5 {
            String::from_str("f")
        } else if file == 6 {
            String::from_str("g")
        } else {
            String::from_str("h")
        }
    }

    /// The file index a display label denotes.
    pub fn get_file(file_label: String) -> (r: u8)
        requires
            is_file_label(file_label@),
        ensures
            r < 8,
            r as int == file_of_label(file_label@),
            file_label_of(r as int) == file_label@,
    {
        proof {
            let i = choose|i: int| 0 <= i < 8 && file_label@ == file_label_of(i);
            lemma_file_label_round_trip(i);
        }
        if file_label == String::from_str("a") {
            0
        } else if file_label == String::from_str("b") {
            1
        } else if file_label == String::from_str("c") {
            2
        } else if file_label == String::from_str("d") {
            3
        } else if file_label == String::from_str("e") {
            4
        } else if file_label == String::from_str("f") {
            5
        } else if file_label == String::from_str("g") {
            6
        } else {
            7
        }
    }
}

/// The last executed move, as ((start file, start rank), (target file,
/// target rank)); `None` before the first move of a game.
pub type LastMove = Option<((u8, u8), (u8, u8))>;

/// Whether the rule of the given piece's kind allows the move; an empty
/// square allows no move at all.
pub open spec fn piece_move_ok(
    b: Seq<Seq<ChessPiece>>,
    piece: ChessPiece,
    start_rank: int,
    start_file: int,
    target_rank: int,
    target_file: int,
    last_move: LastMove,
) -> bool {
    match piece.piece_type {
        PieceType::Empty => false,
        PieceType::Pawn => crate::rules::pawn::move_ok(
            b,
            start_rank,
            start_file,
            target_rank,
            target_file,
            last_move,
        ),
        PieceType::Rook => crate::rules::rook::move_ok(
            b,
            start_rank,
            start_file,
            target_rank,
            target_file,
        ),
        PieceType::Knight => crate::rules::knight::move_ok(
            b,
            start_rank,
            start_file,
            target_rank,
            target_file,
        ),
        PieceType::Bishop => crate::rules::bishop::move_ok(
            b,
            start_rank,
            start_file,
            target_rank,
            target_file,
        ),
        PieceType::Queen => crate::rules::queen::move_ok(
            b,
            start_rank,
            start_file,
            target_rank,
            target_file,
        ),
        PieceType::King => crate::rules::king::move_ok(
            b,
            start_rank,
            start_file,
            target_rank,
            target_file,
        ),
    }
}

/// A board with one square overwritten.
pub open spec fn square_set(
    b: Seq<Seq<ChessPiece>>,
    rank: int,
    file: int,
    p: ChessPiece,
) -> Seq<Seq<ChessPiece>> {
    b.update(rank, b[rank].update(file, p))
}

/// The board a validated move leaves behind, mirroring the executor's steps
/// in order. First the en-passant cleanup: when a pawn changes file onto an
/// empty square, the enemy pawn on the rank adjacent to the target (offset
/// toward the mover's origin) in the target's file is removed. Then the
/// castling cleanup: when a king moves two files, the rook of that side is
/// relocated, marked moved, to the square immediately adjacent to the king's
/// destination, and its original square is cleared. Last the relocation
/// itself: the moving piece is copied onto the target square, the start
/// square is cleared, and the piece now on the target is marked moved.
pub open spec fn board_after_move(
    b: Seq<Seq<ChessPiece>>,
    start_rank: int,
    start_file: int,
    target_rank: int,
    target_file: int,
) -> Seq<Seq<ChessPiece>> {
    let after_en_passant = if at(b, start_rank, start_file).piece_type == PieceType::Pawn && at(
        b,
        target_rank,
        target_file,
    ).spec_is_empty() && start_file != target_file {
        if at(b, start_rank, start_file).spec_is_white() {
            square_set(b, target_rank + 1, target_file, empty_piece())
        } else {
            square_set(b, target_rank - 1, target_file, empty_piece())
        }
    } else {
        b
    };
    let after_castle = if at(after_en_passant, start_rank, start_file).piece_type
        == PieceType::King && crate::rules::dist(start_file, target_file) == 2 {
        if target_file < start_file {
            square_set(
                square_set(
                    after_en_passant,
                    start_rank,
                    target_file + 1,
                    (ChessPiece { has_moved: true, ..at(after_en_passant, start_rank, 0) }),
                ),
                start_rank,
                0,
                empty_piece(),
            )
        } else {
            square_set(
                square_set(
                    after_en_passant,
                    start_rank,
                    target_file - 1,
                    (ChessPiece { has_moved: true, ..at(after_en_passant, start_rank, 7) }),
                ),
                start_rank,
                7,
                empty_piece(),
            )
        }
    } else {
        after_en_passant
    };
    let after_relocation = square_set(
        square_set(after_castle, target_rank, target_file, at(after_castle, start_rank, start_file)),
        start_rank,
        start_file,
        empty_piece(),
    );
    square_set(
        after_relocation,
        target_rank,
        target_file,
        (ChessPiece { has_moved: true, ..at(after_relocation, target_rank, target_file) }),
    )
}

impl ChessBoard {
    /// Reads one square.
    pub fn borrow_space_contents(&self, rank: u8, file: u8) -> (r: &ChessPiece)
        requires
            rank < 8,
            file < 8,
        ensures
            *r == at(self@, rank as int, file as int),
    {
        &(self.contents[rank as usize][file as usize])
    }

    /// Borrows one square's contents for in-place update; the board after
    /// the call holds whatever value the caller leaves behind the reference.
    pub fn borrow_mut_space_contents(&mut self, rank: u8, file: u8) -> (r: &mut ChessPiece)
        requires
            rank < 8,
            file < 8,
        ensures
            *r == at(old(self)@, rank as int, file as int),
            final(self)@ =~~= square_set(old(self)@, rank as int, file as int, *final(r)),
    {
        &mut self.contents[rank as usize][file as usize]
    }

    /// Copies one square's contents out.
    pub fn clone_space_contents(&self, rank: u8, file: u8) -> (r: ChessPiece)
        requires
            rank < 8,
            file < 8,
        ensures
            r == at(self@, rank as int, file as int),
    {
        self.contents[rank as usize][file as usize]
    }

    /// Overwrites one square.
    pub fn set_space_contents(&mut self, rank: u8, file: u8, contents: ChessPiece)
        requires
            rank < 8,
            file < 8,
        ensures
            final(self)@ == old(self)@.update(
                rank as int,
                old(self)@[rank as int].update(file as int, contents),
            ),
    {
        self.contents[rank as usize][file as usize] = contents;
        proof {
            assert(final(self)@ =~~= old(self)@.update(
                rank as int,
                old(self)@[rank as int].update(file as int, contents),
            ));
        }
    }

    /// Delegates a move to the rule of the given piece's kind. Moving an
    /// empty square must never reach this layer: like an out-of-range start
    /// square, an empty-kind piece here is a contract violation by the
    /// calling layer.
    pub fn is_valid_move(
        &self,
        start_rank: u8,
        start_file: u8,
        target_rank: u8,
        target_file: u8,
        piece: &ChessPiece,
        last_move: &LastMove,
    ) -> (r: bool)
        requires
            start_rank < 8,
            start_file < 8,
            piece.piece_type != PieceType::Empty,
        ensures
            r == piece_move_ok(
                self@,
                *piece,
                start_rank as int,
                start_file as int,
                target_rank as int,
                target_file as int,
                *last_move,
            ),
    {
        match piece.piece_type {
            PieceType::Empty => false,
            PieceType::Pawn => crate::rules::pawn::is_valid_move(
                start_rank,
                start_file,
                target_rank,
                target_file,
                self,
                last_move,
            ),
            PieceType::Rook => crate::rules::rook::is_valid_move(
                start_rank,
                start_file,
                target_rank,
                target_file,
                self,
            ),
            PieceType::Knight => crate::rules::knight::is_valid_move(
                start_rank,
                start_file,
                target_rank,
                target_file,
                self,
            ),
            PieceType::Bishop => crate::rules::bishop::is_valid_move(
                start_rank,
                start_file,
                target_rank,
                target_file,
                self,
            ),
            PieceType::Queen => crate::rules::queen::is_valid_move(
                start_rank,
                start_file,
                target_rank,
                target_file,
                self,
            ),
            PieceType::King => crate::rules::king::is_valid_move(
                start_rank,
                start_file,
                target_rank,
                target_file,
                self,
            ),
        }
    }

    /// Executes a move for the active colour. When the piece on the start
    /// square does not belong to the active colour, or its rule rejects the
    /// move, nothing changes and the result is false. Otherwise the board
    /// becomes `board_after_move` of its old value, the move is recorded as
    /// the new last move, and the result is true. Turn advancement on a true
    /// result is the caller's responsibility. An empty start square that
    /// would pass the turn gate must never be handed in: moving an empty
    /// square is a contract violation by the calling layer, which selects
    /// only pieces of the active colour.
    pub fn move_piece(
        &mut self,
        is_black_turn: bool,
        start_rank: u8,
        start_file: u8,
        target_rank: u8,
        target_file: u8,
        last_move: &mut LastMove,
    ) -> (r: bool)
        requires
            start_rank < 8,
            start_file < 8,
            at(old(self)@, start_rank as int, start_file as int).spec_is_empty() ==> at(
                old(self)@,
                start_rank as int,
                start_file as int,
            ).is_black != is_black_turn,
        ensures
            r == (at(old(self)@, start_rank as int, start_file as int).is_black == is_black_turn
                && piece_move_ok(
                old(self)@,
                at(old(self)@, start_rank as int, start_file as int),
                start_rank as int,
                start_file as int,
                target_rank as int,
                target_file as int,
                *old(last_move),
            )),
            !r ==> final(self)@ == old(self)@ && *final(last_move) == *old(last_move),
            r ==> final(self)@ == board_after_move(
                old(self)@,
                start_rank as int,
                start_file as int,
                target_rank as int,
                target_file as int,
            ) && *final(last_move) == Some(
                ((start_file, start_rank), (target_file, target_rank)),
            ),
    {
        if self.borrow_space_contents(start_rank, start_file).is_black() != is_black_turn {
            return false;
        }
        let piece = self.clone_space_contents(start_rank, start_file);
        if self.is_valid_move(
            start_rank,
            start_file,
            target_rank,
            target_file,
            &piece,
            last_move,
        ) {
            // Check for en passant and remove the attacked pawn
            if self.borrow_space_contents(start_rank, start_file).is_pawn()
                && self.borrow_space_contents(target_rank, target_file).is_empty()
                && start_file != target_file {
                if self.borrow_space_contents(start_rank, start_file).is_white() {
                    self.set_space_contents(target_rank + 1, target_file, ChessPiece::default());
                } else {
                    self.set_space_contents(target_rank - 1, target_file, ChessPiece::default());
                }
            }
            // Check for castle and move the associated rook
            let file_dist: u8 = if start_file >= target_file {
                start_file - target_file
            } else {
                target_file - start_file
            };
            if self.borrow_space_contents(start_rank, start_file).is_king() && file_dist == 2 {
                if target_file < start_file {
                    let mut rook = self.clone_space_contents(start_rank, 0);
                    rook.mark_moved();
                    self.set_space_contents(start_rank, target_file + 1, rook);
                    self.set_space_contents(start_rank, 0, ChessPiece::default());
                } else {
                    let mut rook = self.clone_space_contents(start_rank, 7);
                    rook.mark_moved();
                    self.set_space_contents(start_rank, target_file - 1, rook);
                    self.set_space_contents(start_rank, 7, ChessPiece::default());
                }
            }
            // Move piece (typical updates)
            let moving = self.clone_space_contents(start_rank, start_file);
            self.set_space_contents(target_rank, target_file, moving);
            self.set_space_contents(start_rank, start_file, ChessPiece::default());
            let mut moved_piece = self.clone_space_contents(target_rank, target_file);
            moved_piece.mark_moved();
            self.set_space_contents(target_rank, target_file, moved_piece);
            *last_move = Some(((start_file, start_rank), (target_file, target_rank)));
            return true;
        }
        false
    }
}

} // verus!
