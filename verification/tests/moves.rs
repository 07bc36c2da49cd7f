use chess::components::chess_board::ChessBoard;
use chess::components::chess_board::LastMove;
use chess::components::chess_piece::ChessPiece;
use chess::rules;

fn white(piece_type: &str) -> ChessPiece {
    ChessPiece::construct(String::from("white"), String::from(piece_type))
}

fn black(piece_type: &str) -> ChessPiece {
    ChessPiece::construct(String::from("black"), String::from(piece_type))
}

#[test]
fn initial_layout_matches_the_standard_one() {
    let board = ChessBoard::default();
    let back = ["rook", "knight", "bishop", "queen", "king", "bishop", "knight", "rook"];
    let black_back = ChessBoard::get_rank(String::from("8"));
    let white_back = ChessBoard::get_rank(String::from("1"));
    let mut file: u8 = 0;
    while file < 8 {
        let b = board.borrow_space_contents(black_back, file);
        assert_eq!(b.get_type(), back[file as usize]);
        assert_eq!(b.get_color(), "black");
        assert!(!b.has_moved());
        let w = board.borrow_space_contents(white_back, file);
        assert_eq!(w.get_type(), back[file as usize]);
        assert_eq!(w.get_color(), "white");
        let bp = board.borrow_space_contents(1, file);
        assert!(bp.is_pawn());
        assert!(bp.is_black());
        let wp = board.borrow_space_contents(6, file);
        assert!(wp.is_pawn());
        assert!(wp.is_white());
        let mut rank = ChessBoard::get_rank(String::from("6"));
        while rank <= ChessBoard::get_rank(String::from("3")) {
            assert!(board.borrow_space_contents(rank, file).is_empty());
            rank += 1;
        }
        file += 1;
    }
}

#[test]
fn moving_to_the_start_square_is_illegal() {
    let mut board = ChessBoard::default();
    let none: LastMove = None;
    // One probe per piece kind standing on the initial board
    assert!(!rules::rook::is_valid_move(7, 0, 7, 0, &board));
    assert!(!rules::knight::is_valid_move(7, 1, 7, 1, &board));
    assert!(!rules::bishop::is_valid_move(7, 2, 7, 2, &board));
    assert!(!rules::queen::is_valid_move(7, 3, 7, 3, &board));
    assert!(!rules::king::is_valid_move(7, 4, 7, 4, &board));
    assert!(!rules::pawn::is_valid_move(6, 4, 6, 4, &board, &none));
    let mut lm: LastMove = None;
    assert!(!board.move_piece(false, 7, 3, 7, 3, &mut lm));
    assert_eq!(lm, None);
}

#[test]
fn capturing_a_friendly_piece_is_illegal() {
    let mut board = ChessBoard::default();
    // Rook a1 onto the white pawn a2, knight g1 onto the pawn e2, king e1
    // onto the pawn e2: all blocked by the friendly-capture rule alone.
    assert!(!rules::rook::is_valid_move(7, 0, 6, 0, &board));
    assert!(!rules::knight::is_valid_move(7, 6, 6, 4, &board));
    assert!(!rules::king::is_valid_move(7, 4, 6, 4, &board));
    let mut lm: LastMove = None;
    assert!(!board.move_piece(false, 7, 0, 6, 0, &mut lm));
    assert_eq!(lm, None);
    assert!(board.borrow_space_contents(7, 0).is_rook());
    assert!(board.borrow_space_contents(6, 0).is_pawn());
}

#[test]
fn knight_jumps_over_interposed_pieces() {
    let board = ChessBoard::default();
    // Both knights start hemmed in by their own pawns and still have their
    // two L-shaped moves.
    assert!(rules::knight::is_valid_move(7, 6, 5, 5, &board));
    assert!(rules::knight::is_valid_move(7, 6, 5, 7, &board));
    assert!(rules::knight::is_valid_move(0, 1, 2, 2, &board));
    // A non-L displacement is rejected.
    assert!(!rules::knight::is_valid_move(7, 6, 5, 6, &board));
}

#[test]
fn rook_move_turns_illegal_once_a_piece_interposes() {
    let mut board = ChessBoard::default();
    board.set_space_contents(6, 0, ChessPiece::default());
    // With the a-file pawn gone the rook may run from a1 to a4.
    assert!(rules::rook::is_valid_move(7, 0, 4, 0, &board));
    // Any piece dropped strictly between flips the same move to illegal.
    board.set_space_contents(5, 0, black("knight"));
    assert!(!rules::rook::is_valid_move(7, 0, 4, 0, &board));
}

#[test]
fn bishop_move_turns_illegal_once_a_piece_interposes() {
    let mut board = ChessBoard::default();
    board.set_space_contents(6, 3, ChessPiece::default());
    // With the d2 pawn gone the bishop may run from c1 to g5.
    assert!(rules::bishop::is_valid_move(7, 2, 3, 6, &board));
    // Any piece dropped strictly between flips the same move to illegal.
    board.set_space_contents(5, 4, white("pawn"));
    assert!(!rules::bishop::is_valid_move(7, 2, 3, 6, &board));
}

#[test]
fn kingside_castle_executes_and_marks_both_pieces_moved() {
    let mut board = ChessBoard::default();
    board.set_space_contents(7, 5, ChessPiece::default());
    board.set_space_contents(7, 6, ChessPiece::default());
    assert!(rules::king::is_valid_move(7, 4, 7, 6, &board));
    let mut lm: LastMove = None;
    assert!(board.move_piece(false, 7, 4, 7, 6, &mut lm));
    let king = board.borrow_space_contents(7, 6);
    assert!(king.is_king());
    assert!(king.has_moved());
    let rook = board.borrow_space_contents(7, 5);
    assert!(rook.is_rook());
    assert!(rook.has_moved());
    assert!(board.borrow_space_contents(7, 4).is_empty());
    assert!(board.borrow_space_contents(7, 7).is_empty());
    assert_eq!(lm, Some(((4, 7), (6, 7))));
}

#[test]
fn queenside_castle_executes_and_marks_both_pieces_moved() {
    let mut board = ChessBoard::default();
    board.set_space_contents(7, 1, ChessPiece::default());
    board.set_space_contents(7, 2, ChessPiece::default());
    board.set_space_contents(7, 3, ChessPiece::default());
    assert!(rules::king::is_valid_move(7, 4, 7, 2, &board));
    let mut lm: LastMove = None;
    assert!(board.move_piece(false, 7, 4, 7, 2, &mut lm));
    let king = board.borrow_space_contents(7, 2);
    assert!(king.is_king());
    assert!(king.has_moved());
    let rook = board.borrow_space_contents(7, 3);
    assert!(rook.is_rook());
    assert!(rook.has_moved());
    assert!(board.borrow_space_contents(7, 4).is_empty());
    assert!(board.borrow_space_contents(7, 0).is_empty());
}

#[test]
fn black_kingside_castle_executes_on_its_own_back_rank() {
    let mut board = ChessBoard::default();
    board.set_space_contents(0, 5, ChessPiece::default());
    board.set_space_contents(0, 6, ChessPiece::default());
    assert!(rules::king::is_valid_move(0, 4, 0, 6, &board));
    let mut lm: LastMove = None;
    assert!(board.move_piece(true, 0, 4, 0, 6, &mut lm));
    assert!(board.borrow_space_contents(0, 6).is_king());
    assert!(board.borrow_space_contents(0, 5).is_rook());
    assert!(board.borrow_space_contents(0, 5).has_moved());
    assert!(board.borrow_space_contents(0, 7).is_empty());
}

#[test]
fn castle_is_illegal_once_the_rook_has_moved() {
    let mut board = ChessBoard::default();
    board.set_space_contents(7, 5, ChessPiece::default());
    board.set_space_contents(7, 6, ChessPiece::default());
    let mut moved_rook = white("rook");
    moved_rook.mark_moved();
    board.set_space_contents(7, 7, moved_rook);
    assert!(!rules::king::is_valid_move(7, 4, 7, 6, &board));
    let mut lm: LastMove = None;
    assert!(!board.move_piece(false, 7, 4, 7, 6, &mut lm));
    assert!(board.borrow_space_contents(7, 4).is_king());
}

#[test]
fn castle_is_illegal_while_a_piece_stands_between() {
    let mut board = ChessBoard::default();
    // Only the knight square g1 is cleared; the bishop still stands on f1.
    board.set_space_contents(7, 6, ChessPiece::default());
    assert!(!rules::king::is_valid_move(7, 4, 7, 6, &board));
}

#[test]
fn en_passant_capture_removes_the_passed_pawn() {
    let mut board = ChessBoard::default();
    // A white pawn on e5; the black f-pawn has just advanced two squares to
    // f5, landing beside it.
    board.set_space_contents(6, 4, ChessPiece::default());
    board.set_space_contents(3, 4, white("pawn"));
    board.set_space_contents(1, 5, ChessPiece::default());
    board.set_space_contents(3, 5, black("pawn"));
    let mut lm: LastMove = Some(((5, 1), (5, 3)));
    assert!(rules::pawn::is_valid_move(3, 4, 2, 5, &board, &lm));
    assert!(board.move_piece(false, 3, 4, 2, 5, &mut lm));
    // The capturing pawn sits on f6, the passed pawn is gone.
    assert!(board.borrow_space_contents(2, 5).is_pawn());
    assert!(board.borrow_space_contents(2, 5).is_white());
    assert!(board.borrow_space_contents(3, 5).is_empty());
    assert!(board.borrow_space_contents(3, 4).is_empty());
    assert_eq!(lm, Some(((4, 3), (5, 2))));
}

#[test]
fn black_en_passant_mirrors_the_white_one() {
    let mut board = ChessBoard::default();
    // A black pawn on d4; the white c-pawn has just advanced two squares to
    // c4, landing beside it.
    board.set_space_contents(1, 3, ChessPiece::default());
    board.set_space_contents(4, 3, black("pawn"));
    board.set_space_contents(6, 2, ChessPiece::default());
    board.set_space_contents(4, 2, white("pawn"));
    let mut lm: LastMove = Some(((2, 6), (2, 4)));
    assert!(rules::pawn::is_valid_move(4, 3, 5, 2, &board, &lm));
    assert!(board.move_piece(true, 4, 3, 5, 2, &mut lm));
    // The capturing pawn sits on c3, the passed pawn is gone.
    assert!(board.borrow_space_contents(5, 2).is_pawn());
    assert!(board.borrow_space_contents(5, 2).is_black());
    assert!(board.borrow_space_contents(4, 2).is_empty());
    assert!(board.borrow_space_contents(4, 3).is_empty());
}

#[test]
fn en_passant_is_illegal_without_the_matching_last_move() {
    let mut board = ChessBoard::default();
    board.set_space_contents(6, 4, ChessPiece::default());
    board.set_space_contents(3, 4, white("pawn"));
    board.set_space_contents(1, 5, ChessPiece::default());
    board.set_space_contents(3, 5, black("pawn"));
    // No previous move at all.
    let none: LastMove = None;
    assert!(!rules::pawn::is_valid_move(3, 4, 2, 5, &board, &none));
    // A previous move that was no two-square advance beside the mover.
    let other: LastMove = Some(((5, 2), (5, 3)));
    assert!(!rules::pawn::is_valid_move(3, 4, 2, 5, &board, &other));
}

#[test]
fn pawn_steps_and_captures() {
    let mut board = ChessBoard::default();
    let none: LastMove = None;
    // Single step forward from any rank; double step only from the home rank.
    assert!(rules::pawn::is_valid_move(6, 4, 5, 4, &board, &none));
    assert!(rules::pawn::is_valid_move(6, 4, 4, 4, &board, &none));
    assert!(!rules::pawn::is_valid_move(6, 4, 3, 4, &board, &none));
    assert!(rules::pawn::is_valid_move(1, 0, 2, 0, &board, &none));
    assert!(rules::pawn::is_valid_move(1, 0, 3, 0, &board, &none));
    // A straight move onto an occupied square is illegal.
    board.set_space_contents(5, 4, black("rook"));
    assert!(!rules::pawn::is_valid_move(6, 4, 5, 4, &board, &none));
    // A diagonal step onto an enemy piece is an ordinary capture; onto an
    // empty square it needs en passant.
    assert!(rules::pawn::is_valid_move(6, 3, 5, 4, &board, &none));
    assert!(!rules::pawn::is_valid_move(6, 1, 5, 2, &board, &none));
}

#[test]
fn pawn_double_advance_ignores_the_skipped_square() {
    let mut board = ChessBoard::default();
    // The square the pawn skips over is occupied, yet the double advance is
    // still reported legal: a preserved gap of the rule.
    board.set_space_contents(5, 4, black("rook"));
    let none: LastMove = None;
    assert!(rules::pawn::is_valid_move(6, 4, 4, 4, &board, &none));
}

#[test]
fn queen_moves_like_rook_or_bishop_and_nothing_else() {
    let mut board = ChessBoard::default();
    board.set_space_contents(6, 3, ChessPiece::default());
    board.set_space_contents(6, 4, ChessPiece::default());
    // d1 to d4: a rook-like run up the cleared d-file.
    assert!(rules::queen::is_valid_move(7, 3, 4, 3, &board));
    // d1 to h5: a bishop-like run up the cleared diagonal.
    assert!(rules::queen::is_valid_move(7, 3, 3, 7, &board));
    // An L-shaped displacement fits neither rule.
    assert!(!rules::queen::is_valid_move(7, 3, 5, 4, &board));
}

#[test]
fn king_takes_single_steps_onto_free_squares() {
    let mut board = ChessBoard::default();
    assert!(!rules::king::is_valid_move(7, 4, 6, 4, &board));
    board.set_space_contents(6, 4, ChessPiece::default());
    board.set_space_contents(6, 3, ChessPiece::default());
    assert!(rules::king::is_valid_move(7, 4, 6, 4, &board));
    assert!(rules::king::is_valid_move(7, 4, 6, 3, &board));
    assert!(!rules::king::is_valid_move(7, 4, 5, 4, &board));
}

#[test]
fn second_move_of_the_same_color_is_rejected_by_turn_enforcement() {
    let mut board = ChessBoard::default();
    let mut lm: LastMove = None;
    // White opens e2 to e4, a legal double advance from the home row.
    assert!(board.move_piece(false, 6, 4, 4, 4, &mut lm));
    assert_eq!(lm, Some(((4, 6), (4, 4))));
    assert!(board.borrow_space_contents(4, 4).is_pawn());
    assert!(board.borrow_space_contents(6, 4).is_empty());
    // The caller flips the turn; a second white move, itself geometrically
    // legal, is rejected purely because the piece is not black.
    assert!(!board.move_piece(true, 6, 3, 4, 3, &mut lm));
    assert_eq!(lm, Some(((4, 6), (4, 4))));
    assert!(board.borrow_space_contents(6, 3).is_pawn());
    assert!(board.borrow_space_contents(4, 3).is_empty());
    // Black's own reply passes the same gate.
    assert!(board.move_piece(true, 1, 4, 3, 4, &mut lm));
    assert_eq!(lm, Some(((4, 1), (4, 3))));
}

#[test]
fn a_target_off_the_board_is_illegal() {
    let mut board = ChessBoard::default();
    board.set_space_contents(6, 0, ChessPiece::default());
    // The rook may run up the cleared a-file, but not beyond it.
    assert!(rules::rook::is_valid_move(7, 0, 4, 0, &board));
    assert!(!rules::rook::is_valid_move(7, 0, 8, 0, &board));
    assert!(!rules::knight::is_valid_move(7, 1, 8, 2, &board));
    let mut lm: LastMove = None;
    assert!(!board.move_piece(false, 7, 0, 9, 0, &mut lm));
    assert_eq!(lm, None);
}

#[test]
fn moving_an_empty_square_fails_the_turn_gate() {
    let mut board = ChessBoard::default();
    let mut lm: LastMove = None;
    // An empty square reads as not-black, so on Black's turn it is rejected
    // by turn enforcement alone and nothing changes.
    assert!(!board.move_piece(true, 4, 4, 3, 4, &mut lm));
    assert_eq!(lm, None);
}
