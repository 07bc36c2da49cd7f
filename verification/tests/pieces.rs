use chess::components::chess_piece::ChessPiece;

#[test]
fn default_piece_is_an_empty_square() {
    let p = ChessPiece::default();
    assert!(p.is_empty());
    assert!(!p.is_black());
    assert!(!p.is_white());
    assert!(!p.has_moved());
    assert_eq!(p.get_color(), "none");
    assert_eq!(p.get_type(), "none");
}

#[test]
fn constructed_piece_reports_its_color_and_type() {
    let p = ChessPiece::construct(String::from("black"), String::from("queen"));
    assert!(p.is_black());
    assert!(!p.is_white());
    assert!(!p.is_empty());
    assert_eq!(p.get_color(), "black");
    assert_eq!(p.get_type(), "queen");
    assert!(!p.has_moved());

    let q = ChessPiece::construct(String::from("white"), String::from("pawn"));
    assert!(!q.is_black());
    assert!(q.is_white());
    assert_eq!(q.get_color(), "white");
    assert_eq!(q.get_type(), "pawn");
    assert!(q.is_pawn());
    assert!(!q.is_rook());
    assert!(!q.is_king());
}

#[test]
fn every_type_label_comes_back_from_get_type() {
    for label in ["none", "pawn", "rook", "knight", "bishop", "queen", "king"] {
        let p = ChessPiece::construct(String::from("white"), String::from(label));
        assert_eq!(p.get_type(), label);
    }
}

#[test]
fn mark_moved_sets_the_flag_for_good() {
    let mut p = ChessPiece::construct(String::from("white"), String::from("rook"));
    assert!(!p.has_moved());
    p.mark_moved();
    assert!(p.has_moved());
    p.mark_moved();
    assert!(p.has_moved());
}
