use chess::components::chess_board::ChessBoard;

#[test]
fn file_labels_are_a_through_h() {
    let expected = ["a", "b", "c", "d", "e", "f", "g", "h"];
    let mut idx: u8 = 0;
    while idx < 8 {
        assert_eq!(ChessBoard::get_file_label(idx), expected[idx as usize]);
        idx += 1;
    }
}

#[test]
fn rank_labels_are_8_down_to_1() {
    let expected = ["8", "7", "6", "5", "4", "3", "2", "1"];
    let mut idx: u8 = 0;
    while idx < 8 {
        assert_eq!(ChessBoard::get_rank_label(idx), expected[idx as usize]);
        idx += 1;
    }
}

#[test]
fn file_parsing_inverts_labels() {
    assert_eq!(ChessBoard::get_file(String::from("a")), 0);
    assert_eq!(ChessBoard::get_file(String::from("e")), 4);
    assert_eq!(ChessBoard::get_file(String::from("h")), 7);
}

#[test]
fn rank_parsing_inverts_labels() {
    assert_eq!(ChessBoard::get_rank(String::from("8")), 0);
    assert_eq!(ChessBoard::get_rank(String::from("2")), 6);
    assert_eq!(ChessBoard::get_rank(String::from("1")), 7);
}

#[test]
fn file_label_round_trip_holds_for_every_index() {
    let mut idx: u8 = 0;
    while idx < 8 {
        let label = ChessBoard::get_file_label(idx);
        let parsed = ChessBoard::get_file(label.clone());
        assert_eq!(parsed, idx);
        assert_eq!(ChessBoard::get_file_label(parsed), label);
        idx += 1;
    }
}

#[test]
fn rank_label_round_trip_holds_for_every_index() {
    let mut idx: u8 = 0;
    while idx < 8 {
        let label = ChessBoard::get_rank_label(idx);
        let parsed = ChessBoard::get_rank(label.clone());
        assert_eq!(parsed, idx);
        assert_eq!(ChessBoard::get_rank_label(parsed), label);
        idx += 1;
    }
}
