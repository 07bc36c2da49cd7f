pub mod chess_board;
pub mod chess_piece;
